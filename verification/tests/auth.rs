use calc_service::auth::{authorize, check_auth, same_bytes, AUTHORIZATION_KEY, EXPECTED_CREDENTIAL};
use calc_service::error::RpcError;
use tonic::metadata::{AsciiMetadataValue, MetadataValue};
use tonic::Request;

fn request_with(credential: &str) -> Request<()> {
    let mut request = Request::new(());
    let value: AsciiMetadataValue = credential.parse().unwrap();
    request.metadata_mut().insert("authorization", value);
    request
}

#[test]
fn constants_are_the_published_ones() {
    assert_eq!(AUTHORIZATION_KEY, "authorization");
    assert_eq!(EXPECTED_CREDENTIAL, "Bearer some-secret-token");
}

#[test]
fn missing_credential_is_refused_as_missing() {
    assert_eq!(authorize(None), Err(RpcError::MissingToken));
}

#[test]
fn expected_credential_is_admitted() {
    assert_eq!(authorize(Some(b"Bearer some-secret-token")), Ok(()));
}

#[test]
fn other_credentials_are_refused_as_invalid() {
    let wrong: [&[u8]; 9] = [
        b"",
        b"Bearer",
        b"Bearer ",
        b"Bearer some-secret-toke",
        b"Bearer some-secret-token ",
        b" Bearer some-secret-token",
        b"bearer some-secret-token",
        b"Bearer some-secret-tokeN",
        b"some-secret-token",
    ];
    for credential in wrong {
        assert_eq!(authorize(Some(credential)), Err(RpcError::InvalidToken));
    }
}

#[test]
fn credential_with_opaque_bytes_is_refused_as_invalid() {
    assert_eq!(authorize(Some(&[0xff, 0x00, 0x80])), Err(RpcError::InvalidToken));
    let mut almost = b"Bearer some-secret-token".to_vec();
    almost[0] = 0xc2;
    assert_eq!(authorize(Some(&almost)), Err(RpcError::InvalidToken));
}

#[test]
fn same_bytes_compares_byte_for_byte() {
    assert!(same_bytes(b"", b""));
    assert!(same_bytes(b"abc", b"abc"));
    assert!(!same_bytes(b"abc", b"abd"));
    assert!(!same_bytes(b"abc", b"ab"));
    assert!(!same_bytes(b"ab", b"abc"));
    assert!(!same_bytes(b"", b"a"));
    assert!(!same_bytes(b"xbc", b"abc"));
}

#[test]
fn call_without_metadata_is_unauthenticated() {
    let status = check_auth(Request::new(())).unwrap_err();
    assert_eq!(status.code(), tonic::Code::Unauthenticated);
    assert_eq!(status.message(), "Missing token");
}

#[test]
fn call_with_other_metadata_only_is_unauthenticated() {
    let mut request = Request::new(());
    request.metadata_mut().insert("x-trace", "Bearer some-secret-token".parse().unwrap());
    let status = check_auth(request).unwrap_err();
    assert_eq!(status.code(), tonic::Code::Unauthenticated);
    assert_eq!(status.message(), "Missing token");
}

#[test]
fn call_with_wrong_credential_is_unauthenticated() {
    let status = check_auth(request_with("Bearer some-other-token")).unwrap_err();
    assert_eq!(status.code(), tonic::Code::Unauthenticated);
    assert_eq!(status.message(), "Invalid token");
}

#[test]
fn call_with_empty_credential_is_unauthenticated() {
    let status = check_auth(request_with("")).unwrap_err();
    assert_eq!(status.code(), tonic::Code::Unauthenticated);
    assert_eq!(status.message(), "Invalid token");
}

#[test]
fn call_with_credential_in_other_case_is_unauthenticated() {
    let status = check_auth(request_with("bearer some-secret-token")).unwrap_err();
    assert_eq!(status.code(), tonic::Code::Unauthenticated);
    assert_eq!(status.message(), "Invalid token");
}

#[test]
fn call_with_opaque_credential_is_unauthenticated() {
    let mut request = Request::new(());
    let value: AsciiMetadataValue = MetadataValue::try_from(&[0xff_u8, 0xfe][..]).unwrap();
    request.metadata_mut().insert("authorization", value);
    let status = check_auth(request).unwrap_err();
    assert_eq!(status.code(), tonic::Code::Unauthenticated);
    assert_eq!(status.message(), "Invalid token");
}

#[test]
fn call_with_expected_credential_passes_unchanged() {
    let mut request = request_with("Bearer some-secret-token");
    request.metadata_mut().insert("x-trace", "abc".parse().unwrap());
    let passed = check_auth(request).unwrap();
    assert_eq!(passed.metadata().len(), 2);
    assert_eq!(passed.metadata().get("authorization").unwrap(), "Bearer some-secret-token");
    assert_eq!(passed.metadata().get("x-trace").unwrap(), "abc");
}

#[test]
fn first_of_several_credentials_decides() {
    let mut request = request_with("Bearer some-secret-token");
    request.metadata_mut().append("authorization", "Bearer some-other-token".parse().unwrap());
    assert!(check_auth(request).is_ok());

    let mut request = request_with("Bearer some-other-token");
    request.metadata_mut().append("authorization", "Bearer some-secret-token".parse().unwrap());
    let status = check_auth(request).unwrap_err();
    assert_eq!(status.message(), "Invalid token");
}

#[test]
fn refused_call_never_reads_the_count() {
    let counter = calc_service::counter::RequestCount::new();
    let refused = check_auth(Request::new(())).map(|_| calc_service::admin::get_request_count(&counter));
    assert!(refused.is_err());
    let admitted = check_auth(request_with(EXPECTED_CREDENTIAL))
        .map(|_| calc_service::admin::get_request_count(&counter));
    assert_eq!(admitted.unwrap().count, 0);
}
