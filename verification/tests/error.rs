use calc_service::error::{Code, RpcError};

#[test]
fn division_by_zero_reports_invalid_argument() {
    assert_eq!(RpcError::DivisionByZero.code(), Code::InvalidArgument);
    assert_eq!(RpcError::DivisionByZero.message(), "Cannot divide by zero");
}

#[test]
fn missing_token_reports_unauthenticated() {
    assert_eq!(RpcError::MissingToken.code(), Code::Unauthenticated);
    assert_eq!(RpcError::MissingToken.message(), "Missing token");
}

#[test]
fn invalid_token_reports_unauthenticated() {
    assert_eq!(RpcError::InvalidToken.code(), Code::Unauthenticated);
    assert_eq!(RpcError::InvalidToken.message(), "Invalid token");
}

#[test]
fn division_by_zero_becomes_an_invalid_argument_status() {
    let status = RpcError::DivisionByZero.into_status();
    assert_eq!(status.code(), tonic::Code::InvalidArgument);
    assert_eq!(status.message(), "Cannot divide by zero");
    assert!(status.details().is_empty());
    assert!(status.metadata().is_empty());
}

#[test]
fn missing_token_becomes_an_unauthenticated_status() {
    let status = RpcError::MissingToken.into_status();
    assert_eq!(status.code(), tonic::Code::Unauthenticated);
    assert_eq!(status.message(), "Missing token");
    assert!(status.details().is_empty());
    assert!(status.metadata().is_empty());
}

#[test]
fn invalid_token_becomes_an_unauthenticated_status() {
    let status = RpcError::InvalidToken.into_status();
    assert_eq!(status.code(), tonic::Code::Unauthenticated);
    assert_eq!(status.message(), "Invalid token");
    assert!(status.details().is_empty());
    assert!(status.metadata().is_empty());
}
