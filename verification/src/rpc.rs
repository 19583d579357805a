//! What the library takes on trust from `tonic`, the framework that carries
//! the calls.
//!
//! Nothing in this file is proved. Each item names the `tonic` function that
//! it stands for and says what the rest of the library assumes of it.

use vstd::prelude::*;

verus! {

/// A call as `tonic` hands it over: a message of type `T` together with the
/// call's metadata. The library looks inside only through `ascii_value`.
#[verifier::external_type_specification]
#[verifier::external_body]
#[verifier::reject_recursive_types(T)]
pub struct ExRequest<T>(tonic::Request<T>);

/// The failure of a call as `tonic` reports it to the caller. The library
/// makes such values with `invalid_argument` and `unauthenticated` and
/// hands them on; it never looks inside one.
#[verifier::external_type_specification]
#[verifier::external_body]
pub struct ExStatus(tonic::Status);

/// What `tonic::metadata::MetadataMap::get` finds in the metadata of
/// `request` under the textual key `key`: the bytes of the first value stored
/// under that key, or nothing where no value is stored under it.
pub uninterp spec fn metadata_value(request: tonic::Request<()>, key: Seq<char>) -> Option<
    Seq<u8>,
>;

/// The status that `tonic::Status::invalid_argument` makes of `message`: a
/// status of the code for an invalid argument that carries `message` and
/// nothing else.
pub uninterp spec fn invalid_argument_status(message: Seq<char>) -> tonic::Status;

/// The status that `tonic::Status::unauthenticated` makes of `message`: a
/// status of the code for a missing or wrong credential that carries
/// `message` and nothing else.
pub uninterp spec fn unauthenticated_status(message: Seq<char>) -> tonic::Status;

/// The bytes of an optional byte vector.
pub open spec fn optional_bytes(value: Option<Vec<u8>>) -> Option<Seq<u8>> {
    match value {
        Some(bytes) => Some(bytes@),
        None => None,
    }
}

/// Looks `key` up with `tonic::metadata::MetadataMap::get` in the metadata
/// that `tonic::Request::metadata` gives for `request`, and copies the bytes
/// of the value found, taken with `MetadataValue::as_bytes`. The contract
/// claims only that the outcome is the one `metadata_value` stands for, that
/// is, that it depends on nothing but the request's metadata and the key.
#[verifier::external_body]
pub(crate) fn ascii_value(request: &tonic::Request<()>, key: &str) -> (value: Option<Vec<u8>>)
    ensures
        optional_bytes(value) == metadata_value(*request, key@),
{
    match request.metadata().get(key) {
        Some(found) => Some(found.as_bytes().to_vec()),
        None => None,
    }
}

/// Calls `tonic::Status::invalid_argument`. The contract claims only that
/// the status made depends on nothing but the message.
#[verifier::external_body]
pub(crate) fn invalid_argument(message: &str) -> (status: tonic::Status)
    ensures
        status == invalid_argument_status(message@),
{
    tonic::Status::invalid_argument(message)
}

/// Calls `tonic::Status::unauthenticated`. The contract claims only that
/// the status made depends on nothing but the message.
#[verifier::external_body]
pub(crate) fn unauthenticated(message: &str) -> (status: tonic::Status)
    ensures
        status == unauthenticated_status(message@),
{
    tonic::Status::unauthenticated(message)
}

} // verus!
