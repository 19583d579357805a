//! The guard in front of the administrative calls.
//!
//! A call passes the guard when its metadata carries, under the key
//! `authorization`, exactly the expected bearer credential. The guard keeps no
//! state and changes nothing: it only admits or refuses.

use vstd::prelude::*;
use vstd::string::StringSliceAdditionalSpecFns;
use crate::error::RpcError;
use crate::rpc::{ascii_value, metadata_value};

verus! {

/// The metadata key under which a caller presents its credential.
pub const AUTHORIZATION_KEY: &'static str = "authorization";

/// The credential that admits a caller.
pub const EXPECTED_CREDENTIAL: &'static str = "Bearer some-secret-token";

/// The bytes of the credential that admits a caller.
pub open spec fn expected_bytes() -> Seq<u8> {
    EXPECTED_CREDENTIAL.spec_bytes()
}

/// The guard's decision on the credential found in a call's metadata:
/// `presented` is `None` where the metadata holds no credential.
pub open spec fn admission(presented: Option<Seq<u8>>) -> Result<(), RpcError> {
    match presented {
        None => Err(RpcError::MissingToken),
        Some(bytes) => if bytes == expected_bytes() {
            Ok(())
        } else {
            Err(RpcError::InvalidToken)
        },
    }
}

/// The bytes of an optional byte slice.
pub open spec fn presented_bytes(presented: Option<&[u8]>) -> Option<Seq<u8>> {
    match presented {
        Some(bytes) => Some(bytes@),
        None => None,
    }
}

/// Whether two byte strings are the same, byte for byte.
pub fn same_bytes(left: &[u8], right: &[u8]) -> (same: bool)
    ensures
        same == (left@ == right@),
{
    if left.len() != right.len() {
        return false;
    }
    let mut index: usize = 0;
    while index < left.len()
        invariant
            left@.len() == right@.len(),
            index <= left@.len(),
            forall|i: int| 0 <= i < index ==> left@[i] == right@[i],
        decreases left@.len() - index,
    {
        if left[index] != right[index] {
            return false;
        }
        index = index + 1;
    }
    assert(left@ =~= right@);
    true
}

/// Decides on a presented credential: admits exactly the expected one,
/// refuses a missing one as missing and any other one as invalid.
pub fn authorize(presented: Option<&[u8]>) -> (decision: Result<(), RpcError>)
    ensures
        decision == admission(presented_bytes(presented)),
{
    match presented {
        None => Err(RpcError::MissingToken),
        Some(bytes) => {
            if same_bytes(bytes, EXPECTED_CREDENTIAL.as_bytes()) {
                Ok(())
            } else {
                Err(RpcError::InvalidToken)
            }
        },
    }
}

/// Passes an incoming call through the guard. The call is handed back
/// unchanged when its `authorization` entry is the expected credential;
/// otherwise it is dropped and the status that reports the reason is
/// returned, so that no handler ever sees a refused call.
pub fn check_auth(request: tonic::Request<()>) -> (verdict: Result<
    tonic::Request<()>,
    tonic::Status,
>)
    ensures
        match admission(metadata_value(request, AUTHORIZATION_KEY@)) {
            Ok(_) => verdict == Ok::<tonic::Request<()>, tonic::Status>(request),
            Err(reason) => verdict == Err::<tonic::Request<()>, tonic::Status>(
                reason.status_spec(),
            ),
        },
{
    let presented = ascii_value(&request, AUTHORIZATION_KEY);
    let decision = match &presented {
        Some(bytes) => authorize(Some(bytes.as_slice())),
        None => authorize(None),
    };
    match decision {
        Ok(_) => Ok(request),
        Err(reason) => Err(reason.into_status()),
    }
}

} // verus!
