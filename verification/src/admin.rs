//! The administrative service: reporting how many requests were served.
//!
//! Its calls reach this handler only through the guard of `crate::auth`.

use vstd::prelude::*;
use crate::counter::RequestCount;

verus! {

/// The request count as it stood when it was read.
#[derive(Debug, Clone, Copy, PartialEq, Eq, Structural)]
pub struct GetCountResponse {
    pub count: u64,
}

/// Reports the current request count. The call reads the counter and leaves
/// it as it is; it cannot fail.
pub fn get_request_count(counter: &RequestCount) -> (response: GetCountResponse)
    ensures
        response.count == counter@,
{
    GetCountResponse { count: counter.read() }
}

} // verus!
