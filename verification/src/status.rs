use vstd::prelude::*;

verus! {

/// What came back from one HTTP exchange: either a numeric status code,
/// or a transport-level failure (connection refused, timeout, DNS failure),
/// which is kept distinct from every HTTP error response.
#[derive(Clone, Copy, PartialEq, Eq, Structural, Debug)]
pub enum ServerReply {
    Status(u16),
    TransportFailure,
}

/// A status code in the 2xx range counts as success.
pub open spec fn is_success(code: u16) -> bool {
    200 <= code < 300
}

pub fn code_is_success(code: u16) -> (r: bool)
    ensures
        r == is_success(code),
{
    200 <= code && code < 300
}

} // verus!
