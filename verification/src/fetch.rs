//! What a caller hands back after it tried to fetch a document.

use vstd::prelude::*;

verus! {

/// The outcome of one fetch, as the caller saw it.
#[derive(Clone, Debug, PartialEq, Eq)]
pub enum Fetched {
    /// The remote service answered; this is the body of its answer.
    Body(String),
    /// The request failed on the way: no connection, no answer, a broken
    /// answer.
    TransportFailure,
    /// The remote service turned the caller's credentials down.
    AuthRejected,
}

/// The HTTP status with which a service turns credentials down.
pub const STATUS_UNAUTHORIZED: u16 = 401;

/// What an HTTP answer is to the library: one with the status
/// `STATUS_UNAUTHORIZED` is a rejection of the caller's credentials, any
/// other is its body.
pub fn from_answer(status: u16, body: String) -> (r: Fetched)
    ensures
        r == (if status == STATUS_UNAUTHORIZED {
            Fetched::AuthRejected
        } else {
            Fetched::Body(body)
        }),
{
    if status == STATUS_UNAUTHORIZED {
        Fetched::AuthRejected
    } else {
        Fetched::Body(body)
    }
}

} // verus!
