//! The trap's HTTP front end: what it dispatches with, and the status line it
//! answers with.

use vstd::prelude::*;

use crate::app::Dispatch;

verus! {

/// What the HTTP front end needs: something that dispatches requests.
pub trait Deps: Clone + Send + Sync + 'static {
    /// The kind of dispatcher.
    type Dispatcher: Dispatch;

    /// The dispatcher that answers the trap's requests.
    fn dispatch(&self) -> &Self::Dispatcher;
}

/// Whether `code` can stand in an HTTP status line: a three-digit number
/// from 100 to 999.
pub open spec fn is_status_code(code: u16) -> bool {
    100 <= code <= 999
}

/// `http::StatusCode::from_u16`, which accepts exactly the codes from 100 to
/// 999, read as whether it accepted `code`.
#[verifier::external_body]
fn status_code_accepted(code: u16) -> (b: bool)
    ensures
        b == is_status_code(code),
{
    ::http::StatusCode::from_u16(code).is_ok()
}

/// The status the front end answers a payload with: the payload's own, or
/// `500 Internal Server Error` where that is no valid status code.
pub fn response_status(code: u16) -> (s: u16)
    ensures
        s == if is_status_code(code) { code } else { 500 },
{
    if status_code_accepted(code) {
        code
    } else {
        500
    }
}

} // verus!
