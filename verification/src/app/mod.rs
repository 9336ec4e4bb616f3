//! Answering requests: dispatch to the first generator that recognises them.

pub mod dispatch;

use vstd::prelude::*;
use vstd::utf8::encode_utf8;

use crate::domain::payload::{Payload, PayloadView};
use crate::domain::request::{Request, RequestView};
use crate::text::owned;

verus! {

/// The text of the optional payload's view.
pub open spec fn opt_payload(p: Option<Payload>) -> Option<PayloadView> {
    match p {
        Some(x) => Some(x@),
        None => None,
    }
}

/// What a counter of requests is told of one request: the name of the
/// generator that served it, or nothing for a request that no generator served.
pub type Recorded = Option<Seq<char>>;

/// Answers requests with decoys, counting what it serves.
pub trait Dispatch: Sized {
    /// The answers `dispatch` may give to `request`: a decoy, or none where
    /// no trap recognises it.
    spec fn answers(&self, request: RequestView, answer: Option<PayloadView>) -> bool;

    /// How dispatching `request` leaves the dispatcher: `next` is the
    /// dispatcher after it.
    spec fn counts(self, request: RequestView, next: Self) -> bool;

    /// The decoy for `request`, if a trap recognises it.
    fn dispatch(&mut self, request: &Request) -> (answer: Option<Payload>)
        ensures
            old(self).answers(request@, opt_payload(answer)),
            old(self).counts(request@, *final(self)),
    ;
}

/// Counts the requests served by each generator and those nobody served.
/// Implementations keep the counts wherever they like (the program's are
/// Prometheus counters shared between copies); nothing is promised of them.
pub trait Metrics {
    /// A request was served by the generator named `generator`.
    fn record_served(&self, generator: &str);

    /// A request matched no generator.
    fn record_miss(&self);
}

/// The label under which unserved requests are counted.
pub const MISS_LABEL: &'static str = "none";

/// The page served when no trap recognises a request: nginx's 404 page.
pub open spec fn not_found_page() -> Seq<char> {
    "<html>\r\n<head><title>404 Not Found</title></head>\r\n<body>\r\n<center><h1>404 Not Found</h1></center>\r\n<hr><center>nginx</center>\r\n</body>\r\n</html>\r\n"@
}

/// The answer to a request that no trap recognises.
pub open spec fn not_found_view() -> PayloadView {
    PayloadView {
        status: 404,
        content_type: "text/html"@,
        body: encode_utf8(not_found_page()),
        delay_ms: None,
    }
}

/// nginx's `404 Not Found` page.
pub fn not_found() -> (p: Payload)
    ensures
        p@ == not_found_view(),
{
    let body = owned(
        "<html>\r\n<head><title>404 Not Found</title></head>\r\n<body>\r\n<center><h1>404 Not Found</h1></center>\r\n<hr><center>nginx</center>\r\n</body>\r\n</html>\r\n",
    );
    Payload::new(404, owned("text/html"), body.into_bytes())
}

/// The response to a request: the decoy, or the 404 page where there is none.
pub fn respond<D: Dispatch>(dispatcher: &mut D, request: &Request) -> (p: Payload)
    ensures
        old(dispatcher).answers(request@, Some(p@)) || (old(dispatcher).answers(request@, None)
            && p@ == not_found_view()),
        old(dispatcher).counts(request@, *final(dispatcher)),
{
    match dispatcher.dispatch(request) {
        Some(p) => p,
        None => not_found(),
    }
}

} // verus!
