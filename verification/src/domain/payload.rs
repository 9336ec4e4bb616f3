//! The decoy a trap answers with.

use vstd::prelude::*;
use vstd::utf8::encode_utf8;

use crate::text::owned;

verus! {

/// A decoy response: status, content type, body and, for answers that a real
/// server would be slow to give, a delay in milliseconds.
#[derive(Debug, Clone)]
pub struct Payload {
    status: u16,
    content_type: String,
    body: Vec<u8>,
    delay_ms: Option<u64>,
}

/// The abstract value of a `Payload`.
pub struct PayloadView {
    pub status: u16,
    pub content_type: Seq<char>,
    pub body: Seq<u8>,
    pub delay_ms: Option<u64>,
}

impl View for Payload {
    type V = PayloadView;

    closed spec fn view(&self) -> PayloadView {
        PayloadView {
            status: self.status,
            content_type: self.content_type@,
            body: self.body@,
            delay_ms: self.delay_ms,
        }
    }
}

/// The content type of HTML decoys.
pub open spec fn html_type() -> Seq<char> {
    "text/html; charset=utf-8"@
}

/// The content type of plain text decoys.
pub open spec fn text_type() -> Seq<char> {
    "text/plain; charset=utf-8"@
}

/// A `200 OK` HTML decoy with `body` as its text.
pub open spec fn html_payload(body: Seq<char>) -> PayloadView {
    PayloadView { status: 200, content_type: html_type(), body: encode_utf8(body), delay_ms: None }
}

/// A `200 OK` plain text decoy with `body` as its text.
pub open spec fn text_payload(body: Seq<char>) -> PayloadView {
    PayloadView { status: 200, content_type: text_type(), body: encode_utf8(body), delay_ms: None }
}

impl Payload {
    /// A payload answered at once.
    pub fn new(status: u16, content_type: String, body: Vec<u8>) -> (p: Self)
        ensures
            p@ == (PayloadView { status, content_type: content_type@, body: body@, delay_ms: None }),
    {
        Payload { status, content_type, body, delay_ms: None }
    }

    /// The same payload, answered after `delay_ms` milliseconds.
    pub fn with_delay(self, delay_ms: u64) -> (p: Self)
        ensures
            p@ == (PayloadView { delay_ms: Some(delay_ms), ..self@ }),
    {
        let mut p = self;
        p.delay_ms = Some(delay_ms);
        p
    }

    /// A `200 OK` HTML payload.
    pub fn html(body: String) -> (p: Self)
        ensures
            p@ == html_payload(body@),
    {
        Payload::new(200, owned("text/html; charset=utf-8"), body.into_bytes())
    }

    /// A `200 OK` plain text payload.
    pub fn text(body: String) -> (p: Self)
        ensures
            p@ == text_payload(body@),
    {
        Payload::new(200, owned("text/plain; charset=utf-8"), body.into_bytes())
    }

    /// The HTTP status.
    pub fn status(&self) -> (s: u16)
        ensures
            s == self@.status,
    {
        self.status
    }

    /// The content type.
    pub fn content_type(&self) -> (t: &str)
        ensures
            t@ == self@.content_type,
    {
        self.content_type.as_str()
    }

    /// The body.
    pub fn body(&self) -> (b: &[u8])
        ensures
            b@ == self@.body,
    {
        self.body.as_slice()
    }

    /// The delay before answering, in milliseconds, if there is one.
    pub fn delay(&self) -> (d: Option<u64>)
        ensures
            d == self@.delay_ms,
    {
        self.delay_ms
    }

    /// The body, taking the payload apart.
    pub fn into_body(self) -> (b: Vec<u8>)
        ensures
            b@ == self@.body,
    {
        self.body
    }
}

} // verus!
