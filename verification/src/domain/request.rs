//! A request as the traps see it: method, decoded URL and body.

use vstd::prelude::*;
use vstd::utf8::{decode_utf8, valid_utf8};

use crate::decoding::{percent_decode_lossy, percent_decode_text, utf8_text};
use crate::domain::request_url::{url_of, RequestUrl, UrlView};
use crate::text::{chars_of, nonempty_pieces, owned, split_nonempty, split_on, string_of_range};

verus! {

/// An incoming request.
#[derive(Clone)]
pub struct Request {
    method: String,
    url: RequestUrl,
    body: Vec<u8>,
}

/// The abstract value of a `Request`.
pub struct RequestView {
    pub method: Seq<char>,
    pub url: UrlView,
    pub body: Seq<u8>,
}

impl View for Request {
    type V = RequestView;

    closed spec fn view(&self) -> RequestView {
        RequestView { method: self.method@, url: self.url@, body: self.body@ }
    }
}

/// The index of the first `c` in `s`, or -1.
pub open spec fn first_index_of(s: Seq<char>, c: char) -> int
    decreases s.len(),
{
    if s.len() == 0 {
        -1
    } else if s[0] == c {
        0
    } else if first_index_of(s.drop_first(), c) < 0 {
        -1
    } else {
        first_index_of(s.drop_first(), c) + 1
    }
}

/// A form pair split at its first `=`; a pair without `=` is all key.
pub open spec fn split_pair(pair: Seq<char>) -> (Seq<char>, Seq<char>) {
    let i = first_index_of(pair, '=');
    if i < 0 {
        (pair, Seq::<char>::empty())
    } else {
        (pair.take(i), pair.skip(i + 1))
    }
}

/// `s` with every `+` read as a space.
pub open spec fn plus_as_space(s: Seq<char>) -> Seq<char> {
    s.map_values(|c: char| if c == '+' { ' ' } else { c })
}

/// A form-encoded key or value, decoded: `+` is a space, then percent escapes.
pub open spec fn form_decoded(raw: Seq<char>) -> Seq<char> {
    percent_decode_text(plus_as_space(raw))
}

/// The decoded key and value of a form pair.
pub open spec fn decoded_pair(pair: Seq<char>) -> (Seq<char>, Seq<char>) {
    (form_decoded(split_pair(pair).0), form_decoded(split_pair(pair).1))
}

/// The decoded pairs of a form body: its non-empty `&`-separated pieces.
pub open spec fn form_pairs_of(body: Seq<char>) -> Seq<(Seq<char>, Seq<char>)> {
    nonempty_pieces(split_on(body, '&')).map_values(|p: Seq<char>| decoded_pair(p))
}

/// The value of the first pair whose key is `name`.
pub open spec fn first_value(pairs: Seq<(Seq<char>, Seq<char>)>, name: Seq<char>) -> Option<
    Seq<char>,
>
    decreases pairs.len(),
{
    if pairs.len() == 0 {
        None
    } else if pairs[0].0 == name {
        Some(pairs[0].1)
    } else {
        first_value(pairs.drop_first(), name)
    }
}

/// The value of the form field `name` in a body: the body must be UTF-8 text.
pub open spec fn form_value(body: Seq<u8>, name: Seq<char>) -> Option<Seq<char>> {
    if valid_utf8(body) {
        first_value(form_pairs_of(decode_utf8(body)), name)
    } else {
        None
    }
}

impl Request {
    /// A request with the given method, URL and body.
    pub fn new(method: String, url: RequestUrl, body: Vec<u8>) -> (r: Self)
        ensures
            r@ == (RequestView { method: method@, url: url@, body: body@ }),
    {
        Request { method, url, body }
    }

    /// The method, as HTTP spells it.
    pub fn method(&self) -> (m: &str)
        ensures
            m@ == self@.method,
    {
        self.method.as_str()
    }

    /// The URL.
    pub fn url(&self) -> (u: &RequestUrl)
        ensures
            u@ == self@.url,
    {
        &self.url
    }

    /// The body.
    pub fn body(&self) -> (b: &[u8])
        ensures
            b@ == self@.body,
    {
        self.body.as_slice()
    }

    /// Whether the method is `POST`.
    pub fn is_post(&self) -> (b: bool)
        ensures
            b == (self@.method == "POST"@),
    {
        let post = owned("POST");
        self.method == post
    }

    /// The decoded value of the form field `name`, from a form-encoded body.
    pub fn form_field(&self, name: &str) -> (v: Option<String>)
        ensures
            (match v {
                Some(t) => Some(t@),
                None => None,
            }) == form_value(self@.body, name@),
    {
        let text = match utf8_text(self.body.as_slice()) {
            Some(t) => t,
            None => return None,
        };
        assert(valid_utf8(self@.body) && text@ == decode_utf8(self@.body));
        let pairs = form_pairs(text);
        let wanted = owned(name);
        let ghost spec_pairs = form_pairs_of(text@);
        let mut i: usize = 0;
        assert(spec_pairs.skip(0) == spec_pairs);
        while i < pairs.len()
            invariant
                i <= pairs.len() == spec_pairs.len(),
                wanted@ == name@,
                valid_utf8(self@.body),
                text@ == decode_utf8(self@.body),
                spec_pairs == form_pairs_of(text@),
                forall|j: int|
                    0 <= j < pairs.len() ==> (#[trigger] pairs@[j].0@, pairs@[j].1@)
                        == spec_pairs[j],
                first_value(spec_pairs, name@) == first_value(spec_pairs.skip(i as int), name@),
            decreases pairs.len() - i,
        {
            assert(spec_pairs.skip(i as int)[0] == spec_pairs[i as int]);
            assert(spec_pairs.skip(i as int).drop_first() == spec_pairs.skip(i + 1));
            assert((pairs@[i as int].0@, pairs@[i as int].1@) == spec_pairs[i as int]);
            if pairs[i].0 == wanted {
                assert(first_value(spec_pairs.skip(i as int), name@) == Some(
                    spec_pairs[i as int].1,
                ));
                let value = pairs[i].1.clone();
                assert(value@ == pairs@[i as int].1@);
                return Some(value);
            }
            i = i + 1;
        }
        assert(spec_pairs.skip(i as int).len() == 0);
        None
    }

    /// A `GET` request for `path_and_query` without a body.
    pub fn get(path_and_query: &str) -> (r: Self)
        ensures
            r@.method == "GET"@,
            r@.url == url_of(path_and_query@),
            r@.body.len() == 0,
    {
        Request::new(owned("GET"), RequestUrl::parse(path_and_query), Vec::new())
    }

    /// A `POST` request for `path_and_query` with `body` as its body.
    pub fn post(path_and_query: &str, body: &str) -> (r: Self)
        ensures
            r@.method == "POST"@,
            r@.url == url_of(path_and_query@),
            r@.body == vstd::utf8::encode_utf8(body@),
    {
        let bytes = vstd::slice::slice_to_vec(body.as_bytes());
        Request::new(owned("POST"), RequestUrl::parse(path_and_query), bytes)
    }
}

/// `raw` with every `+` replaced by a space, as characters.
fn plus_to_space(raw: &Vec<char>, from: usize, to: usize) -> (s: String)
    requires
        from <= to <= raw.len(),
    ensures
        s@ == plus_as_space(raw@.subrange(from as int, to as int)),
{
    let mut s = String::new();
    let mut i = from;
    while i < to
        invariant
            from <= i <= to <= raw.len(),
            s@ == plus_as_space(raw@.subrange(from as int, i as int)),
        decreases to - i,
    {
        if raw[i] == '+' {
            s.push(' ');
        } else {
            s.push(raw[i]);
        }
        assert(raw@.subrange(from as int, i + 1) == raw@.subrange(from as int, i as int).push(
            raw@[i as int],
        ));
        i = i + 1;
    }
    s
}

/// Decodes `raw[from..to]` as a form key or value.
fn decode_form(raw: &Vec<char>, from: usize, to: usize) -> (s: String)
    requires
        from <= to <= raw.len(),
    ensures
        s@ == form_decoded(raw@.subrange(from as int, to as int)),
{
    let spaced = plus_to_space(raw, from, to);
    percent_decode_lossy(spaced.as_str())
}

/// The index of the first `=` in `v`, if any.
fn find_first_eq(v: &Vec<char>) -> (i: Option<usize>)
    ensures
        match i {
            Some(k) => k < v.len() && k as int == first_index_of(v@, '='),
            None => first_index_of(v@, '=') == -1,
        },
{
    let mut k: usize = 0;
    assert(v@.skip(0) == v@);
    while k < v.len()
        invariant
            k <= v.len(),
            first_index_of(v@, '=') == (if first_index_of(v@.skip(k as int), '=') < 0 {
                -1
            } else {
                first_index_of(v@.skip(k as int), '=') + k
            }),
        decreases v.len() - k,
    {
        assert(v@.skip(k as int)[0] == v@[k as int]);
        assert(v@.skip(k as int).drop_first() == v@.skip(k + 1));
        if v[k] == '=' {
            return Some(k);
        }
        k = k + 1;
    }
    None
}

/// The decoded key and value of one form pair.
fn decode_pair(pair: &str) -> (kv: (String, String))
    ensures
        (kv.0@, kv.1@) == decoded_pair(pair@),
{
    let v = chars_of(pair);
    match find_first_eq(&v) {
        Some(k) => {
            assert(v@.subrange(0, k as int) == v@.take(k as int));
            assert(v@.subrange(k + 1, v.len() as int) == v@.skip(k + 1));
            (decode_form(&v, 0, k), decode_form(&v, k + 1, v.len()))
        },
        None => {
            assert(v@.subrange(0, v.len() as int) == v@);
            assert(v@.subrange(0, 0) == Seq::<char>::empty());
            (decode_form(&v, 0, v.len()), decode_form(&v, 0, 0))
        },
    }
}

/// The decoded pairs of a form-encoded body, in order.
fn form_pairs(body: &str) -> (pairs: Vec<(String, String)>)
    ensures
        pairs.len() == form_pairs_of(body@).len(),
        forall|j: int|
            0 <= j < pairs.len() ==> (#[trigger] pairs@[j].0@, pairs@[j].1@) == form_pairs_of(
                body@,
            )[j],
{
    let pieces = split_nonempty(body, '&');
    let ghost spec_pieces = nonempty_pieces(split_on(body@, '&'));
    let mut pairs: Vec<(String, String)> = Vec::new();
    let mut i: usize = 0;
    while i < pieces.len()
        invariant
            i <= pieces.len(),
            pieces.deep_view() == spec_pieces,
            spec_pieces == nonempty_pieces(split_on(body@, '&')),
            pairs.len() == i,
            forall|j: int|
                0 <= j < i ==> (#[trigger] pairs@[j].0@, pairs@[j].1@) == decoded_pair(
                    spec_pieces[j],
                ),
        decreases pieces.len() - i,
    {
        assert(pieces.deep_view()[i as int] == pieces@[i as int]@);
        let kv = decode_pair(pieces[i].as_str());
        pairs.push(kv);
        i = i + 1;
    }
    pairs
}

} // verus!

verus! {

/// In a form-encoded key or value only a raw `+` stands for a space: text
/// without a raw `+` decodes exactly as its percent escapes say (so `%2B`
/// gives a `+`), and text without `%` is read as sent with each `+` a space.
pub proof fn lemma_only_raw_plus_is_a_space(raw: Seq<char>)
    ensures
        !raw.contains('+') ==> form_decoded(raw) == percent_decode_text(raw),
        !raw.contains('%') ==> form_decoded(raw).len() == raw.len() && forall|i: int|
            0 <= i < raw.len() ==> #[trigger] form_decoded(raw)[i] == (if raw[i] == '+' {
                ' '
            } else {
                raw[i]
            }),
{
    let spaced = plus_as_space(raw);
    if !raw.contains('+') {
        assert forall|i: int| 0 <= i < raw.len() implies spaced[i] == raw[i] by {
            if raw[i] == '+' {
                assert(raw.contains('+'));
            }
        }
        assert(spaced == raw);
    }
    if !raw.contains('%') {
        assert forall|i: int| 0 <= i < spaced.len() implies #[trigger] spaced[i] != '%' by {
            if raw[i] == '%' {
                assert(raw.contains('%'));
            }
        }
        crate::decoding::lemma_decode_text_without_percent(spaced);
    }
}

} // verus!
