//! The path and query of a request, decoded the way the traps compare them.

use vstd::prelude::*;

use crate::decoding::{percent_decode_lossy, percent_decode_text};
use crate::text::{
    find_last_dot, last_dot,
    chars_of, contains_chars, contains_seq, lemma_without_controls_keeps_clean, lowercase,
    lowercase_chars, nonempty_pieces, split_nonempty, split_on, string_of_range, strip_controls,
    without_controls,
};

verus! {

/// Scanners hide the interesting part of a path behind percent encoding,
/// sometimes applied more than once. Decoding is repeated until it stops
/// changing anything, at most this many times, so that `/%2561uth.json`
/// reaches the same trap as `/auth.json`.
pub const MAX_DECODE_PASSES: usize = 3;

/// Up to `passes` decoding passes over `s`, stopping at the first pass that
/// changes nothing.
pub open spec fn decode_passes(s: Seq<char>, passes: nat) -> Seq<char>
    decreases passes,
{
    if passes == 0 {
        s
    } else if percent_decode_text(s) == s {
        s
    } else {
        decode_passes(percent_decode_text(s), (passes - 1) as nat)
    }
}

/// The form in which a raw path or query is matched: percent decoded until it
/// settles (at most `MAX_DECODE_PASSES` times), then stripped of control
/// characters, so that null byte tricks like `/%00.env.swp` read `/.env.swp`.
pub open spec fn normalized(raw: Seq<char>) -> Seq<char> {
    without_controls(decode_passes(raw, MAX_DECODE_PASSES as nat))
}

/// The segments of a path: its non-empty pieces between slashes.
pub open spec fn path_segments(path: Seq<char>) -> Seq<Seq<char>> {
    nonempty_pieces(split_on(path, '/'))
}

/// The last segment of a path, if it has any.
pub open spec fn last_segment(path: Seq<char>) -> Option<Seq<char>> {
    let segs = path_segments(path);
    if segs.len() == 0 {
        None
    } else {
        Some(segs.last())
    }
}

/// The extension of a file name, as `std::path::Path::extension` reads it:
/// what follows the last `.`, provided something precedes that `.`; the name
/// `..` has none.
pub open spec fn extension_of(name: Seq<char>) -> Option<Seq<char>> {
    if name == seq!['.', '.'] || last_dot(name) <= 0 {
        None
    } else {
        Some(name.skip(last_dot(name) + 1))
    }
}

/// The query holds `needle`, letters compared without case.
pub open spec fn mentions(query: Option<Seq<char>>, needle: Seq<char>) -> bool {
    query matches Some(q) && contains_seq(lowercase(q), lowercase(needle))
}

/// The components of a URI as `http::Uri` splits it: the path, and the query
/// if there is one.
pub struct UriParts {
    pub path: String,
    pub query: Option<String>,
}

/// The text of an optional string.
pub open spec fn opt_text(s: Option<String>) -> Option<Seq<char>> {
    match s {
        Some(t) => Some(t@),
        None => None,
    }
}

/// What `http::Uri` makes of a text: its path and query, or nothing where the
/// text is no valid URI.
pub uninterp spec fn parsed_uri(text: Seq<char>) -> Option<(Seq<char>, Option<Seq<char>>)>;

/// Parses a text as an `http::Uri` and hands back its path and query.
#[verifier::external_body]
fn parse_uri(text: &str) -> (parts: Option<UriParts>)
    ensures
        parts is Some <==> parsed_uri(text@) is Some,
        parts matches Some(p) ==> parsed_uri(text@) == Some((p.path@, opt_text(p.query))),
{
    match text.parse::<http::Uri>() {
        Ok(uri) => {
            let query = match uri.query() {
                Some(q) => Some(q.to_string()),
                None => None,
            };
            Some(UriParts { path: uri.path().to_string(), query })
        },
        Err(_) => None,
    }
}

/// The path and query of a request, each normalized.
#[derive(Clone)]
pub struct RequestUrl {
    path: String,
    query: Option<String>,
}

/// The abstract value of a `RequestUrl`.
pub struct UrlView {
    pub path: Seq<char>,
    pub query: Option<Seq<char>>,
}

impl View for RequestUrl {
    type V = UrlView;

    closed spec fn view(&self) -> UrlView {
        UrlView { path: self.path@, query: opt_text(self.query) }
    }
}

/// A normalized optional query.
pub open spec fn normalized_query(query: Option<Seq<char>>) -> Option<Seq<char>> {
    match query {
        Some(q) => Some(normalized(q)),
        None => None,
    }
}

/// The request URL that a path with an optional query stands for: its URI
/// components normalized, or the root path where the text is no valid URI.
pub open spec fn url_of(text: Seq<char>) -> UrlView {
    match parsed_uri(text) {
        Some(parts) => UrlView { path: normalized(parts.0), query: normalized_query(parts.1) },
        None => UrlView { path: seq!['/'], query: None },
    }
}

/// Percent decodes (until the text settles) and then drops control characters.
fn normalize(raw: &str) -> (r: String)
    ensures
        r@ == normalized(raw@),
{
    let mut current = raw.to_owned();
    let mut pass: usize = 0;
    let mut settled = false;
    while pass < MAX_DECODE_PASSES && !settled
        invariant
            pass <= MAX_DECODE_PASSES,
            settled ==> decode_passes(raw@, MAX_DECODE_PASSES as nat) == current@,
            !settled ==> decode_passes(raw@, MAX_DECODE_PASSES as nat) == decode_passes(
                current@,
                (MAX_DECODE_PASSES - pass) as nat,
            ),
        decreases MAX_DECODE_PASSES - pass + (if settled { 0int } else { 1int }),
    {
        let decoded = percent_decode_lossy(current.as_str());
        if decoded == current {
            settled = true;
        } else {
            current = decoded;
            pass = pass + 1;
        }
    }
    strip_controls(current.as_str())
}

impl RequestUrl {
    /// The request URL of a URI's components, each normalized.
    pub fn from_uri(uri: &UriParts) -> (url: Self)
        ensures
            url@ == (UrlView { path: normalized(uri.path@), query: normalized_query(opt_text(uri.query)) }),
    {
        let query = match &uri.query {
            Some(q) => Some(normalize(q.as_str())),
            None => None,
        };
        RequestUrl { path: normalize(uri.path.as_str()), query }
    }

    /// Parses a path with an optional query. Text that is no valid URI is
    /// taken for the root path `/`.
    pub fn parse(path_and_query: &str) -> (url: Self)
        ensures
            url@ == url_of(path_and_query@),
    {
        match parse_uri(path_and_query) {
            Some(parts) => RequestUrl::from_uri(&parts),
            None => {
                let mut root = String::new();
                root.push('/');
                proof {
                    lemma_without_controls_keeps_clean(seq!['/']);
                    crate::decoding::lemma_decode_text_without_percent(seq!['/']);
                }
                let url = RequestUrl::from_uri(&UriParts { path: root, query: None });
                url
            },
        }
    }

    /// The normalized path.
    pub fn path(&self) -> (p: &str)
        ensures
            p@ == self@.path,
    {
        self.path.as_str()
    }

    /// The non-empty segments of the path, in order.
    pub fn segments(&self) -> (segs: Vec<String>)
        ensures
            segs.deep_view() == path_segments(self@.path),
    {
        split_nonempty(self.path.as_str(), '/')
    }

    /// The last segment of the path, if any.
    pub fn file_name(&self) -> (name: Option<String>)
        ensures
            opt_text(name) == last_segment(self@.path),
    {
        let segs = self.segments();
        let n = segs.len();
        if n == 0 {
            None
        } else {
            assert(segs.deep_view()[n - 1] == segs@[n - 1]@);
            Some(segs[n - 1].clone())
        }
    }

    /// The extension of the file name, as `std::path::Path` reads it.
    pub fn extension(&self) -> (ext: Option<String>)
        ensures
            opt_text(ext) == (match last_segment(self@.path) {
                Some(name) => extension_of(name),
                None => None,
            }),
    {
        match self.file_name() {
            Some(name) => {
                let v = chars_of(name.as_str());
                extension_chars(&v)
            },
            None => None,
        }
    }

    /// The normalized query, if the request has one.
    pub fn query(&self) -> (q: Option<&str>)
        ensures
            (match q {
                Some(t) => Some(t@),
                None => None,
            }) == self@.query,
    {
        match &self.query {
            Some(t) => Some(t.as_str()),
            None => None,
        }
    }

    /// Whether the query holds `needle`, letters compared without case.
    pub fn query_mentions(&self, needle: &str) -> (b: bool)
        ensures
            b == mentions(self@.query, needle@),
    {
        let needle = lowercase_chars(needle);
        match &self.query {
            Some(q) => {
                let hay = lowercase_chars(q.as_str());
                contains_chars(&hay, &needle)
            },
            None => false,
        }
    }
}

/// The extension of a file name given as characters.
fn extension_chars(name: &Vec<char>) -> (ext: Option<String>)
    ensures
        opt_text(ext) == extension_of(name@),
{
    if name.len() == 2 && name[0] == '.' && name[1] == '.' {
        assert(name@ == seq!['.', '.']);
        return None;
    }
    match find_last_dot(name) {
        Some(k) => {
            if k == 0 {
                None
            } else {
                Some(string_of_range(name, k + 1, name.len()))
            }
        },
        None => None,
    }
}

} // verus!

verus! {

/// Normalization leaves no control character in a path or query, whatever
/// the client sent.
pub proof fn lemma_normalized_has_no_controls(raw: Seq<char>)
    ensures
        forall|i: int|
            0 <= i < normalized(raw).len() ==> !crate::text::is_control(#[trigger] normalized(raw)[i]),
{
    crate::text::lemma_without_controls_has_none(decode_passes(raw, MAX_DECODE_PASSES as nat));
}

/// A path with nothing to decode and no control character is matched as it
/// was sent.
pub proof fn lemma_plain_text_is_kept(raw: Seq<char>)
    requires
        forall|i: int| 0 <= i < raw.len() ==> #[trigger] raw[i] != '%',
        forall|i: int| 0 <= i < raw.len() ==> !crate::text::is_control(#[trigger] raw[i]),
    ensures
        normalized(raw) == raw,
{
    crate::decoding::lemma_decode_text_without_percent(raw);
    assert(decode_passes(raw, MAX_DECODE_PASSES as nat) == raw);
    lemma_without_controls_keeps_clean(raw);
}

/// Decoding stops at a fixed point: text that a pass leaves unchanged is
/// left unchanged by any number of passes.
pub proof fn lemma_settled_text_stays(s: Seq<char>, passes: nat)
    requires
        percent_decode_text(s) == s,
    ensures
        decode_passes(s, passes) == s,
{
}

/// Every segment of a path is non-empty and holds no `/`.
pub proof fn lemma_segments_are_names(path: Seq<char>)
    ensures
        forall|k: int|
            0 <= k < path_segments(path).len() ==> (#[trigger] path_segments(path)[k]).len() > 0
                && !path_segments(path)[k].contains('/'),
{
    lemma_split_pieces_have_no_sep(path, '/');
    lemma_nonempty_pieces_keep(split_on(path, '/'));
}

proof fn lemma_split_pieces_have_no_sep(s: Seq<char>, sep: char)
    ensures
        forall|k: int|
            0 <= k < split_on(s, sep).len() ==> !(#[trigger] split_on(s, sep)[k]).contains(sep),
    decreases s.len(),
{
    if s.len() > 0 {
        lemma_split_pieces_have_no_sep(s.drop_last(), sep);
        crate::text::lemma_split_on_nonempty(s.drop_last(), sep);
        let init = split_on(s.drop_last(), sep);
        if s.last() != sep {
            let grown = init.last().push(s.last());
            assert(!init.last().contains(sep));
            assert forall|j: int| 0 <= j < grown.len() implies grown[j] != sep by {
                if j < init.last().len() {
                    assert(grown[j] == init.last()[j]);
                }
            }
            assert(!grown.contains(sep));
        } else {
            assert(!Seq::<char>::empty().contains(sep));
        }
    }
}

proof fn lemma_nonempty_pieces_keep(xs: Seq<Seq<char>>)
    ensures
        forall|k: int|
            0 <= k < nonempty_pieces(xs).len() ==> (#[trigger] nonempty_pieces(xs)[k]).len() > 0
                && exists|j: int| 0 <= j < xs.len() && xs[j] == nonempty_pieces(xs)[k],
    decreases xs.len(),
{
    if xs.len() > 0 {
        lemma_nonempty_pieces_keep(xs.drop_last());
        let r = nonempty_pieces(xs.drop_last());
        assert forall|k: int| 0 <= k < nonempty_pieces(xs).len() implies (
        #[trigger] nonempty_pieces(xs)[k]).len() > 0 && exists|j: int|
            0 <= j < xs.len() && xs[j] == nonempty_pieces(xs)[k] by {
            if k < r.len() {
                assert(nonempty_pieces(xs)[k] == r[k]);
                let j = choose|j: int| 0 <= j < xs.drop_last().len() && xs.drop_last()[j] == r[k];
                assert(xs[j] == r[k]);
            } else {
                assert(xs[xs.len() - 1] == nonempty_pieces(xs)[k]);
            }
        }
    }
}

/// Queries are compared without regard to the case of ASCII letters: a
/// needle matches exactly when its lower-case form does.
pub proof fn lemma_mentions_ignores_case(query: Option<Seq<char>>, needle: Seq<char>)
    ensures
        mentions(query, needle) == mentions(query, lowercase(needle)),
{
    crate::text::lemma_lowercase_idempotent(needle);
}

} // verus!

verus! {

/// A file in a directory is the last segment of its path, whatever the
/// directory: `dir/name` has the segments of `dir`, then `name`.
pub proof fn lemma_segments_of_file_in(dir: Seq<char>, name: Seq<char>)
    requires
        name.len() > 0,
        !name.contains('/'),
    ensures
        path_segments(dir + seq!['/'] + name) == path_segments(dir).push(name),
        last_segment(dir + seq!['/'] + name) == Some(name),
{
    crate::text::lemma_split_on_join(dir, name, '/');
    crate::text::lemma_split_on_whole(name, '/');
    crate::text::lemma_nonempty_pieces_join(split_on(dir, '/'), seq![name]);
    let one = seq![name];
    let none = Seq::<Seq<char>>::empty();
    assert(one.drop_last() == none);
    assert(one.last() == name);
    assert(nonempty_pieces(none) == none);
    assert(none.push(name) == one);
    assert(nonempty_pieces(one) == one);
    assert(path_segments(dir).push(name) == path_segments(dir) + seq![name]);
}

} // verus!

verus! {

/// Normalization drops every character of the Unicode category Cc: no
/// character from U+0000 to U+001F (tab, newline and carriage return among
/// them) or from U+007F to U+009F is left in a normalized path or query.
pub proof fn lemma_normalized_drops_category_cc(raw: Seq<char>)
    ensures
        forall|i: int|
            0 <= i < normalized(raw).len() ==> {
                let c = #[trigger] normalized(raw)[i];
                !(c <= '\u{1f}' || ('\u{7f}' <= c && c <= '\u{9f}'))
            },
{
    lemma_normalized_has_no_controls(raw);
}

} // verus!
