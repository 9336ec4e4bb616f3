//! Building blocks of the decoys' text.

use vstd::prelude::*;

use super::random::pick;
use crate::domain::request_url::{lemma_segments_of_file_in, path_segments};

verus! {

/// `s` is one of the names in `names`.
pub open spec fn listed(names: Seq<&'static str>, s: Seq<char>) -> bool {
    exists|i: int| 0 <= i < names.len() && names[i]@ == s
}

/// A name drawn at random from `names`.
pub fn pick_name(names: &[&'static str]) -> (n: &'static str)
    requires
        names@.len() > 0,
    ensures
        listed(names@, n@),
{
    let n = *pick(names);
    proof {
        let i = choose|i: int| 0 <= i < names@.len() && names@[i] == n;
        assert(names@[i]@ == n@);
    }
    n
}

/// The segments of a path end with `first` then `second`.
pub open spec fn ends_with_pair(segs: Seq<Seq<char>>, first: Seq<char>, second: Seq<char>) -> bool {
    segs.len() >= 2 && segs[segs.len() - 2] == first && segs[segs.len() - 1] == second
}

/// Whether the segments end with `first` then `second`.
pub fn segments_end_with(segs: &Vec<String>, first: &str, second: &str) -> (b: bool)
    ensures
        b == ends_with_pair(segs.deep_view(), first@, second@),
{
    let n = segs.len();
    if n < 2 {
        return false;
    }
    assert(segs.deep_view()[n - 2] == segs@[n - 2]@);
    assert(segs.deep_view()[n - 1] == segs@[n - 1]@);
    let a = crate::text::owned(first);
    let b = crate::text::owned(second);
    segs[n - 2] == a && segs[n - 1] == b
}

/// The HTML escape of one character: `& < > " '` are written as entities.
pub open spec fn escaped_char(c: char) -> Seq<char> {
    if c == '&' {
        "&amp;"@
    } else if c == '<' {
        "&lt;"@
    } else if c == '>' {
        "&gt;"@
    } else if c == '"' {
        "&quot;"@
    } else if c == '\'' {
        "&#x27;"@
    } else {
        seq![c]
    }
}

/// `s` escaped for HTML text and attribute values.
pub open spec fn html_escaped(s: Seq<char>) -> Seq<char>
    decreases s.len(),
{
    if s.len() == 0 {
        s
    } else {
        html_escaped(s.drop_last()) + escaped_char(s.last())
    }
}

/// Appends `text` escaped for HTML.
pub fn push_escaped(out: &mut String, text: &str)
    ensures
        final(out)@ == old(out)@ + html_escaped(text@),
{
    let v = crate::text::chars_of(text);
    let mut i: usize = 0;
    while i < v.len()
        invariant
            i <= v.len(),
            v@ == text@,
            out@ == old(out)@ + html_escaped(v@.take(i as int)),
        decreases v.len() - i,
    {
        let c = v[i];
        let ghost before = out@;
        if c == '&' {
            out.append("&amp;");
        } else if c == '<' {
            out.append("&lt;");
        } else if c == '>' {
            out.append("&gt;");
        } else if c == '"' {
            out.append("&quot;");
        } else if c == '\'' {
            out.append("&#x27;");
        } else {
            out.push(c);
        }
        assert(out@ == before + escaped_char(c));
        assert(v@.take(i + 1).drop_last() == v@.take(i as int));
        i = i + 1;
    }
    assert(v@.take(v.len() as int) == v@);
}

/// Escaped text holds none of `< > "`: whatever a client sent cannot open or
/// close a tag or an attribute.
pub proof fn lemma_escaped_has_no_markup(s: Seq<char>)
    ensures
        forall|i: int|
            0 <= i < html_escaped(s).len() ==> #[trigger] html_escaped(s)[i] != '<'
                && html_escaped(s)[i] != '>' && html_escaped(s)[i] != '"',
    decreases s.len(),
{
    reveal_strlit("&amp;");
    reveal_strlit("&lt;");
    reveal_strlit("&gt;");
    reveal_strlit("&quot;");
    reveal_strlit("&#x27;");
    if s.len() > 0 {
        lemma_escaped_has_no_markup(s.drop_last());
        let a = html_escaped(s.drop_last());
        let b = escaped_char(s.last());
        assert forall|i: int| 0 <= i < (a + b).len() implies #[trigger] (a + b)[i] != '<' && (a
            + b)[i] != '>' && (a + b)[i] != '"' by {
            if i >= a.len() {
                assert((a + b)[i] == b[i - a.len()]);
            } else {
                assert((a + b)[i] == a[i]);
            }
        }
    }
}

/// Two names below any directory end the path's segments: `dir/first/second`
/// is recognised as `first` then `second` wherever `dir` is.
pub proof fn lemma_pair_in_any_directory(dir: Seq<char>, first: Seq<char>, second: Seq<char>)
    requires
        first.len() > 0,
        !first.contains('/'),
        second.len() > 0,
        !second.contains('/'),
    ensures
        ends_with_pair(
            path_segments(dir + seq!['/'] + first + seq!['/'] + second),
            first,
            second,
        ),
{
    lemma_segments_of_file_in(dir, first);
    lemma_segments_of_file_in(dir + seq!['/'] + first, second);
}

} // verus!
