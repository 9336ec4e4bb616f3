//! Percent decoding and UTF-8 decoding, the two steps that turn what a client
//! sent into the text the traps match on.

use vstd::prelude::*;
use vstd::utf8::*;

verus! {

/// The value of an ASCII hexadecimal digit (`0-9`, `a-f`, `A-F`), or -1.
pub open spec fn hex_value(b: u8) -> int {
    if 0x30 <= b <= 0x39 {
        b - 0x30
    } else if 0x61 <= b <= 0x66 {
        b - 0x61 + 10
    } else if 0x41 <= b <= 0x46 {
        b - 0x41 + 10
    } else {
        -1
    }
}

/// Percent decoding of a byte string: `%` followed by two hexadecimal digits
/// stands for the byte they spell; every other byte, a `%` without two digits
/// after it included, stands for itself.
pub open spec fn percent_decoded(s: Seq<u8>) -> Seq<u8>
    decreases s.len(),
{
    if s.len() == 0 {
        s
    } else if s[0] == 0x25 && s.len() >= 3 && hex_value(s[1]) >= 0 && hex_value(s[2]) >= 0 {
        seq![(hex_value(s[1]) * 16 + hex_value(s[2])) as u8] + percent_decoded(s.skip(3))
    } else {
        seq![s[0]] + percent_decoded(s.skip(1))
    }
}

/// What `String::from_utf8_lossy` makes of a byte string that is not valid
/// UTF-8: its decoding with U+FFFD in place of each invalid sequence.
pub uninterp spec fn utf8_lossy(bytes: Seq<u8>) -> Seq<char>;

/// The text a byte string is read as: its UTF-8 decoding where it is valid,
/// else the lossy decoding.
pub open spec fn lossy_decoding(bytes: Seq<u8>) -> Seq<char> {
    if valid_utf8(bytes) {
        decode_utf8(bytes)
    } else {
        utf8_lossy(bytes)
    }
}

/// `percent_encoding::percent_decode_str`, collected into bytes. The crate's
/// iterator turns `%` and two hexadecimal digits into the byte they spell and
/// yields every other byte of the UTF-8 encoding of `raw` unchanged; that is
/// `percent_decoded`.
#[verifier::external_body]
fn percent_decode_bytes(raw: &str) -> (bytes: Vec<u8>)
    ensures
        bytes@ == percent_decoded(encode_utf8(raw@)),
{
    percent_encoding::percent_decode_str(raw).collect()
}

/// `String::from_utf8_lossy`, made owned. On valid UTF-8 the documentation
/// says it returns the decoded text unchanged; on other input its result is
/// named `utf8_lossy`, and nothing more is said of it.
#[verifier::external_body]
fn utf8_lossy_string(bytes: &[u8]) -> (s: String)
    ensures
        valid_utf8(bytes@) ==> s@ == decode_utf8(bytes@),
        !valid_utf8(bytes@) ==> s@ == utf8_lossy(bytes@),
{
    String::from_utf8_lossy(bytes).into_owned()
}

/// `std::str::from_utf8`: the text that valid UTF-8 bytes encode, or nothing.
#[verifier::external_body]
pub(crate) fn utf8_text(bytes: &[u8]) -> (s: Option<&str>)
    ensures
        s is Some <==> valid_utf8(bytes@),
        s matches Some(t) ==> t@ == decode_utf8(bytes@),
{
    std::str::from_utf8(bytes).ok()
}

/// One pass of percent decoding over text: decode the escapes in its UTF-8
/// bytes, then read the bytes back as UTF-8, lossily.
pub open spec fn percent_decode_text(s: Seq<char>) -> Seq<char> {
    lossy_decoding(percent_decoded(encode_utf8(s)))
}

/// Percent decodes `raw` once and reads the result as UTF-8, replacing
/// invalid sequences.
pub fn percent_decode_lossy(raw: &str) -> (s: String)
    ensures
        s@ == percent_decode_text(raw@),
{
    let bytes = percent_decode_bytes(raw);
    utf8_lossy_string(bytes.as_slice())
}

/// Bytes without `%` decode to themselves.
pub proof fn lemma_percent_decoded_without_percent(s: Seq<u8>)
    requires
        forall|i: int| 0 <= i < s.len() ==> #[trigger] s[i] != 0x25,
    ensures
        percent_decoded(s) == s,
    decreases s.len(),
{
    if s.len() > 0 {
        assert(forall|i: int| 0 <= i < s.skip(1).len() ==> s.skip(1)[i] == s[i + 1]);
        lemma_percent_decoded_without_percent(s.skip(1));
        assert(seq![s[0]] + s.skip(1) == s);
    }
}

proof fn lemma_scalar_bytes_not_percent(c: u32)
    by (bit_vector)
    requires
        c != 0x25,
    ensures
        has_width_1_encoding(c) ==> leading_byte_width_1(c) != 0x25,
        leading_byte_width_2(c) != 0x25,
        leading_byte_width_3(c) != 0x25,
        leading_byte_width_4(c) != 0x25,
        last_continuation_byte(c) != 0x25,
        second_last_continuation_byte(c) != 0x25,
        third_last_continuation_byte(c) != 0x25,
{
}

/// The UTF-8 encoding of text without `%` holds no `%` byte.
pub proof fn lemma_encoding_without_percent(s: Seq<char>)
    requires
        forall|i: int| 0 <= i < s.len() ==> #[trigger] s[i] != '%',
    ensures
        forall|i: int| 0 <= i < encode_utf8(s).len() ==> #[trigger] encode_utf8(s)[i] != 0x25,
    decreases s.len(),
{
    if s.len() > 0 {
        let c = s[0] as u32;
        assert(s[0] != '%');
        assert(c != 0x25) by {
            if c == 0x25 {
                char_u32_cast(s[0], c);
            }
        }
        lemma_scalar_bytes_not_percent(c);
        let rest = s.drop_first();
        assert(forall|i: int| 0 <= i < rest.len() ==> rest[i] == s[i + 1]);
        lemma_encoding_without_percent(rest);
        let head = encode_scalar(c);
        assert(forall|i: int| 0 <= i < head.len() ==> #[trigger] head[i] != 0x25);
        assert(encode_utf8(s) == head + encode_utf8(rest));
        assert forall|i: int| 0 <= i < encode_utf8(s).len() implies #[trigger] encode_utf8(s)[i]
            != 0x25 by {
            if i < head.len() {
                assert(encode_utf8(s)[i] == head[i]);
            } else {
                assert(encode_utf8(s)[i] == encode_utf8(rest)[i - head.len()]);
            }
        }
    }
}

/// Text without `%` is left unchanged by a decoding pass.
pub proof fn lemma_decode_text_without_percent(s: Seq<char>)
    requires
        forall|i: int| 0 <= i < s.len() ==> #[trigger] s[i] != '%',
    ensures
        percent_decode_text(s) == s,
{
    lemma_encoding_without_percent(s);
    lemma_percent_decoded_without_percent(encode_utf8(s));
    encode_utf8_valid_utf8(s);
    encode_utf8_decode_utf8(s);
}

} // verus!
