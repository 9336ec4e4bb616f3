//! The alphabets that decoy secrets are drawn from, and decimal numbers.

use vstd::prelude::*;

use super::random::{is_ascii_alnum, random_alphanumeric, random_between};

verus! {

/// The alphabets of generated secrets.
#[derive(Clone, Copy, PartialEq, Eq, Structural)]
pub enum Alphabet {
    /// `A-Z a-z 0-9 + /`
    Base64,
    /// `A-Z 2-7`, the alphabet of AWS key ids.
    Base32,
    /// `0-9 a-f`
    Hex,
    /// `A-Z a-z 0-9`
    Alphanumeric,
}

/// The number of characters in a drawn-from-table alphabet.
pub open spec fn table_size(a: Alphabet) -> nat {
    match a {
        Alphabet::Base64 => 64,
        Alphabet::Base32 => 32,
        Alphabet::Hex => 16,
        Alphabet::Alphanumeric => 62,
    }
}

/// The `k`-th character of an alphabet's table.
pub open spec fn table_char(a: Alphabet, k: int) -> char {
    match a {
        Alphabet::Base64 => if k < 26 {
            (('A' as u8) + k) as char
        } else if k < 52 {
            (('a' as u8) + (k - 26)) as char
        } else if k < 62 {
            (('0' as u8) + (k - 52)) as char
        } else if k == 62 {
            '+'
        } else {
            '/'
        },
        Alphabet::Base32 => if k < 26 {
            (('A' as u8) + k) as char
        } else {
            (('2' as u8) + (k - 26)) as char
        },
        Alphabet::Hex => if k < 10 {
            (('0' as u8) + k) as char
        } else {
            (('a' as u8) + (k - 10)) as char
        },
        Alphabet::Alphanumeric => if k < 26 {
            (('A' as u8) + k) as char
        } else if k < 52 {
            (('a' as u8) + (k - 26)) as char
        } else {
            (('0' as u8) + (k - 52)) as char
        },
    }
}

/// Whether a character belongs to an alphabet.
pub open spec fn in_alphabet(a: Alphabet, c: char) -> bool {
    match a {
        Alphabet::Base64 => is_ascii_alnum(c) || c == '+' || c == '/',
        Alphabet::Base32 => ('A' <= c && c <= 'Z') || ('2' <= c && c <= '7'),
        Alphabet::Hex => ('0' <= c && c <= '9') || ('a' <= c && c <= 'f'),
        Alphabet::Alphanumeric => is_ascii_alnum(c),
    }
}

/// Every character of `s` belongs to the alphabet.
pub open spec fn all_in(a: Alphabet, s: Seq<char>) -> bool {
    forall|i: int| 0 <= i < s.len() ==> in_alphabet(a, #[trigger] s[i])
}

/// The `k`-th character of an alphabet's table.
fn table_char_exec(a: Alphabet, k: u64) -> (c: char)
    requires
        k < table_size(a),
    ensures
        c == table_char(a, k as int),
        in_alphabet(a, c),
{
    let k8: u8 = k as u8;
    match a {
        Alphabet::Base64 => if k8 < 26 {
            (65u8 + k8) as char
        } else if k8 < 52 {
            (97u8 + (k8 - 26)) as char
        } else if k8 < 62 {
            (48u8 + (k8 - 52)) as char
        } else if k8 == 62 {
            '+'
        } else {
            '/'
        },
        Alphabet::Base32 => if k8 < 26 {
            (65u8 + k8) as char
        } else {
            (50u8 + (k8 - 26)) as char
        },
        Alphabet::Hex => if k8 < 10 {
            (48u8 + k8) as char
        } else {
            (97u8 + (k8 - 10)) as char
        },
        Alphabet::Alphanumeric => if k8 < 26 {
            (65u8 + k8) as char
        } else if k8 < 52 {
            (97u8 + (k8 - 26)) as char
        } else {
            (48u8 + (k8 - 52)) as char
        },
    }
}

/// A random character of the alphabet: drawn from its table, or for
/// `Alphanumeric` sampled from `rand`'s distribution of that name.
fn random_char(a: Alphabet) -> (c: char)
    ensures
        in_alphabet(a, c),
{
    match a {
        Alphabet::Alphanumeric => random_alphanumeric(),
        _ => {
            let k = random_between(0, (table_size_exec(a) - 1) as u64);
            table_char_exec(a, k)
        },
    }
}

fn table_size_exec(a: Alphabet) -> (n: usize)
    ensures
        n == table_size(a),
{
    match a {
        Alphabet::Base64 => 64,
        Alphabet::Base32 => 32,
        Alphabet::Hex => 16,
        Alphabet::Alphanumeric => 62,
    }
}

/// Appends `len` random characters of the alphabet.
pub fn push_random(s: &mut String, a: Alphabet, len: usize)
    ensures
        final(s)@.len() == old(s)@.len() + len,
        final(s)@.take(old(s)@.len() as int) == old(s)@,
        all_in(a, final(s)@.skip(old(s)@.len() as int)),
{
    let ghost start = s@.len();
    let mut i: usize = 0;
    while i < len
        invariant
            i <= len,
            s@.len() == old(s)@.len() + i,
            s@.take(old(s)@.len() as int) == old(s)@,
            all_in(a, s@.skip(old(s)@.len() as int)),
        decreases len - i,
    {
        let c = random_char(a);
        let ghost before = s@;
        s.push(c);
        assert(s@.take(old(s)@.len() as int) == before.take(old(s)@.len() as int));
        assert(s@.skip(old(s)@.len() as int) == before.skip(old(s)@.len() as int).push(c));
        i = i + 1;
    }
}

/// `len` random characters of the alphabet.
pub fn random_text(a: Alphabet, len: usize) -> (s: String)
    ensures
        s@.len() == len,
        all_in(a, s@),
{
    let mut s = String::new();
    push_random(&mut s, a, len);
    assert(s@.skip(0) == s@);
    s
}

/// The decimal digit for `d < 10`.
pub open spec fn digit_char(d: int) -> char {
    (('0' as u8) + d) as char
}

/// The decimal numeral of `n`, without leading zeros.
pub open spec fn decimal(n: nat) -> Seq<char>
    decreases n,
{
    if n < 10 {
        seq![digit_char(n as int)]
    } else {
        decimal(n / 10).push(digit_char((n % 10) as int))
    }
}

/// Appends the decimal numeral of `n`.
pub fn push_decimal(s: &mut String, n: u64)
    ensures
        final(s)@ == old(s)@ + decimal(n as nat),
    decreases n,
{
    if n >= 10 {
        push_decimal(s, n / 10);
    }
    let d: u8 = (n % 10) as u8;
    s.push((48u8 + d) as char);
    proof {
        if n < 10 {
            assert(old(s)@ + decimal(n as nat) == old(s)@.push(digit_char(n as int)));
        } else {
            assert(decimal(n as nat) == decimal((n / 10) as nat).push(digit_char((n % 10) as int)));
        }
    }
}

/// Every character of a numeral is a digit.
pub proof fn lemma_decimal_digits(n: nat)
    ensures
        forall|i: int|
            0 <= i < decimal(n).len() ==> '0' <= #[trigger] decimal(n)[i] && decimal(n)[i] <= '9',
    decreases n,
{
    if n >= 10 {
        lemma_decimal_digits(n / 10);
        assert forall|i: int| 0 <= i < decimal(n).len() implies '0' <= #[trigger] decimal(n)[i]
            && decimal(n)[i] <= '9' by {
            if i < decimal(n / 10).len() {
                assert(decimal(n)[i] == decimal(n / 10)[i]);
            }
        }
    }
}

/// A number with `k` digits has a numeral of length `k`.
pub proof fn lemma_decimal_length(n: nat, k: nat)
    requires
        k >= 1,
        vstd::arithmetic::power::pow(10, (k - 1) as nat) <= n < vstd::arithmetic::power::pow(10, k),
    ensures
        decimal(n).len() == k,
    decreases k,
{
    vstd::arithmetic::power::lemma_pow_positive(10, (k - 1) as nat);
    if k == 1 {
        vstd::arithmetic::power::lemma_pow1(10);
        vstd::arithmetic::power::lemma_pow0(10);
    } else {
        let k1 = (k - 1) as nat;
        vstd::arithmetic::power::lemma_pow_adds(10, (k1 - 1) as nat, 1);
        vstd::arithmetic::power::lemma_pow_adds(10, k1, 1);
        vstd::arithmetic::power::lemma_pow1(10);
        let p = vstd::arithmetic::power::pow(10, (k1 - 1) as nat);
        assert(p * 10 <= n < p * 100);
        assert(p <= n / 10 < p * 10) by (nonlinear_arith)
            requires
                p * 10 <= n < p * 100,
                p > 0,
        ;
        assert(n >= 10) by (nonlinear_arith)
            requires
                p * 10 <= n,
                p > 0,
        ;
        lemma_decimal_length(n / 10, k1);
    }
}

} // verus!

verus! {

/// The length of `n` characters padded to a multiple of four.
pub open spec fn padded_len(n: nat) -> nat {
    if n % 4 == 0 {
        n
    } else {
        (n + 4 - n % 4) as nat
    }
}

/// Base64 text of `n` characters, padded with `=` to a multiple of four.
pub open spec fn padded_base64(s: Seq<char>, n: nat) -> bool {
    &&& s.len() == padded_len(n)
    &&& all_in(Alphabet::Base64, s.take(n as int))
    &&& forall|i: int| n <= i < s.len() ==> #[trigger] s[i] == '='
}

/// `n` random base64 characters, padded with `=` to a multiple of four.
pub fn random_padded_base64(n: usize) -> (s: String)
    requires
        n < usize::MAX - 4,
    ensures
        padded_base64(s@, n as nat),
{
    let mut s = random_text(Alphabet::Base64, n);
    let mut len = n;
    assert(s@.take(n as int) == s@);
    while len % 4 != 0
        invariant
            n <= len <= padded_len(n as nat),
            n < usize::MAX - 4,
            s@.len() == len,
            all_in(Alphabet::Base64, s@.take(n as int)),
            forall|i: int| n <= i < s@.len() ==> #[trigger] s@[i] == '=',
            len % 4 != 0 ==> len < padded_len(n as nat),
            len % 4 == 0 ==> len == padded_len(n as nat),
        decreases padded_len(n as nat) - len,
    {
        let ghost before = s@;
        s.push('=');
        assert(s@.take(n as int) == before.take(n as int));
        len = len + 1;
    }
    s
}

} // verus!

verus! {

/// Padding brings base64 text to a multiple of four characters, adding fewer
/// than four.
pub proof fn lemma_padding_completes_quads(n: nat)
    ensures
        padded_len(n) % 4 == 0,
        n <= padded_len(n) < n + 4,
{
}

/// The number that a string of decimal digits spells, the first digit the
/// most significant.
pub open spec fn digits_value(s: Seq<char>) -> int
    decreases s.len(),
{
    if s.len() == 0 {
        0
    } else {
        digits_value(s.drop_last()) * 10 + (s.last() as int - '0' as int)
    }
}

/// A numeral spells its number.
pub proof fn lemma_decimal_value(n: nat)
    ensures
        digits_value(decimal(n)) == n,
    decreases n,
{
    if n < 10 {
        let one = seq![digit_char(n as int)];
        assert(one.drop_last() == Seq::<char>::empty());
        assert(digit_char(n as int) as int == '0' as int + n);
        assert(one.last() == digit_char(n as int));
        assert(digits_value(Seq::<char>::empty()) == 0);
        assert(decimal(n) == one);
    } else {
        lemma_decimal_value(n / 10);
        let d = decimal(n);
        assert(d.drop_last() == decimal(n / 10));
        assert(digit_char((n % 10) as int) as int == '0' as int + n % 10);
        assert(d.last() == digit_char((n % 10) as int));
        assert(n == (n / 10) * 10 + n % 10) by (nonlinear_arith);
    }
}

/// Zeros in front leave the number a string of digits spells unchanged.
pub proof fn lemma_leading_zeros(z: Seq<char>, s: Seq<char>)
    requires
        digits_value(z) == 0,
    ensures
        digits_value(z + s) == digits_value(s),
    decreases s.len(),
{
    if s.len() == 0 {
        assert(z + s == z);
    } else {
        lemma_leading_zeros(z, s.drop_last());
        assert((z + s).drop_last() == z + s.drop_last());
        assert((z + s).last() == s.last());
    }
}

} // verus!
