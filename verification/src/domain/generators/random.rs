//! Chance, as the `rand` crate deals it, and the clock, as `chrono` reads it.
//! Whatever comes back, the decoys are built by verified code from it.

use rand::seq::SliceRandom;
use rand::Rng;
use vstd::prelude::*;

verus! {

/// `rand::seq::SliceRandom::choose` on the thread's generator: one element of
/// a non-empty slice. Which one is left to chance.
#[verifier::external_body]
pub(crate) fn pick<'a, T>(items: &'a [T]) -> (item: &'a T)
    requires
        items@.len() > 0,
    ensures
        items@.contains(*item),
{
    items.choose(&mut rand::thread_rng()).unwrap()
}

/// `rand::seq::index::sample` on the thread's generator, which
/// `SliceRandom::choose_multiple` draws its elements with: `amount` distinct
/// indices below `length`, in random order. It panics when `amount` exceeds
/// `length`. Which indices come back is left to chance.
#[verifier::external_body]
pub(crate) fn sample_indices(length: usize, amount: usize) -> (at: Vec<usize>)
    requires
        amount <= length,
    ensures
        at@.len() == amount,
        forall|k: int| 0 <= k < at@.len() ==> #[trigger] at@[k] < length,
        forall|k: int, l: int| 0 <= k < l < at@.len() ==> #[trigger] at@[k] != #[trigger] at@[l],
{
    rand::seq::index::sample(&mut rand::thread_rng(), length, amount).into_vec()
}

/// `rand::Rng::gen_range` over `lo..=hi` on the thread's generator. It panics
/// on an empty range.
#[verifier::external_body]
pub(crate) fn random_between(lo: u64, hi: u64) -> (n: u64)
    requires
        lo <= hi,
    ensures
        lo <= n <= hi,
{
    rand::thread_rng().gen_range(lo..=hi)
}

/// `rand::Rng::gen_ratio`: `true` with probability `numerator / denominator`.
/// It panics when the denominator is zero or below the numerator. Either
/// answer may come back.
#[verifier::external_body]
pub(crate) fn random_ratio(numerator: u32, denominator: u32) -> (b: bool)
    requires
        0 < denominator,
        numerator <= denominator,
{
    rand::thread_rng().gen_ratio(numerator, denominator)
}

/// An ASCII letter or digit.
pub open spec fn is_ascii_alnum(c: char) -> bool {
    ('A' <= c && c <= 'Z') || ('a' <= c && c <= 'z') || ('0' <= c && c <= '9')
}

/// `rand::distributions::Alphanumeric` sampled on the thread's generator: an
/// ASCII letter or digit, which the crate documents and its table holds.
#[verifier::external_body]
pub(crate) fn random_alphanumeric() -> (c: char)
    ensures
        is_ascii_alnum(c),
{
    rand::thread_rng().sample(rand::distributions::Alphanumeric) as char
}

/// `chrono::Utc::now`, as whole seconds since the Unix epoch and the
/// milliseconds past that second. `Utc::now` panics on a clock before the
/// epoch, so the seconds that come back are never negative; the
/// milliseconds come from a `Duration`, so they stay below a thousand.
#[verifier::external_body]
pub(crate) fn utc_now() -> (t: (i64, u32))
    ensures
        t.0 >= 0,
        t.1 < 1000,
{
    let now = chrono::Utc::now();
    (now.timestamp(), now.timestamp_subsec_millis())
}

} // verus!
