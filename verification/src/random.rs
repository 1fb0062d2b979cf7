//! Random draws, taken from the thread-local generator of the `rand` crate.

use rand::Rng;
use vstd::prelude::*;

verus! {

/// Draws an integer with `Rng::gen_range` on `rand::thread_rng()`, over the
/// inclusive range from `low` to `high`.
///
/// The contract claims only that the draw lies in the range. An empty range,
/// on which `gen_range` panics, is excluded.
#[verifier::external_body]
pub(crate) fn uniform_between(low: i64, high: i64) -> (drawn: i64)
    requires
        low <= high,
    ensures
        low <= drawn <= high,
{
    rand::thread_rng().gen_range(low..=high)
}

/// Draws a boolean with `Rng::gen_ratio` on `rand::thread_rng()`, true with
/// probability `numerator / denominator`.
///
/// The contract claims the two outcomes that the crate documents as certain:
/// a ratio of zero never hits and a ratio of one always hits. A zero
/// denominator and a ratio above one, on which `gen_ratio` panics, are
/// excluded.
#[verifier::external_body]
pub(crate) fn chance(numerator: u32, denominator: u32) -> (hit: bool)
    requires
        0 < denominator,
        numerator <= denominator,
    ensures
        numerator == 0 ==> !hit,
        numerator == denominator ==> hit,
{
    rand::thread_rng().gen_ratio(numerator, denominator)
}

} // verus!
