//! Chance, drawn from the thread's random number generator.

use vstd::prelude::*;
use rand::Rng;

verus! {

/// Draws a number with `rand::Rng::gen_range` on `rand::thread_rng()`.
///
/// `gen_range` documents that its result lies in `[low, high)` and that it
/// panics on an empty range, which `requires` leaves out. Nothing else is
/// claimed of the number drawn.
#[verifier::external_body]
pub(crate) fn random_in_range(low: u64, high: u64) -> (drawn: u64)
    requires
        low < high,
    ensures
        low <= drawn < high,
{
    rand::thread_rng().gen_range(low, high)
}

/// Tosses a coin with `rand::Rng::gen_ratio` on `rand::thread_rng()`.
///
/// `gen_ratio` documents that it panics on a zero denominator or a numerator
/// above the denominator, both left out by `requires`, that the outcome is
/// `true` for certain when the two are equal and `false` for certain when
/// the numerator is zero. Nothing else is claimed of the outcome.
#[verifier::external_body]
pub(crate) fn random_chance(numerator: u32, denominator: u32) -> (hit: bool)
    requires
        denominator > 0,
        numerator <= denominator,
    ensures
        numerator == denominator ==> hit,
        numerator == 0 ==> !hit,
{
    rand::thread_rng().gen_ratio(numerator, denominator)
}

} // verus!
