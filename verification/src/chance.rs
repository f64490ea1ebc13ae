//! The only source of randomness: the thread-local generator of the `rand` crate.

use rand::Rng;
use vstd::prelude::*;

verus! {

/// Draws an integer from `low..=high` with `rand::Rng::gen_range` on
/// `rand::thread_rng()`.
///
/// Not verified: the contract repeats what `gen_range` documents, that the
/// value lies in the range it was given, and leaves out the empty range, on
/// which `gen_range` panics.
#[verifier::external_body]
pub(crate) fn draw_in_range(low: i32, high: i32) -> (drawn: i32)
    requires
        low <= high,
    ensures
        low <= drawn <= high,
{
    rand::thread_rng().gen_range(low..=high)
}

/// Tosses a coin that shows `true` with probability `numerator / denominator`,
/// with `rand::Rng::gen_ratio` on `rand::thread_rng()`.
///
/// Not verified. Nothing is promised of the outcome; the contract only leaves
/// out the arguments on which `gen_ratio` panics.
#[verifier::external_body]
pub(crate) fn draw_ratio(numerator: u32, denominator: u32) -> (heads: bool)
    requires
        0 < denominator,
        numerator <= denominator,
{
    rand::thread_rng().gen_ratio(numerator, denominator)
}

} // verus!
