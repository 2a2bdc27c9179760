//! The random draws that the match makes, taken from the `rand` crate.

use vstd::prelude::*;
use rand::Rng;

verus! {

/// A `bool` that is true with the chance `numerator / denominator`, from
/// `rand::Rng::gen_ratio` on the thread's generator. As `gen_ratio`
/// documents, the outcome is certain at both ends: true when the two
/// numbers are equal, false when `numerator` is zero. Nothing is claimed
/// of it in between. `gen_ratio` panics on a zero denominator and on a
/// numerator above the denominator, so neither is admitted.
#[verifier::external_body]
pub(crate) fn random_ratio(numerator: u32, denominator: u32) -> (outcome: bool)
    requires
        denominator > 0,
        numerator <= denominator,
    ensures
        numerator == denominator ==> outcome,
        numerator == 0 ==> !outcome,
{
    rand::thread_rng().gen_ratio(numerator, denominator)
}

/// A random `bool`, from `rand::random`. Nothing is claimed of the outcome.
#[verifier::external_body]
pub(crate) fn random_bool() -> (value: bool) {
    rand::random::<bool>()
}

/// A number drawn from `0..bound`, from `rand::Rng::gen_range` on the
/// thread's generator. The draw lies in the range; nothing else is claimed.
/// `gen_range` panics on an empty range, so `bound` must be positive.
#[verifier::external_body]
pub(crate) fn random_below(bound: u32) -> (value: u32)
    requires
        bound > 0,
    ensures
        value < bound,
{
    rand::thread_rng().gen_range(0..bound)
}

} // verus!
