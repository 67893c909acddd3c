//! Random draws of the simulation, from the thread-local generator of `rand`.
use vstd::prelude::*;

verus! {

/// Calls `rand::Rng::random_range` on `rand::rng()` with the range `0..max`.
/// The documentation promises a value of the range and a panic on an empty
/// range, which `requires` leaves out; which value comes is left to chance.
#[verifier::external_body]
pub(crate) fn random_below(max: i32) -> (r: i32)
    requires
        max > 0,
    ensures
        0 <= r < max,
{
    rand::Rng::random_range(&mut rand::rng(), 0..max)
}

/// Calls `rand::Rng::random_ratio` on `rand::rng()`. The documentation
/// promises `false` for a zero numerator, `true` when the numerator equals
/// the denominator, and a panic when the denominator is zero or below the
/// numerator, which `requires` leaves out. Other outcomes are left to chance.
#[verifier::external_body]
pub(crate) fn random_ratio(numerator: u32, denominator: u32) -> (r: bool)
    requires
        0 < denominator,
        numerator <= denominator,
    ensures
        numerator == 0 ==> !r,
        numerator == denominator ==> r,
{
    rand::Rng::random_ratio(&mut rand::rng(), numerator, denominator)
}

} // verus!
