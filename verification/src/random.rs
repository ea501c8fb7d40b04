//! Random choices, drawn from a `fastrand` generator.

use vstd::prelude::*;

verus! {

/// The generator of `fastrand`; its state is not visible here.
#[verifier::external_type_specification]
#[verifier::external_body]
pub struct ExRng(fastrand::Rng);

/// Calls `fastrand::Rng::usize` with the range `0..bound`.
/// The crate draws a value in the range and panics on an empty one, so
/// `bound` must be positive; which value comes back depends on the state of
/// the generator and is not stated beyond the range.
#[verifier::external_body]
pub(crate) fn index_below(rng: &mut fastrand::Rng, bound: usize) -> (r: usize)
    requires
        bound > 0,
    ensures
        r < bound,
{
    rng.usize(0..bound)
}

/// Calls `fastrand::Rng::bool`: a coin flip whose side depends on the state of
/// the generator; nothing is stated of it.
#[verifier::external_body]
pub(crate) fn coin_flip(rng: &mut fastrand::Rng) -> bool {
    rng.bool()
}

} // verus!
