//! The one place where chance enters: a generator of the `rand` crate, and
//! the single call that draws a number from it.

use rand::rngs::StdRng;
use rand::Rng;
use vstd::prelude::*;

verus! {

/// `rand::rngs::StdRng`, the seedable generator that the opponent draws
/// from. Nothing of its inner state is visible to the proofs.
#[verifier::external_type_specification]
#[verifier::external_body]
pub struct ExStdRng(StdRng);

/// Draws a number from `0..bound` with `rand::Rng::random_range`.
///
/// Trusted, not proved: for a non-empty range of unsigned integers
/// `random_range` returns a value inside the range. It panics on an empty
/// range, which `bound > 0` rules out. Which value comes back is left open.
#[verifier::external_body]
pub(crate) fn random_below(rng: &mut StdRng, bound: u32) -> (n: u32)
    requires
        bound > 0,
    ensures
        n < bound,
{
    rng.random_range(0..bound)
}

} // verus!
