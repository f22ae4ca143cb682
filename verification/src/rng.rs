//! Trusted boundary to the `rand` crate.
//!
//! The simulation draws uniformly random start coordinates and exploratory
//! action indices. Nothing can be promised about which value comes back, so
//! the contracts state only what holds of every outcome: the drawn index lies
//! in the requested range.

use rand::Rng;
use vstd::prelude::*;

verus! {

/// rand's thread-local generator, opaque to the verifier. Declared so that
/// verified simulation code can carry one and hand it to the draws below.
#[verifier::external_type_specification]
#[verifier::external_body]
pub struct ExThreadRng(rand::rngs::ThreadRng);

/// Relies on `rand::Rng::gen_range` over the half-open range `lo..hi`: the
/// sampled value always lies in `[lo, hi)`. `gen_range` panics on an empty
/// range, which the precondition rules out.
#[verifier::external_body]
pub(crate) fn gen_index(rng: &mut rand::rngs::ThreadRng, lo: usize, hi: usize) -> (r: usize)
    requires
        lo < hi,
    ensures
        lo <= r < hi,
{
    rng.gen_range(lo..hi)
}

} // verus!
