//! Trusted boundary to the `rand` crate: maze generation draws wall
//! coordinates from a seedable generator that callers pass in.

use vstd::prelude::*;
use rand::Rng;

verus! {

#[verifier::external_type_specification]
#[verifier::external_body]
pub struct ExStdRng(rand::rngs::StdRng);

/// Relies on rand's `Rng::gen_range` over the half-open range `lo..hi`:
/// it returns a value in `[lo, hi)` and panics only on an empty range.
#[verifier::external_body]
pub(crate) fn rng_below(rng: &mut rand::rngs::StdRng, lo: usize, hi: usize) -> (r: usize)
    requires
        lo < hi,
    ensures
        lo <= r < hi,
{
    rng.gen_range(lo..hi)
}

} // verus!
