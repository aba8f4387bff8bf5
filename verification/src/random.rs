//! The one randomized draw the engine needs, wrapped so that everything
//! that consumes a draw can be verified for every value the draw may
//! take.

use rand::Rng;
use vstd::prelude::*;

verus! {

/// Relies on `rand::Rng::gen_range` over the inclusive range `lo..=hi`:
/// the sampled value always lies within the range's bounds, and the call
/// panics only on an empty range, which the precondition rules out.
#[verifier::external_body]
pub(crate) fn random_in_range(lo: usize, hi: usize) -> (r: usize)
    requires
        lo <= hi,
    ensures
        lo <= r <= hi,
{
    rand::thread_rng().gen_range(lo..=hi)
}

} // verus!
