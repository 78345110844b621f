//! The pseudo-random generator behind the mutation scheduler.
//!
//! The synthesizer draws every random decision from one seeded `SmallRng`
//! that the caller owns and threads through explicitly.  The generator is
//! opaque here; the one fact relied on is the range of a uniform integer
//! draw.

use vstd::prelude::*;
use rand::Rng;

verus! {

#[verifier::external_type_specification]
#[verifier::external_body]
pub struct ExSmallRng(rand::rngs::SmallRng);

/// Relies on rand's `Rng::gen_range`: a uniform draw in `[lo, hi)`, which
/// panics when `lo >= hi`.
#[verifier::external_body]
pub(crate) fn gen_u64_range(rng: &mut rand::rngs::SmallRng, lo: u64, hi: u64) -> (r: u64)
    requires
        lo < hi,
    ensures
        lo <= r < hi,
{
    rng.gen_range(lo, hi)
}

} // verus!
