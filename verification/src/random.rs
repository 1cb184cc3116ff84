//! Chance, as far as the rules need it: numbers drawn from a range.

use vstd::prelude::*;

verus! {

/// The generator of `fastrand`, of which nothing is known here but what
/// its calls are said to return.
#[verifier::external_type_specification]
#[verifier::external_body]
pub struct ExRng(fastrand::Rng);

/// `fastrand::Rng::default`: a new generator, seeded from the one that the
/// thread keeps. Nothing is claimed of the numbers it will give.
#[verifier::external_body]
pub(crate) fn fresh_rng() -> fastrand::Rng {
    fastrand::Rng::default()
}

/// `fastrand::Rng::u32` on the range from zero up to, and without,
/// `bound`: the number drawn lies in that range. The call panics on an
/// empty range, which `bound > 0` excludes.
#[verifier::external_body]
pub(crate) fn draw_below(rng: &fastrand::Rng, bound: u32) -> (r: u32)
    requires
        bound > 0,
    ensures
        r < bound,
{
    rng.u32(0..bound)
}


} // verus!
