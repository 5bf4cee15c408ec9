//! Random draws, through the `rand` crate.
use rand::rngs::ThreadRng;
use rand::Rng;
use vstd::prelude::*;

verus! {

/// The thread-local generator of `rand`, carried through as an opaque value.
#[verifier::external_type_specification]
#[verifier::external_body]
pub struct ExThreadRng(ThreadRng);

/// Relies on `rand::Rng::gen_range` over the integer range `0..n`: the value
/// drawn lies in `[0, n)`. An empty range panics, so `n` must be positive.
#[verifier::external_body]
pub(crate) fn draw_below(rng: &mut ThreadRng, n: usize) -> (r: usize)
    requires
        n > 0,
    ensures
        r < n,
{
    rng.gen_range(0..n)
}

} // verus!
