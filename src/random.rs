use vstd::prelude::*;
use rand::Rng;
use rand::rngs::StdRng;

verus! {

#[verifier::external_type_specification]
#[verifier::external_body]
pub struct ExStdRng(rand::rngs::StdRng);

/// Relies on rand's `Rng::gen_range(0, n)`: a uniform draw from `[0, n)`, which
/// panics when `n` is zero.
#[verifier::external_body]
pub(crate) fn draw_below(rng: &mut StdRng, n: u32) -> (r: u32)
    requires
        n > 0,
    ensures
        r < n,
{
    rng.gen_range(0, n)
}

/// Relies on rand's `Rng::gen` for `usize`: any value may come.
#[verifier::external_body]
pub(crate) fn draw_usize(rng: &mut StdRng) -> (r: usize) {
    rng.gen()
}

} // verus!
