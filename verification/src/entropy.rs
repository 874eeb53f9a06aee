//! The random change of heading that follows every bounce.

use vstd::prelude::*;
use crate::units::MAX_PERTURBATION;

verus! {

/// Number of distinct changes of heading: the top 24 bits of a draw count.
pub const DRAW_STEPS: i64 = 16_777_216;

/// The change of heading that a draw stands for: its top 24 bits, spread
/// evenly over twice `MAX_PERTURBATION` and centred on zero.
pub open spec fn perturbation_of(draw: u32) -> int {
    (draw as int / 256) * (2 * MAX_PERTURBATION) / (DRAW_STEPS as int) - MAX_PERTURBATION
}

/// Every change of heading lies within ten degrees of zero, the upper bound
/// left out.
pub proof fn lemma_perturbation_bounds(draw: u32)
    ensures
        -MAX_PERTURBATION <= perturbation_of(draw) < MAX_PERTURBATION,
{
    let top: int = draw as int / 256;
    assert(0 <= top < 16_777_216);
    assert(0 <= top * 20_000_000 < 16_777_216 * 20_000_000);
    assert(0 <= (top * 20_000_000) / 16_777_216 < 20_000_000);
}

/// Computes the change of heading that `draw` stands for.
pub fn perturbation(draw: u32) -> (r: i64)
    ensures
        r == perturbation_of(draw),
        -MAX_PERTURBATION <= r < MAX_PERTURBATION,
{
    proof {
        lemma_perturbation_bounds(draw);
    }
    let top: i64 = (draw / 256) as i64;
    top * (2 * MAX_PERTURBATION) / DRAW_STEPS - MAX_PERTURBATION
}

/// Takes the next 32 bits from the thread's random number generator, through
/// `rand::thread_rng` and `rand::Rng::gen`. Nothing is claimed of the value:
/// callers are proved for every one.
#[verifier::external_body]
pub(crate) fn draw() -> (r: u32)
{
    rand::Rng::gen::<u32>(&mut rand::thread_rng())
}

} // verus!
