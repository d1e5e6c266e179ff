//! The cosmetic progress animation, modelled in fixed point.
//!
//! The progress fraction shown during a run carries no information about
//! the real installation; it only creeps towards 95% and is snapped to
//! 100% on success. A fraction `f` is held as `f * PROGRESS_SCALE`
//! rounded down, so `PROGRESS_SCALE` stands for 1.0 and
//! `ANIMATION_TARGET` for the 0.95 ceiling of the animation.

use vstd::prelude::*;

verus! {

/// Fixed-point representation of the fraction 1.0.
pub const PROGRESS_SCALE: u32 = 1_000_000;

/// Fixed-point representation of 0.95, the value the animation
/// approaches but never reaches.
pub const ANIMATION_TARGET: u32 = 950_000;

/// One animation step: add 2% of the remaining distance to the target
/// (the fixed-point form of `p + (0.95 - p) * 0.02`); at or beyond the
/// target nothing moves.
pub open spec fn animation_step_spec(p: int) -> int {
    if p < ANIMATION_TARGET {
        p + (ANIMATION_TARGET - p) * 2 / 100
    } else {
        p
    }
}

/// Below the target, one step never reaches it: the increment is a
/// rounded-down 2% of the remaining distance, which is less than the
/// distance itself.
pub proof fn lemma_animation_step_below_target(p: int)
    requires
        0 <= p < ANIMATION_TARGET,
    ensures
        p <= animation_step_spec(p) < ANIMATION_TARGET,
{
    let d = ANIMATION_TARGET - p;
    assert(d * 2 == 100 * (d * 2 / 100) + (d * 2) % 100) by (nonlinear_arith);
    assert(d * 2 < 100 * d) by (nonlinear_arith)
        requires 1 <= d;
    assert(d * 2 / 100 < d);
}

/// One animation tick on the fixed-point progress value.
pub fn animation_step(p: u32) -> (r: u32)
    ensures
        r == animation_step_spec(p as int),
        r >= p,
        p < ANIMATION_TARGET ==> r < ANIMATION_TARGET,
        p >= ANIMATION_TARGET ==> r == p,
{
    if p < ANIMATION_TARGET {
        let d: u32 = ANIMATION_TARGET - p;
        let inc: u32 = d * 2 / 100;
        proof {
            lemma_animation_step_below_target(p as int);
        }
        p + inc
    } else {
        p
    }
}

} // verus!
