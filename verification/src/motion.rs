//! Motion integration over the fixed time step: ball advance and clamped
//! paddle travel.

use vstd::prelude::*;
use crate::geom::{POS_LIMIT, VEL_LIMIT};

verus! {

/// `x` clamped into `[lo, hi]`.
pub open spec fn clamped(x: int, lo: int, hi: int) -> int {
    if x < lo {
        lo
    } else if x > hi {
        hi
    } else {
        x
    }
}

/// A coordinate after one tick of motion at velocity `v`: the sum,
/// saturated at the representable world bound.  Within the world the
/// result is exactly `p + v`.
pub open spec fn advanced(p: int, v: int) -> int {
    clamped(p + v, -POS_LIMIT as int, POS_LIMIT as int)
}

/// A paddle's vertical centre after one tick of travel at `intent` in
/// `{-1, 0, +1}` and `step` sub-units per tick, clamped to the arena's
/// travel bounds `[lo, hi]`.
pub open spec fn paddle_moved(y: int, intent: int, step: int, lo: int, hi: int) -> int {
    clamped(y + intent * step, lo, hi)
}

/// Clamps `x` into `[lo, hi]`.
pub fn clamp_i64(x: i64, lo: i64, hi: i64) -> (r: i64)
    requires
        lo <= hi,
    ensures
        r == clamped(x as int, lo as int, hi as int),
{
    if x < lo {
        lo
    } else if x > hi {
        hi
    } else {
        x
    }
}

/// Advances one coordinate of the ball by its velocity over one tick,
/// unconditionally; only the world's representation bound saturates it.
pub fn advance_axis(p: i64, v: i64) -> (r: i64)
    requires
        -POS_LIMIT <= p <= POS_LIMIT,
        -VEL_LIMIT <= v <= VEL_LIMIT,
    ensures
        r == advanced(p as int, v as int),
{
    clamp_i64(p + v, -POS_LIMIT, POS_LIMIT)
}

/// For an intent restricted to `{-1, 0, +1}` the product with the speed is
/// a sum-free case split.
proof fn lemma_intent_times_step(intent: int, step: int)
    requires
        -1 <= intent <= 1,
    ensures
        intent == 1 ==> intent * step == step,
        intent == 0 ==> intent * step == 0,
        intent == -1 ==> intent * step == -step,
{
    assert(1 * step == step) by (nonlinear_arith);
    assert(0 * step == 0) by (nonlinear_arith);
    assert((-1) * step == -step) by (nonlinear_arith);
}

/// Moves a paddle's vertical centre one tick at the given intent and
/// speed, clamping the result to the travel bounds.  Paddles never move
/// horizontally.
pub fn step_paddle(y: i64, intent: i64, step: i64, lo: i64, hi: i64) -> (r: i64)
    requires
        -POS_LIMIT <= y <= POS_LIMIT,
        -1 <= intent <= 1,
        0 <= step <= VEL_LIMIT,
        -POS_LIMIT <= lo <= hi <= POS_LIMIT,
    ensures
        r == paddle_moved(y as int, intent as int, step as int, lo as int, hi as int),
{
    proof {
        lemma_intent_times_step(intent as int, step as int);
    }
    let moved: i64 = if intent == 1 {
        y + step
    } else if intent == -1 {
        y - step
    } else {
        y
    };
    clamp_i64(moved, lo, hi)
}

} // verus!
