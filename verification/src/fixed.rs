//! Fixed-point arithmetic for presentation-side smoothing.
//!
//! Replicated positions are counted in 1/65536ths of a world unit, so the
//! easing that blends a mirrored token or cursor toward its authoritative
//! target is exact integer arithmetic: every step lands between the current
//! position and the target, never overshoots, and makes strict progress
//! while the gap is at least one world unit.

use vstd::prelude::*;
use vstd::arithmetic::div_mod::{lemma_div_is_ordered, lemma_div_multiples_vanish, lemma_div_pos_is_pos};
use vstd::arithmetic::mul::{lemma_mul_inequality, lemma_mul_nonnegative};

verus! {

/// One whole unit: fixed-point values carry this many fractional steps.
pub const FX_ONE: i64 = 65536;

/// Bound on the coordinates the session ever replicates; easing stays
/// well inside `i64` as long as both endpoints respect it.
pub const FX_MAX: i64 = 0x100_0000_0000;

/// A coordinate small enough for easing arithmetic.
pub open spec fn fx_bounded(x: int) -> bool {
    -FX_MAX <= x <= FX_MAX
}

pub open spec fn abs_fx(x: int) -> int {
    if x >= 0 {
        x
    } else {
        -x
    }
}

/// One easing step: move `pos` toward `target` by the fraction
/// `alpha / FX_ONE` of the remaining gap, rounding the magnitude down.
pub open spec fn ease_spec(pos: int, target: int, alpha: int) -> int {
    if target >= pos {
        pos + ((target - pos) * alpha) / (FX_ONE as int)
    } else {
        pos - ((pos - target) * alpha) / (FX_ONE as int)
    }
}

/// The step magnitude never exceeds the gap itself.
proof fn lemma_scaled_gap(delta: int, alpha: int)
    requires
        0 <= delta,
        0 <= alpha <= FX_ONE,
    ensures
        0 <= (delta * alpha) / (FX_ONE as int) <= delta,
        alpha == FX_ONE ==> (delta * alpha) / (FX_ONE as int) == delta,
        1 <= alpha && FX_ONE <= delta * alpha ==> 1 <= (delta * alpha) / (FX_ONE as int),
{
    lemma_mul_nonnegative(delta, alpha);
    lemma_div_pos_is_pos(delta * alpha, FX_ONE as int);
    lemma_mul_inequality(alpha, FX_ONE as int, delta);
    assert(delta * alpha == alpha * delta) by (nonlinear_arith);
    assert(delta * FX_ONE == FX_ONE * delta) by (nonlinear_arith);
    lemma_div_is_ordered(alpha * delta, (FX_ONE as int) * delta, FX_ONE as int);
    lemma_div_multiples_vanish(delta, FX_ONE as int);
    if 1 <= alpha && FX_ONE <= delta * alpha {
        lemma_div_is_ordered(FX_ONE as int, delta * alpha, FX_ONE as int);
        lemma_div_multiples_vanish(1, FX_ONE as int);
    }
}

/// Smoothing law: one easing step with a fraction `alpha` strictly between
/// zero and one keeps the smoothed value between its old value and the
/// fixed target, never overshoots, and never increases the distance to the
/// target; once the scaled gap reaches a whole step the distance strictly
/// shrinks, so repeated steps converge monotonically onto the target.
pub proof fn lemma_ease_monotone_no_overshoot(pos: int, target: int, alpha: int)
    requires
        fx_bounded(pos),
        fx_bounded(target),
        0 <= alpha <= FX_ONE,
    ensures
        pos <= target ==> pos <= ease_spec(pos, target, alpha) <= target,
        target <= pos ==> target <= ease_spec(pos, target, alpha) <= pos,
        abs_fx(target - ease_spec(pos, target, alpha)) <= abs_fx(target - pos),
        alpha == FX_ONE ==> ease_spec(pos, target, alpha) == target,
        1 <= alpha && FX_ONE <= abs_fx(target - pos) * alpha ==> abs_fx(
            target - ease_spec(pos, target, alpha),
        ) < abs_fx(target - pos),
{
    if target >= pos {
        lemma_scaled_gap(target - pos, alpha);
    } else {
        lemma_scaled_gap(pos - target, alpha);
    }
}

/// One executable easing step over bounded fixed-point coordinates.
pub fn ease_toward(pos: i64, target: i64, alpha: i64) -> (r: i64)
    requires
        fx_bounded(pos as int),
        fx_bounded(target as int),
        0 <= alpha <= FX_ONE,
    ensures
        r == ease_spec(pos as int, target as int, alpha as int),
        fx_bounded(r as int),
{
    proof {
        lemma_ease_monotone_no_overshoot(pos as int, target as int, alpha as int);
    }
    if target >= pos {
        let delta = target - pos;
        proof {
            lemma_mul_nonnegative(delta as int, alpha as int);
            lemma_mul_inequality(delta as int, 2 * FX_MAX, alpha as int);
        }
        let moved = delta * alpha / FX_ONE;
        pos + moved
    } else {
        let delta = pos - target;
        proof {
            lemma_mul_nonnegative(delta as int, alpha as int);
            lemma_mul_inequality(delta as int, 2 * FX_MAX, alpha as int);
        }
        let moved = delta * alpha / FX_ONE;
        pos - moved
    }
}

/// `base^exp` for a fraction `base / FX_ONE`, rounding down at each step.
pub open spec fn pow_frac_spec(base: int, exp: nat) -> int
    decreases exp,
{
    if exp == 0 {
        FX_ONE as int
    } else {
        (base * pow_frac_spec(base, (exp - 1) as nat)) / (FX_ONE as int)
    }
}

/// A fractional power stays a fraction.
pub proof fn lemma_pow_frac_bounded(base: int, exp: nat)
    requires
        0 <= base <= FX_ONE,
    ensures
        0 <= pow_frac_spec(base, exp) <= FX_ONE,
    decreases exp,
{
    if exp > 0 {
        lemma_pow_frac_bounded(base, (exp - 1) as nat);
        lemma_scaled_gap(pow_frac_spec(base, (exp - 1) as nat), base);
        assert(base * pow_frac_spec(base, (exp - 1) as nat) == pow_frac_spec(
            base,
            (exp - 1) as nat,
        ) * base) by (nonlinear_arith);
    }
}

/// Repeated per-step decay of a fraction, as used to tune easing to the
/// elapsed simulation steps.
pub fn pow_frac(base: i64, exp: u32) -> (r: i64)
    requires
        0 <= base <= FX_ONE,
    ensures
        r == pow_frac_spec(base as int, exp as nat),
        0 <= r <= FX_ONE,
    decreases exp,
{
    proof {
        lemma_pow_frac_bounded(base as int, exp as nat);
    }
    if exp == 0 {
        FX_ONE
    } else {
        let rest = pow_frac(base, exp - 1);
        proof {
            lemma_mul_nonnegative(base as int, rest as int);
            lemma_mul_inequality(rest as int, FX_ONE as int, base as int);
            assert(base * rest == rest * base) by (nonlinear_arith);
            assert(base * FX_ONE == FX_ONE * base) by (nonlinear_arith);
        }
        base * rest / FX_ONE
    }
}

/// The easing fraction left after `exp` steps of per-step decay `base`:
/// the complement of the surviving share of the gap.
pub fn decay_alpha(base: i64, exp: u32) -> (alpha: i64)
    requires
        0 <= base <= FX_ONE,
    ensures
        alpha == FX_ONE - pow_frac_spec(base as int, exp as nat),
        0 <= alpha <= FX_ONE,
{
    let p = pow_frac(base, exp);
    FX_ONE - p
}

/// A planar fixed-point coordinate, the replicated form of a position.
#[derive(Clone, Copy, Debug, Default, PartialEq, Eq, Structural)]
pub struct Vec2Fx {
    pub x: i64,
    pub y: i64,
}

impl Vec2Fx {
    /// Both coordinates inside the replicated range.
    pub open spec fn bounded(self) -> bool {
        fx_bounded(self.x as int) && fx_bounded(self.y as int)
    }

    pub open spec fn ease_vec_spec(self, target: Vec2Fx, alpha: int) -> Vec2Fx {
        Vec2Fx {
            x: ease_spec(self.x as int, target.x as int, alpha) as i64,
            y: ease_spec(self.y as int, target.y as int, alpha) as i64,
        }
    }

    /// The origin, where fresh presentation state starts.
    pub fn zero() -> (r: Vec2Fx)
        ensures
            r.x == 0 && r.y == 0,
            r.bounded(),
    {
        Vec2Fx { x: 0, y: 0 }
    }

    /// One easing step of both coordinates toward `target`.
    pub fn ease_toward(self, target: Vec2Fx, alpha: i64) -> (r: Vec2Fx)
        requires
            self.bounded(),
            target.bounded(),
            0 <= alpha <= FX_ONE,
        ensures
            r == self.ease_vec_spec(target, alpha as int),
            r.bounded(),
    {
        proof {
            lemma_ease_monotone_no_overshoot(self.x as int, target.x as int, alpha as int);
            lemma_ease_monotone_no_overshoot(self.y as int, target.y as int, alpha as int);
        }
        Vec2Fx { x: ease_toward(self.x, target.x, alpha), y: ease_toward(self.y, target.y, alpha) }
    }
}

} // verus!
