//! Directional one-pole smoother.
//!
//! Both dynamic engines smooth a running value toward a moving target with
//! one coefficient when the target lies above the current value and another
//! when it lies below — the classic asymmetric attack/release behaviour.
//! The same state machine is used twice by the compressor (excess detection
//! and gain smoothing) and once by the colorizer, so it lives here once.
//!
//! A coefficient is the factor applied to the remaining distance each step,
//! held in Q16 fixed point: 65536 jumps to the target at once, 0 freezes the
//! value.  Coefficients handed in above one are clamped rather than
//! rejected, so an invalid configuration degrades to the nearest valid one.

use vstd::prelude::*;
use vstd::arithmetic::div_mod::{lemma_div_is_ordered, lemma_div_by_multiple};
use vstd::arithmetic::mul::{lemma_mul_inequality, lemma_mul_upper_bound};

verus! {

/// Q16 fixed-point one.
pub const COEFF_ONE: u32 = 65536;

/// Largest magnitude, in millidecibels, that smoothed values and their
/// targets may take; far beyond any level a signal chain produces, but small
/// enough that every intermediate product stays inside 64 bits.
pub const VALUE_LIMIT: i64 = 4_000_000_000;

/// Clamping of a Q16 coefficient to at most one: a coefficient handed in
/// above one degrades to one instead of being rejected.
pub open spec fn spec_clamp_coeff(x: int) -> int {
    if x <= COEFF_ONE {
        x
    } else {
        COEFF_ONE as int
    }
}

/// One smoothing step: move `v` toward `t` by the Q16 fraction `up` of the
/// distance when rising, `down` when falling.
pub open spec fn spec_step(v: int, up: int, down: int, t: int) -> int {
    if t > v {
        v + (up * (t - v)) / 65536
    } else {
        v - (down * (v - t)) / 65536
    }
}

/// Asymmetric one-pole smoother state.
pub struct DirSmoother {
    value: i64,
    up_q16: u32,
    down_q16: u32,
}

impl DirSmoother {
    /// The smoothed running value.
    pub closed spec fn spec_value(self) -> int {
        self.value as int
    }

    /// Q16 coefficient applied while the target is above the value.
    pub closed spec fn spec_up(self) -> int {
        self.up_q16 as int
    }

    /// Q16 coefficient applied while the target is at or below the value.
    pub closed spec fn spec_down(self) -> int {
        self.down_q16 as int
    }

    /// Coefficients are genuine fractions and the value is in range.
    pub open spec fn wf(self) -> bool {
        &&& 0 <= self.spec_up() <= COEFF_ONE
        &&& 0 <= self.spec_down() <= COEFF_ONE
        &&& -VALUE_LIMIT <= self.spec_value() <= VALUE_LIMIT
    }

    /// A smoother at rest at zero.  Coefficients above one are clamped.
    pub fn new(up_q16: u32, down_q16: u32) -> (s: DirSmoother)
        ensures
            s.wf(),
            s.spec_value() == 0,
            s.spec_up() == spec_clamp_coeff(up_q16 as int),
            s.spec_down() == spec_clamp_coeff(down_q16 as int),
    {
        let up: u32 = if up_q16 <= COEFF_ONE { up_q16 } else { COEFF_ONE };
        let down: u32 = if down_q16 <= COEFF_ONE { down_q16 } else { COEFF_ONE };
        DirSmoother { value: 0, up_q16: up, down_q16: down }
    }

    /// Replace the coefficient pair, keeping the running value.
    /// Coefficients above one are clamped.
    pub fn set_coeffs(&mut self, up_q16: u32, down_q16: u32)
        requires
            old(self).wf(),
        ensures
            final(self).wf(),
            final(self).spec_value() == old(self).spec_value(),
            final(self).spec_up() == spec_clamp_coeff(up_q16 as int),
            final(self).spec_down() == spec_clamp_coeff(down_q16 as int),
    {
        self.up_q16 = if up_q16 <= COEFF_ONE { up_q16 } else { COEFF_ONE };
        self.down_q16 = if down_q16 <= COEFF_ONE { down_q16 } else { COEFF_ONE };
    }

    /// The smoothed value as it stands.
    pub fn value(&self) -> (v: i64)
        ensures
            v == self.spec_value(),
    {
        self.value
    }

    /// Return the running value to zero; the coefficients survive, as all
    /// configuration does across a reset.
    pub fn reset(&mut self)
        requires
            old(self).wf(),
        ensures
            final(self).wf(),
            final(self).spec_value() == 0,
            final(self).spec_up() == old(self).spec_up(),
            final(self).spec_down() == old(self).spec_down(),
    {
        self.value = 0;
    }

    /// Advance one step toward `target`.  The new value never overshoots:
    /// it stays between the old value and the target, which keeps every
    /// smoothed quantity inside the range its targets span.
    pub fn tick(&mut self, target: i64) -> (v: i64)
        requires
            old(self).wf(),
            -VALUE_LIMIT <= target <= VALUE_LIMIT,
        ensures
            final(self).wf(),
            final(self).spec_up() == old(self).spec_up(),
            final(self).spec_down() == old(self).spec_down(),
            final(self).spec_value() == spec_step(
                old(self).spec_value(),
                old(self).spec_up(),
                old(self).spec_down(),
                target as int,
            ),
            v == final(self).spec_value(),
            old(self).spec_value() <= target ==> old(self).spec_value() <= v <= target,
            target <= old(self).spec_value() ==> target <= v <= old(self).spec_value(),
    {
        let value = self.value;
        if target > value {
            let dist: u64 = (target - value) as u64;
            proof {
                lemma_mul_upper_bound(self.up_q16 as int, 65536, dist as int, 8_000_000_000);
            }
            let step_u: u64 = (self.up_q16 as u64) * dist / 65536;
            proof {
                lemma_step_at_most_dist(self.up_q16 as int, dist as int);
            }
            let step: i64 = step_u as i64;
            self.value = value + step;
        } else {
            let dist: u64 = (value - target) as u64;
            proof {
                lemma_mul_upper_bound(self.down_q16 as int, 65536, dist as int, 8_000_000_000);
            }
            let step_u: u64 = (self.down_q16 as u64) * dist / 65536;
            proof {
                lemma_step_at_most_dist(self.down_q16 as int, dist as int);
            }
            let step: i64 = step_u as i64;
            self.value = value - step;
        }
        self.value
    }
}

/// A Q16 fraction of a distance never exceeds the distance.
proof fn lemma_step_at_most_dist(coeff: int, dist: int)
    requires
        0 <= coeff <= 65536,
        0 <= dist,
    ensures
        0 <= (coeff * dist) / 65536 <= dist,
{
    lemma_mul_inequality(coeff, 65536, dist);
    lemma_mul_inequality(0, coeff, dist);
    lemma_div_is_ordered(0, coeff * dist, 65536);
    lemma_div_is_ordered(coeff * dist, 65536 * dist, 65536);
    lemma_div_by_multiple(dist, 65536);
    assert(65536 * dist == dist * 65536);
}

/// Law: a smoothing step never overshoots — the new value lies between the
/// old value and the target.  Every smoothed quantity therefore stays
/// inside the range its targets span, and under a constant target the
/// distance to that target never grows from one step to the next.
pub proof fn lemma_step_stays_between(v: int, up: int, down: int, t: int)
    requires
        0 <= up <= COEFF_ONE,
        0 <= down <= COEFF_ONE,
    ensures
        v <= t ==> v <= spec_step(v, up, down, t) <= t,
        t <= v ==> t <= spec_step(v, up, down, t) <= v,
{
    if t > v {
        lemma_step_at_most_dist(up, t - v);
    } else {
        lemma_step_at_most_dist(down, v - t);
    }
}

/// Law: a smoother already at its target stays there exactly, whatever its
/// coefficients — the fixed point that steady-state convergence settles on.
pub proof fn lemma_step_fixed_point(v: int, up: int, down: int)
    ensures
        spec_step(v, up, down, v) == v,
{
    assert(down * (v - v) == 0) by {
        assert(v - v == 0);
    }
}

} // verus!
