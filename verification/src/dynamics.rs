//! Decibel-domain gain computer of the dynamics compressor.
//!
//! The compressor's decisions all happen in the decibel domain: the detected
//! level is compared against the threshold, the excess is bent through a
//! soft knee, smoothed asymmetrically, turned into a gain-reduction target
//! through the ratio, and that target is smoothed once more with its own,
//! faster coefficient pair.  All of it is exact integer arithmetic over
//! millidecibels, so the whole path lives here with full contracts; the host
//! layer only converts the detected level in and the resulting gain out.

use vstd::prelude::*;
use vstd::arithmetic::div_mod::{lemma_div_is_ordered, lemma_div_by_multiple};
use vstd::arithmetic::mul::{lemma_mul_inequality, lemma_mul_upper_bound};
use crate::params::Ratio;
use crate::smoother::{DirSmoother, spec_step, spec_clamp_coeff, lemma_step_fixed_point, VALUE_LIMIT};

verus! {

/// Largest level or threshold magnitude the gain path accepts, in
/// millidecibels: one million decibels, far past any real signal, yet small
/// enough that every product below stays inside 64 bits.
pub const MDB_LIMIT: i64 = 1_000_000_000;

/// Largest soft-knee width, in millidecibels (one thousand decibels).
pub const KNEE_LIMIT: i64 = 1_000_000;

/// Largest magnitude an excess or gain value can reach on the path:
/// level minus threshold, plus the knee's own contribution.
pub const PATH_LIMIT: i64 = 2 * MDB_LIMIT + KNEE_LIMIT;

/// The soft-knee transfer: excess at least half the knee width below the
/// threshold passes as zero, excess at least half the width above passes
/// unchanged, and in between a quadratic blend `(e + w/2)^2 / (2w)` joins
/// the two branches.  Stated over doubled values so that half-widths stay
/// integral: the blend is `(2e + w)^2 / (8w)`.
pub open spec fn spec_soft_knee(e: int, w: int) -> int {
    if 2 * e <= -w {
        0
    } else if 2 * e >= w {
        e
    } else {
        ((2 * e + w) * (2 * e + w)) / (8 * w)
    }
}

/// Gain reduction demanded by an excess over the threshold:
/// `-e * (1 - 1/r)` for positive excess, zero otherwise, with the division
/// carried out exactly as `-(e * (r - 1)) / r`.
pub open spec fn spec_target_gain(e: int, r: int) -> int {
    if e > 0 {
        -((e * (r - 1)) / r)
    } else {
        0
    }
}

/// The excess state after one sample at detected level `level`.
pub open spec fn spec_excess_next(
    excess: int,
    up: int,
    down: int,
    threshold: int,
    knee: int,
    level: int,
) -> int {
    spec_step(excess, up, down, spec_soft_knee(level - threshold, knee))
}

/// The gain state after one sample, given the already-updated excess.
pub open spec fn spec_gain_next(gain: int, up: int, down: int, ratio: int, excess_next: int) -> int {
    spec_step(gain, up, down, spec_target_gain(excess_next, ratio))
}

/// Soft-knee excess shaping over millidecibels.
pub fn soft_knee(excess_mdb: i64, knee_mdb: i64) -> (r: i64)
    requires
        -PATH_LIMIT <= excess_mdb <= PATH_LIMIT,
        0 <= knee_mdb <= KNEE_LIMIT,
    ensures
        r == spec_soft_knee(excess_mdb as int, knee_mdb as int),
{
    if 2 * excess_mdb <= -knee_mdb {
        0
    } else if 2 * excess_mdb >= knee_mdb {
        excess_mdb
    } else {
        let s: u64 = (2 * excess_mdb + knee_mdb) as u64;
        proof {
            lemma_mul_upper_bound(s as int, 2 * (KNEE_LIMIT as int), s as int, 2 * (KNEE_LIMIT as int));
        }
        let num: u64 = s * s;
        let r: u64 = num / (8 * knee_mdb as u64);
        proof {
            lemma_div_is_ordered(0, (s * s) as int, 8 * knee_mdb as int);
        }
        r as i64
    }
}

/// Gain-reduction target for a smoothed excess, at the given ratio.
pub fn target_gain_mdb(excess_mdb: i64, ratio: Ratio) -> (g: i64)
    requires
        -PATH_LIMIT <= excess_mdb <= PATH_LIMIT,
    ensures
        g == spec_target_gain(excess_mdb as int, ratio.spec_value()),
{
    if excess_mdb > 0 {
        let r = ratio.value();
        proof {
            lemma_mul_upper_bound(excess_mdb as int, PATH_LIMIT as int, (r - 1) as int, 3);
        }
        let num: u64 = (excess_mdb as u64) * ((r - 1) as u64);
        let mag: u64 = num / (r as u64);
        proof {
            lemma_target_gain_bounds(excess_mdb as int, ratio.spec_value());
        }
        -(mag as i64)
    } else {
        0
    }
}

/// The soft knee never leaves `[0, w + max(e, 0)]`.
pub proof fn lemma_knee_bounds(e: int, w: int)
    requires
        0 <= w,
    ensures
        0 <= spec_soft_knee(e, w),
        spec_soft_knee(e, w) <= w + (if e > 0 { e } else { 0 }),
{
    if 2 * e <= -w {
    } else if 2 * e >= w {
    } else {
        let s = 2 * e + w;
        assert(0 < s < 2 * w);
        assert(0 <= s * s) by (nonlinear_arith)
            requires 0 <= s;
        lemma_div_is_ordered(0, s * s, 8 * w);
        assert(s * s <= (8 * w) * w) by (nonlinear_arith)
            requires 0 < s < 2 * w;
        lemma_div_is_ordered(s * s, (8 * w) * w, 8 * w);
        lemma_div_by_multiple(w, 8 * w);
        assert((8 * w) * w == w * (8 * w));
    }
}

/// Law (knee continuity): at both edges of the knee region the quadratic
/// blend lands exactly on the neighbouring branch — zero at half a width
/// below the threshold, the unchanged excess at half a width above.  The
/// knee therefore joins its branches without a jump.
pub proof fn lemma_knee_continuous(e: int, w: int)
    requires
        0 < w,
    ensures
        2 * e == -w ==> ((2 * e + w) * (2 * e + w)) / (8 * w) == 0,
        2 * e == w ==> ((2 * e + w) * (2 * e + w)) / (8 * w) == e,
{
    if 2 * e == -w {
        assert(2 * e + w == 0);
        assert(((2 * e + w) * (2 * e + w)) == 0);
        assert(0int / (8 * w) == 0);
    }
    if 2 * e == w {
        assert(0 < e);
        assert((2 * e + w) * (2 * e + w) == e * (8 * w)) by (nonlinear_arith)
            requires 2 * e == w;
        lemma_div_by_multiple(e, 8 * w);
    }
}

/// Law (knee monotone): more excess never yields less knee-shaped excess.
pub proof fn lemma_knee_monotone(e1: int, e2: int, w: int)
    requires
        0 <= w,
        e1 <= e2,
    ensures
        spec_soft_knee(e1, w) <= spec_soft_knee(e2, w),
{
    lemma_knee_bounds(e1, w);
    lemma_knee_bounds(e2, w);
    if 2 * e1 <= -w {
        // zero below everything else
    } else if 2 * e1 >= w {
        // both identity
    } else if 2 * e2 >= w {
        // quadratic below, identity above: the blend stays under e2
        let s1 = 2 * e1 + w;
        assert(s1 * s1 <= e2 * (8 * w)) by (nonlinear_arith)
            requires
                0 < s1,
                s1 < 2 * w,
                w <= 2 * e2,
                0 < w;
        lemma_div_is_ordered(s1 * s1, e2 * (8 * w), 8 * w);
        lemma_div_by_multiple(e2, 8 * w);
    } else {
        // both inside the blend
        let s1 = 2 * e1 + w;
        let s2 = 2 * e2 + w;
        assert(s1 * s1 <= s2 * s2) by (nonlinear_arith)
            requires
                0 < s1,
                s1 <= s2;
        lemma_div_is_ordered(s1 * s1, s2 * s2, 8 * w);
    }
}

/// The target gain is never positive and never exceeds the excess in
/// magnitude.
pub proof fn lemma_target_gain_bounds(e: int, r: int)
    requires
        0 < r,
    ensures
        spec_target_gain(e, r) <= 0,
        e > 0 ==> -e <= spec_target_gain(e, r),
        e <= 0 ==> spec_target_gain(e, r) == 0,
{
    if e > 0 {
        lemma_mul_inequality(0, e, r - 1);
        lemma_div_is_ordered(0, e * (r - 1), r);
        lemma_mul_inequality(r - 1, r, e);
        lemma_div_is_ordered(e * (r - 1), e * r, r);
        lemma_div_by_multiple(e, r);
        assert(e * (r - 1) == (r - 1) * e);
        assert(e * r == r * e);
    }
}

/// Dynamics gain computer: threshold, ratio and knee configuration plus the
/// two smoothing states of the excess detector and the applied gain.
pub struct GainComputer {
    threshold_mdb: i64,
    ratio: Ratio,
    knee_mdb: i64,
    excess: DirSmoother,
    gain: DirSmoother,
}

impl GainComputer {
    /// Threshold in millidecibels.
    pub closed spec fn spec_threshold(self) -> int {
        self.threshold_mdb as int
    }

    /// The configured ratio.
    pub closed spec fn spec_ratio(self) -> Ratio {
        self.ratio
    }

    /// Knee width in millidecibels.
    pub closed spec fn spec_knee(self) -> int {
        self.knee_mdb as int
    }

    /// Smoothed knee-shaped excess, in millidecibels.
    pub closed spec fn spec_excess(self) -> int {
        self.excess.spec_value()
    }

    /// Smoothed applied gain, in millidecibels (never positive).
    pub closed spec fn spec_gain(self) -> int {
        self.gain.spec_value()
    }

    /// Detector coefficient pair (attack when the excess rises, release
    /// when it falls).
    pub closed spec fn spec_detector_coeffs(self) -> (int, int) {
        (self.excess.spec_up(), self.excess.spec_down())
    }

    /// Gain coefficient pair (attack when the gain falls toward more
    /// reduction, release when it recovers).
    pub closed spec fn spec_gain_coeffs(self) -> (int, int) {
        (self.gain.spec_down(), self.gain.spec_up())
    }

    /// The excess smoother as a specification value.
    pub closed spec fn spec_excess_smoother(self) -> DirSmoother {
        self.excess
    }

    /// The gain smoother as a specification value.
    pub closed spec fn spec_gain_smoother(self) -> DirSmoother {
        self.gain
    }

    /// Configuration in range and both smoothing states inside the bounds
    /// the path can produce: the excess is nonnegative, the gain never
    /// positive, both of magnitude at most `PATH_LIMIT`.
    pub open spec fn wf(self) -> bool {
        &&& -MDB_LIMIT <= self.spec_threshold() <= MDB_LIMIT
        &&& 0 <= self.spec_knee() <= KNEE_LIMIT
        &&& self.spec_excess_smoother().wf()
        &&& self.spec_gain_smoother().wf()
        &&& 0 <= self.spec_excess() <= PATH_LIMIT
        &&& -PATH_LIMIT <= self.spec_gain() <= 0
    }

    /// A computer with the given configuration and cleared smoothing state.
    /// Out-of-range configuration is clamped to the nearest valid value
    /// rather than rejected.
    pub fn new(
        threshold_mdb: i64,
        ratio: Ratio,
        knee_mdb: i64,
        det_attack_q16: u32,
        det_release_q16: u32,
        gain_attack_q16: u32,
        gain_release_q16: u32,
    ) -> (c: GainComputer)
        ensures
            c.wf(),
            c.spec_threshold() == clamp_i64(threshold_mdb as int, -MDB_LIMIT as int, MDB_LIMIT as int),
            c.spec_ratio() == ratio,
            c.spec_knee() == clamp_i64(knee_mdb as int, 0, KNEE_LIMIT as int),
            c.spec_excess() == 0,
            c.spec_gain() == 0,
            c.spec_detector_coeffs() == (spec_clamp_coeff(det_attack_q16 as int), spec_clamp_coeff(det_release_q16 as int)),
            c.spec_gain_coeffs() == (spec_clamp_coeff(gain_attack_q16 as int), spec_clamp_coeff(gain_release_q16 as int)),
    {
        GainComputer {
            threshold_mdb: clamp_exec(threshold_mdb, -MDB_LIMIT, MDB_LIMIT),
            ratio,
            knee_mdb: clamp_exec(knee_mdb, 0, KNEE_LIMIT),
            excess: DirSmoother::new(det_attack_q16, det_release_q16),
            gain: DirSmoother::new(gain_release_q16, gain_attack_q16),
        }
    }

    /// Change the threshold (clamped), keeping all state.
    pub fn set_threshold(&mut self, threshold_mdb: i64)
        requires
            old(self).wf(),
        ensures
            final(self).wf(),
            final(self).spec_threshold() == clamp_i64(threshold_mdb as int, -MDB_LIMIT as int, MDB_LIMIT as int),
            final(self).spec_ratio() == old(self).spec_ratio(),
            final(self).spec_knee() == old(self).spec_knee(),
            final(self).spec_excess() == old(self).spec_excess(),
            final(self).spec_gain() == old(self).spec_gain(),
            final(self).spec_detector_coeffs() == old(self).spec_detector_coeffs(),
            final(self).spec_gain_coeffs() == old(self).spec_gain_coeffs(),
    {
        self.threshold_mdb = clamp_exec(threshold_mdb, -MDB_LIMIT, MDB_LIMIT);
    }

    /// Change the ratio, keeping all state.
    pub fn set_ratio(&mut self, ratio: Ratio)
        requires
            old(self).wf(),
        ensures
            final(self).wf(),
            final(self).spec_ratio() == ratio,
            final(self).spec_threshold() == old(self).spec_threshold(),
            final(self).spec_knee() == old(self).spec_knee(),
            final(self).spec_excess() == old(self).spec_excess(),
            final(self).spec_gain() == old(self).spec_gain(),
            final(self).spec_detector_coeffs() == old(self).spec_detector_coeffs(),
            final(self).spec_gain_coeffs() == old(self).spec_gain_coeffs(),
    {
        self.ratio = ratio;
    }

    /// Change the knee width (clamped), keeping all state.
    pub fn set_knee(&mut self, knee_mdb: i64)
        requires
            old(self).wf(),
        ensures
            final(self).wf(),
            final(self).spec_knee() == clamp_i64(knee_mdb as int, 0, KNEE_LIMIT as int),
            final(self).spec_threshold() == old(self).spec_threshold(),
            final(self).spec_ratio() == old(self).spec_ratio(),
            final(self).spec_excess() == old(self).spec_excess(),
            final(self).spec_gain() == old(self).spec_gain(),
            final(self).spec_detector_coeffs() == old(self).spec_detector_coeffs(),
            final(self).spec_gain_coeffs() == old(self).spec_gain_coeffs(),
    {
        self.knee_mdb = clamp_exec(knee_mdb, 0, KNEE_LIMIT);
    }

    /// Replace the detector coefficient pair, keeping all state.
    pub fn set_detector_coeffs(&mut self, attack_q16: u32, release_q16: u32)
        requires
            old(self).wf(),
        ensures
            final(self).wf(),
            final(self).spec_detector_coeffs() == (spec_clamp_coeff(attack_q16 as int), spec_clamp_coeff(release_q16 as int)),
            final(self).spec_gain_coeffs() == old(self).spec_gain_coeffs(),
            final(self).spec_threshold() == old(self).spec_threshold(),
            final(self).spec_ratio() == old(self).spec_ratio(),
            final(self).spec_knee() == old(self).spec_knee(),
            final(self).spec_excess() == old(self).spec_excess(),
            final(self).spec_gain() == old(self).spec_gain(),
    {
        self.excess.set_coeffs(attack_q16, release_q16);
    }

    /// Replace the gain coefficient pair, keeping all state.  The attack
    /// coefficient acts while the gain falls toward deeper reduction, the
    /// release while it recovers toward zero.
    pub fn set_gain_coeffs(&mut self, attack_q16: u32, release_q16: u32)
        requires
            old(self).wf(),
        ensures
            final(self).wf(),
            final(self).spec_gain_coeffs() == (spec_clamp_coeff(attack_q16 as int), spec_clamp_coeff(release_q16 as int)),
            final(self).spec_detector_coeffs() == old(self).spec_detector_coeffs(),
            final(self).spec_threshold() == old(self).spec_threshold(),
            final(self).spec_ratio() == old(self).spec_ratio(),
            final(self).spec_knee() == old(self).spec_knee(),
            final(self).spec_excess() == old(self).spec_excess(),
            final(self).spec_gain() == old(self).spec_gain(),
    {
        self.gain.set_coeffs(release_q16, attack_q16);
    }

    /// The smoothed applied gain as it stands, in millidecibels.
    pub fn gain_mdb(&self) -> (g: i64)
        ensures
            g == self.spec_gain(),
    {
        self.gain.value()
    }

    /// One sample of the gain path: knee-shape the excess of the detected
    /// level over the threshold, smooth it, derive the gain-reduction
    /// target through the ratio, smooth that toward the applied gain, and
    /// hand the result back.  The returned gain is always a reduction (at
    /// most zero) of bounded magnitude, whatever the level.
    pub fn process_level(&mut self, level_mdb: i64) -> (gain_mdb: i64)
        requires
            old(self).wf(),
            -MDB_LIMIT <= level_mdb <= MDB_LIMIT,
        ensures
            final(self).wf(),
            final(self).spec_threshold() == old(self).spec_threshold(),
            final(self).spec_ratio() == old(self).spec_ratio(),
            final(self).spec_knee() == old(self).spec_knee(),
            final(self).spec_detector_coeffs() == old(self).spec_detector_coeffs(),
            final(self).spec_gain_coeffs() == old(self).spec_gain_coeffs(),
            final(self).spec_excess() == spec_excess_next(
                old(self).spec_excess(),
                old(self).spec_detector_coeffs().0,
                old(self).spec_detector_coeffs().1,
                old(self).spec_threshold(),
                old(self).spec_knee(),
                level_mdb as int,
            ),
            final(self).spec_gain() == spec_gain_next(
                old(self).spec_gain(),
                old(self).spec_gain_coeffs().1,
                old(self).spec_gain_coeffs().0,
                old(self).spec_ratio().spec_value(),
                final(self).spec_excess(),
            ),
            gain_mdb == final(self).spec_gain(),
            -PATH_LIMIT <= gain_mdb <= 0,
    {
        let excess_mdb = level_mdb - self.threshold_mdb;
        let knee_excess = soft_knee(excess_mdb, self.knee_mdb);
        proof {
            lemma_knee_bounds(excess_mdb as int, self.knee_mdb as int);
        }
        let smoothed_excess = self.excess.tick(knee_excess);
        let target = target_gain_mdb(smoothed_excess, self.ratio);
        proof {
            lemma_target_gain_bounds(smoothed_excess as int, self.ratio.spec_value());
        }
        self.gain.tick(target)
    }

    /// Clear the transient state — smoothed excess and applied gain — while
    /// every configuration value survives.  The state afterwards equals
    /// that of a freshly constructed computer with the same configuration,
    /// so the same inputs then produce the same outputs again.
    pub fn reset(&mut self)
        requires
            old(self).wf(),
        ensures
            final(self).wf(),
            final(self).spec_excess() == 0,
            final(self).spec_gain() == 0,
            final(self).spec_threshold() == old(self).spec_threshold(),
            final(self).spec_ratio() == old(self).spec_ratio(),
            final(self).spec_knee() == old(self).spec_knee(),
            final(self).spec_detector_coeffs() == old(self).spec_detector_coeffs(),
            final(self).spec_gain_coeffs() == old(self).spec_gain_coeffs(),
    {
        self.excess.reset();
        self.gain.reset();
    }
}

/// Law (steady state): once the smoothed excess has settled on the
/// knee-shaped excess of a steady level, and the gain on the target that
/// excess demands, a further sample changes neither — the applied gain rests
/// at exactly `-(e * (r - 1)) / r`, the integer form of `-e * (1 - 1/r)`.
pub proof fn lemma_steady_state_gain(
    level: int,
    threshold: int,
    knee: int,
    ratio: int,
    det_up: int,
    det_down: int,
    gain_up: int,
    gain_down: int,
)
    ensures
        ({
            let k = spec_soft_knee(level - threshold, knee);
            spec_excess_next(k, det_up, det_down, threshold, knee, level) == k
        }),
        ({
            let k = spec_soft_knee(level - threshold, knee);
            let g = spec_target_gain(k, ratio);
            spec_gain_next(g, gain_up, gain_down, ratio, k) == g
        }),
{
    let k = spec_soft_knee(level - threshold, knee);
    let g = spec_target_gain(k, ratio);
    lemma_step_fixed_point(k, det_up, det_down);
    lemma_step_fixed_point(g, gain_up, gain_down);
}

/// Clamping to a closed interval, spec form.
pub open spec fn clamp_i64(x: int, lo: int, hi: int) -> int {
    if x < lo {
        lo
    } else if x > hi {
        hi
    } else {
        x
    }
}

/// Clamping to a closed interval.
fn clamp_exec(x: i64, lo: i64, hi: i64) -> (r: i64)
    requires
        lo <= hi,
    ensures
        r == clamp_i64(x as int, lo as int, hi as int),
{
    if x < lo {
        lo
    } else if x > hi {
        hi
    } else {
        x
    }
}

} // verus!
