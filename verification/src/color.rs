//! Control state of the harmonic colorizer.
//!
//! The colorizer drives the signal into a character-specific waveshaper and
//! then colours it in proportion to how far the shaped level rises above a
//! per-character threshold.  The waveshaping itself is transcendental and
//! lives with the host layer; everything the engine decides — the drive and
//! saturation amounts derived from the intensity control, the excess
//! detection and its asymmetric smoothing, and the per-character coloration
//! amounts — is exact integer arithmetic and lives here.
//!
//! Units: intensity, drive and saturation are in permille (a drive of 1000
//! is unity); levels and excesses are millidecibels; harmonic and
//! compression amounts are parts per million.

use vstd::prelude::*;
use vstd::arithmetic::mul::lemma_mul_upper_bound;
use crate::params::ColorType;
use crate::smoother::{DirSmoother, spec_step, spec_clamp_coeff};

verus! {

/// Largest level magnitude the colorizer accepts, in millidecibels.
pub const COLOR_MDB_LIMIT: i64 = 1_000_000_000;

/// Largest excess magnitude the smoother can then hold: level minus the
/// deepest character threshold.
pub const COLOR_EXCESS_LIMIT: i64 = COLOR_MDB_LIMIT + 24000;

/// Drive derived from intensity: `1 + 3 * intensity`, in permille.
pub open spec fn spec_drive_permille(intensity_pm: int) -> int {
    1000 + 3 * intensity_pm
}

/// Saturation amount derived from intensity: `0.4 * intensity`, in
/// permille.
pub open spec fn spec_saturation_permille(intensity_pm: int) -> int {
    (intensity_pm * 400) / 1000
}

/// Loudness-compensation divisor `0.5 + 0.5 * intensity`, in permille.
pub open spec fn spec_output_comp_permille(intensity_pm: int) -> int {
    500 + intensity_pm / 2
}

/// Warm coloration: level boost in millidecibels, `excess * 0.3 *
/// intensity` for positive smoothed excess.
pub open spec fn spec_warm_boost_mdb(excess: int, intensity_pm: int) -> int {
    if excess > 0 {
        (excess * 3 * intensity_pm) / 10000
    } else {
        0
    }
}

/// Bright coloration: harmonic amount in parts per million,
/// `(excess / 24 dB) * intensity` for positive smoothed excess.
pub open spec fn spec_bright_harmonic_ppm(excess: int, intensity_pm: int) -> int {
    if excess > 0 {
        (excess * intensity_pm) / 24
    } else {
        0
    }
}

/// Vintage coloration: compression factor in parts per million,
/// `1 - excess * 0.02 * intensity` for positive smoothed excess, unity
/// otherwise.
pub open spec fn spec_vintage_factor_ppm(excess: int, intensity_pm: int) -> int {
    if excess > 0 {
        1000000 - (excess * intensity_pm) / 50
    } else {
        1000000
    }
}

/// Control state of the colorizer: the character, the intensity with its
/// two derived amounts, and the smoothed excess.
pub struct ColorizerControl {
    color_type: ColorType,
    intensity_pm: u32,
    drive_pm: u32,
    saturation_pm: u32,
    excess: DirSmoother,
}

impl ColorizerControl {
    /// The selected character.
    pub closed spec fn spec_color_type(self) -> ColorType {
        self.color_type
    }

    /// Intensity in permille.
    pub closed spec fn spec_intensity(self) -> int {
        self.intensity_pm as int
    }

    /// Drive in permille.
    pub closed spec fn spec_drive(self) -> int {
        self.drive_pm as int
    }

    /// Saturation amount in permille.
    pub closed spec fn spec_saturation(self) -> int {
        self.saturation_pm as int
    }

    /// Smoothed excess over the character threshold, in millidecibels.
    pub closed spec fn spec_excess(self) -> int {
        self.excess.spec_value()
    }

    /// Detection coefficient pair (attack when the excess rises, release
    /// when it falls).
    pub closed spec fn spec_coeffs(self) -> (int, int) {
        (self.excess.spec_up(), self.excess.spec_down())
    }

    /// The excess smoother as a specification value.
    pub closed spec fn spec_smoother(self) -> DirSmoother {
        self.excess
    }

    /// Intensity in range, the derived amounts exactly derived, and the
    /// smoothed excess inside the range its targets span.
    pub open spec fn wf(self) -> bool {
        &&& 0 <= self.spec_intensity() <= 1000
        &&& self.spec_drive() == spec_drive_permille(self.spec_intensity())
        &&& self.spec_saturation() == spec_saturation_permille(self.spec_intensity())
        &&& self.spec_smoother().wf()
        &&& -COLOR_EXCESS_LIMIT <= self.spec_excess() <= COLOR_EXCESS_LIMIT
    }

    /// A control at the given character and intensity, with cleared
    /// smoothing state.  Intensity above one (permille above 1000) is
    /// clamped; coefficients above one likewise.
    pub fn new(
        color_type: ColorType,
        intensity_pm: u32,
        attack_q16: u32,
        release_q16: u32,
    ) -> (c: ColorizerControl)
        ensures
            c.wf(),
            c.spec_color_type() == color_type,
            c.spec_intensity() == (if intensity_pm <= 1000 { intensity_pm as int } else { 1000int }),
            c.spec_excess() == 0,
    {
        let pm: u32 = if intensity_pm <= 1000 { intensity_pm } else { 1000 };
        ColorizerControl {
            color_type,
            intensity_pm: pm,
            drive_pm: 1000 + 3 * pm,
            saturation_pm: (pm * 400) / 1000,
            excess: DirSmoother::new(attack_q16, release_q16),
        }
    }

    /// Set the intensity (clamped to at most one) and rederive drive and
    /// saturation from it; everything else is untouched.
    pub fn set_intensity(&mut self, intensity_pm: u32)
        requires
            old(self).wf(),
        ensures
            final(self).wf(),
            final(self).spec_intensity() == (if intensity_pm <= 1000 { intensity_pm as int } else { 1000int }),
            final(self).spec_drive() == spec_drive_permille(final(self).spec_intensity()),
            final(self).spec_saturation() == spec_saturation_permille(final(self).spec_intensity()),
            final(self).spec_color_type() == old(self).spec_color_type(),
            final(self).spec_excess() == old(self).spec_excess(),
            final(self).spec_coeffs() == old(self).spec_coeffs(),
    {
        let pm: u32 = if intensity_pm <= 1000 { intensity_pm } else { 1000 };
        self.intensity_pm = pm;
        self.drive_pm = 1000 + 3 * pm;
        self.saturation_pm = (pm * 400) / 1000;
    }

    /// Switch the character.  Only an actual change touches the smoothing
    /// coefficients (which the caller rederives for the new character);
    /// selecting the current character again changes nothing at all.
    pub fn set_color_type(&mut self, color_type: ColorType, attack_q16: u32, release_q16: u32)
        requires
            old(self).wf(),
        ensures
            final(self).wf(),
            final(self).spec_color_type() == color_type,
            final(self).spec_intensity() == old(self).spec_intensity(),
            final(self).spec_drive() == old(self).spec_drive(),
            final(self).spec_saturation() == old(self).spec_saturation(),
            final(self).spec_excess() == old(self).spec_excess(),
            color_type == old(self).spec_color_type() ==> final(self).spec_coeffs() == old(self).spec_coeffs(),
            color_type != old(self).spec_color_type() ==> final(self).spec_coeffs() == (
                spec_clamp_coeff(attack_q16 as int),
                spec_clamp_coeff(release_q16 as int),
            ),
    {
        if !(self.color_type == color_type) {
            self.color_type = color_type;
            self.excess.set_coeffs(attack_q16, release_q16);
        }
    }

    /// The character threshold the detector compares against, in
    /// millidecibels.
    pub fn threshold_mdb(&self) -> (t: i64)
        ensures
            t == self.spec_color_type().spec_threshold_mdb(),
    {
        self.color_type.threshold_mdb()
    }

    /// Drive in permille.
    pub fn drive_permille(&self) -> (d: u32)
        ensures
            d == self.spec_drive(),
    {
        self.drive_pm
    }

    /// Saturation amount in permille.
    pub fn saturation_permille(&self) -> (s: u32)
        ensures
            s == self.spec_saturation(),
    {
        self.saturation_pm
    }

    /// Loudness-compensation divisor in permille for the current intensity.
    pub fn output_comp_permille(&self) -> (c: u32)
        requires
            self.wf(),
        ensures
            c == spec_output_comp_permille(self.spec_intensity()),
    {
        500 + self.intensity_pm / 2
    }

    /// One sample of excess detection: smooth the level's excess over the
    /// character threshold with the asymmetric coefficient pair and hand
    /// the smoothed excess back for the coloration stage.
    pub fn process_level(&mut self, level_mdb: i64) -> (excess_mdb: i64)
        requires
            old(self).wf(),
            -COLOR_MDB_LIMIT <= level_mdb <= COLOR_MDB_LIMIT,
        ensures
            final(self).wf(),
            final(self).spec_color_type() == old(self).spec_color_type(),
            final(self).spec_intensity() == old(self).spec_intensity(),
            final(self).spec_drive() == old(self).spec_drive(),
            final(self).spec_saturation() == old(self).spec_saturation(),
            final(self).spec_coeffs() == old(self).spec_coeffs(),
            final(self).spec_excess() == spec_step(
                old(self).spec_excess(),
                old(self).spec_coeffs().0,
                old(self).spec_coeffs().1,
                level_mdb - old(self).spec_color_type().spec_threshold_mdb(),
            ),
            excess_mdb == final(self).spec_excess(),
            -COLOR_EXCESS_LIMIT <= excess_mdb <= COLOR_EXCESS_LIMIT,
    {
        let threshold = self.color_type.threshold_mdb();
        let target = level_mdb - threshold;
        self.excess.tick(target)
    }

    /// Clear the smoothing state — and only it: character, intensity and
    /// the amounts derived from it persist until explicitly changed.  The
    /// transient state afterwards equals that of a freshly constructed
    /// control, so the same inputs then produce the same outputs again.
    pub fn reset(&mut self)
        requires
            old(self).wf(),
        ensures
            final(self).wf(),
            final(self).spec_excess() == 0,
            final(self).spec_color_type() == old(self).spec_color_type(),
            final(self).spec_intensity() == old(self).spec_intensity(),
            final(self).spec_drive() == old(self).spec_drive(),
            final(self).spec_saturation() == old(self).spec_saturation(),
            final(self).spec_coeffs() == old(self).spec_coeffs(),
    {
        self.excess.reset();
    }
}

/// Warm coloration boost for a smoothed excess at an intensity, in
/// millidecibels.
pub fn warm_boost_mdb(excess_mdb: i64, intensity_pm: u32) -> (b: i64)
    requires
        -COLOR_EXCESS_LIMIT <= excess_mdb <= COLOR_EXCESS_LIMIT,
        intensity_pm <= 1000,
    ensures
        b == spec_warm_boost_mdb(excess_mdb as int, intensity_pm as int),
{
    if excess_mdb > 0 {
        proof {
            lemma_mul_upper_bound(excess_mdb as int, COLOR_EXCESS_LIMIT as int, 3, 3);
            lemma_mul_upper_bound(excess_mdb * 3, 3 * COLOR_EXCESS_LIMIT as int, intensity_pm as int, 1000);
        }
        let num: u64 = (excess_mdb as u64) * 3 * (intensity_pm as u64);
        let b: u64 = num / 10000;
        b as i64
    } else {
        0
    }
}

/// Bright coloration harmonic amount for a smoothed excess at an
/// intensity, in parts per million.
pub fn bright_harmonic_ppm(excess_mdb: i64, intensity_pm: u32) -> (h: i64)
    requires
        -COLOR_EXCESS_LIMIT <= excess_mdb <= COLOR_EXCESS_LIMIT,
        intensity_pm <= 1000,
    ensures
        h == spec_bright_harmonic_ppm(excess_mdb as int, intensity_pm as int),
{
    if excess_mdb > 0 {
        proof {
            lemma_mul_upper_bound(excess_mdb as int, COLOR_EXCESS_LIMIT as int, intensity_pm as int, 1000);
        }
        let num: u64 = (excess_mdb as u64) * (intensity_pm as u64);
        let h: u64 = num / 24;
        h as i64
    } else {
        0
    }
}

/// Vintage coloration compression factor for a smoothed excess at an
/// intensity, in parts per million of unity.
pub fn vintage_factor_ppm(excess_mdb: i64, intensity_pm: u32) -> (f: i64)
    requires
        -COLOR_EXCESS_LIMIT <= excess_mdb <= COLOR_EXCESS_LIMIT,
        intensity_pm <= 1000,
    ensures
        f == spec_vintage_factor_ppm(excess_mdb as int, intensity_pm as int),
{
    if excess_mdb > 0 {
        proof {
            lemma_mul_upper_bound(excess_mdb as int, COLOR_EXCESS_LIMIT as int, intensity_pm as int, 1000);
        }
        let num: u64 = (excess_mdb as u64) * (intensity_pm as u64);
        let sub: u64 = num / 50;
        1000000 - (sub as i64)
    } else {
        1000000
    }
}

/// Law (neutral at zero intensity): with the intensity control at zero the
/// drive is unity, the saturation amount zero, and every character's
/// coloration amount is neutral — no boost, no added harmonics, a unity
/// compression factor — whatever the smoothed excess.  Only the fixed
/// loudness-compensation divisor of one half remains away from unity.
pub proof fn lemma_zero_intensity_neutral(excess: int)
    ensures
        spec_drive_permille(0) == 1000,
        spec_saturation_permille(0) == 0,
        spec_warm_boost_mdb(excess, 0) == 0,
        spec_bright_harmonic_ppm(excess, 0) == 0,
        spec_vintage_factor_ppm(excess, 0) == 1000000,
        spec_output_comp_permille(0) == 500,
{
    assert(excess * 3 * 0 == 0) by (nonlinear_arith);
    assert(excess * 0 == 0) by (nonlinear_arith);
}

} // verus!
