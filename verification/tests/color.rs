use kvp_channel::color::{
    bright_harmonic_ppm, vintage_factor_ppm, warm_boost_mdb, ColorizerControl,
};
use kvp_channel::params::ColorType;

#[test]
fn intensity_derives_drive_and_saturation() {
    let mut c = ColorizerControl::new(ColorType::Warm, 500, 30_000, 10_000);
    assert_eq!(c.drive_permille(), 2_500); // 1 + 3 * 0.5
    assert_eq!(c.saturation_permille(), 200); // 0.4 * 0.5
    c.set_intensity(250);
    assert_eq!(c.drive_permille(), 1_750);
    assert_eq!(c.saturation_permille(), 100);
}

#[test]
fn intensity_above_one_is_clamped() {
    let mut c = ColorizerControl::new(ColorType::Warm, 5_000, 30_000, 10_000);
    assert_eq!(c.drive_permille(), 4_000);
    assert_eq!(c.saturation_permille(), 400);
    c.set_intensity(1_001);
    assert_eq!(c.drive_permille(), 4_000);
    assert_eq!(c.output_comp_permille(), 1_000);
}

#[test]
fn zero_intensity_is_neutral_but_for_fixed_comp() {
    // Drive unity, saturation gone, every coloration amount neutral; only
    // the loudness-compensation divisor of one half remains.
    let mut c = ColorizerControl::new(ColorType::Warm, 500, 30_000, 10_000);
    c.set_intensity(0);
    assert_eq!(c.drive_permille(), 1_000);
    assert_eq!(c.saturation_permille(), 0);
    assert_eq!(c.output_comp_permille(), 500);
    assert_eq!(warm_boost_mdb(8_000, 0), 0);
    assert_eq!(bright_harmonic_ppm(8_000, 0), 0);
    assert_eq!(vintage_factor_ppm(8_000, 0), 1_000_000);
}

#[test]
fn coloration_amount_formulas() {
    // excess 8 dB at full intensity.
    assert_eq!(warm_boost_mdb(8_000, 1_000), 2_400); // 8 * 0.3 dB
    assert_eq!(bright_harmonic_ppm(8_000, 1_000), 333_333); // 8/24
    assert_eq!(vintage_factor_ppm(8_000, 1_000), 840_000); // 1 - 0.16
}

#[test]
fn coloration_amounts_neutral_without_excess() {
    assert_eq!(warm_boost_mdb(0, 1_000), 0);
    assert_eq!(warm_boost_mdb(-6_000, 1_000), 0);
    assert_eq!(bright_harmonic_ppm(-1, 700), 0);
    assert_eq!(vintage_factor_ppm(-9_000, 900), 1_000_000);
}

#[test]
fn excess_detection_uses_character_threshold() {
    // Warm threshold is -12 dB; instant coefficients expose the raw excess.
    let mut c = ColorizerControl::new(ColorType::Warm, 500, 65_536, 65_536);
    assert_eq!(c.threshold_mdb(), -12_000);
    assert_eq!(c.process_level(-2_000), 10_000);
    assert_eq!(c.process_level(-22_000), -10_000);
}

#[test]
fn character_change_swaps_threshold_and_coefficients() {
    let mut c = ColorizerControl::new(ColorType::Warm, 500, 65_536, 65_536);
    c.process_level(-2_000);
    // Switching characters installs the new coefficient pair: frozen here.
    c.set_color_type(ColorType::Bright, 0, 0);
    assert_eq!(c.threshold_mdb(), -24_000);
    let before = c.process_level(0);
    let after = c.process_level(-50_000);
    assert_eq!(before, after); // zero coefficients: the excess is frozen
}

#[test]
fn reselecting_character_changes_nothing() {
    let mut c = ColorizerControl::new(ColorType::Warm, 500, 65_536, 65_536);
    // Handing over zero coefficients with the same character is ignored.
    c.set_color_type(ColorType::Warm, 0, 0);
    assert_eq!(c.process_level(-2_000), 10_000); // still instant
}

#[test]
fn color_reset_clears_only_smoothing_state() {
    let mut a = ColorizerControl::new(ColorType::Vintage, 700, 20_000, 5_000);
    let mut b = ColorizerControl::new(ColorType::Vintage, 700, 20_000, 5_000);
    for level in [-3_000i64, -1_000, -9_000] {
        a.process_level(level);
    }
    a.reset();
    // Intensity-derived settings survive; transient state replays fresh.
    assert_eq!(a.drive_permille(), 3_100);
    let levels = [-4_000i64, -16_000, -2_500, -30_000];
    let out_a: Vec<i64> = levels.iter().map(|&l| a.process_level(l)).collect();
    let out_b: Vec<i64> = levels.iter().map(|&l| b.process_level(l)).collect();
    assert_eq!(out_a, out_b);
}
