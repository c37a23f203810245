use kvp_channel::dynamics::{soft_knee, target_gain_mdb, GainComputer};
use kvp_channel::params::Ratio;

#[test]
fn knee_zero_below_half_width() {
    assert_eq!(soft_knee(-3_000, 6_000), 0);
    assert_eq!(soft_knee(-50_000, 6_000), 0);
}

#[test]
fn knee_identity_above_half_width() {
    assert_eq!(soft_knee(3_000, 6_000), 3_000);
    assert_eq!(soft_knee(25_000, 6_000), 25_000);
}

#[test]
fn knee_quadratic_blend_inside() {
    // (2e + w)^2 / (8 w) in millidecibels: at the threshold itself the
    // blend contributes exactly an eighth of the width.
    assert_eq!(soft_knee(0, 6_000), 750);
    assert_eq!(soft_knee(1_500, 6_000), 1_687); // 9000^2 / 48000 = 1687.5
    assert_eq!(soft_knee(-1_500, 6_000), 187); // 3000^2 / 48000 = 187.5
}

#[test]
fn knee_continuous_at_both_edges() {
    // Just inside each edge the blend is within one millidecibel of the
    // neighbouring branch's value at the edge.
    assert_eq!(soft_knee(-3_000, 6_000), 0);
    assert!(soft_knee(-2_999, 6_000) <= 1);
    assert_eq!(soft_knee(3_000, 6_000), 3_000);
    assert!((soft_knee(2_999, 6_000) - 2_999).abs() <= 1);
}

#[test]
fn knee_zero_width_is_hard_knee() {
    assert_eq!(soft_knee(-1, 0), 0);
    assert_eq!(soft_knee(0, 0), 0);
    assert_eq!(soft_knee(1, 0), 1);
    assert_eq!(soft_knee(7_000, 0), 7_000);
}

#[test]
fn knee_monotone_samples() {
    let mut prev: i64 = soft_knee(-4_000, 6_000);
    let mut e: i64 = -4_000;
    while e <= 4_000 {
        let k = soft_knee(e, 6_000);
        assert!(k >= prev);
        prev = k;
        e += 25;
    }
}

#[test]
fn target_gain_formula() {
    // -e * (1 - 1/r), carried out as -(e * (r - 1)) / r.
    assert_eq!(target_gain_mdb(8_000, Ratio::Half), -4_000);
    assert_eq!(target_gain_mdb(8_000, Ratio::Third), -5_333);
    assert_eq!(target_gain_mdb(8_000, Ratio::Quarter), -6_000);
}

#[test]
fn target_gain_zero_without_excess() {
    assert_eq!(target_gain_mdb(0, Ratio::Quarter), 0);
    assert_eq!(target_gain_mdb(-2_500, Ratio::Half), 0);
}

#[test]
fn steady_input_settles_on_ratio_gain() {
    // With instant coefficients the applied gain lands directly on
    // -e * (1 - 1/r) for a steady level above threshold and knee.
    let mut c = GainComputer::new(-20_000, Ratio::Quarter, 6_000, 65_536, 65_536, 65_536, 65_536);
    let g = c.process_level(-10_000); // 10 dB over threshold
    assert_eq!(g, -7_500);
    // And it stays there: the steady state is a fixed point.
    assert_eq!(c.process_level(-10_000), -7_500);
    assert_eq!(c.process_level(-10_000), -7_500);
}

#[test]
fn gain_reduction_grows_with_ratio() {
    let mut gains: Vec<i64> = Vec::new();
    for ratio in [Ratio::Half, Ratio::Third, Ratio::Quarter] {
        let mut c = GainComputer::new(-20_000, ratio, 6_000, 65_536, 65_536, 65_536, 65_536);
        gains.push(c.process_level(-8_000));
    }
    assert_eq!(gains, vec![-6_000, -8_000, -9_000]);
}

#[test]
fn level_below_threshold_leaves_gain_at_zero() {
    let mut c = GainComputer::new(-20_000, Ratio::Half, 6_000, 65_536, 65_536, 65_536, 65_536);
    assert_eq!(c.process_level(-40_000), 0);
    assert_eq!(c.process_level(-30_000), 0);
}

#[test]
fn gain_is_never_positive() {
    let mut c = GainComputer::new(-10_000, Ratio::Third, 6_000, 40_000, 20_000, 50_000, 15_000);
    for level in [-60_000i64, 0, 12_000, -5_000, 100_000, -120_000] {
        let g = c.process_level(level);
        assert!(g <= 0);
    }
}

#[test]
fn smoothed_gain_approaches_target_gradually() {
    let mut c = GainComputer::new(-20_000, Ratio::Half, 0, 65_536, 65_536, 32_768, 32_768);
    // Detector is instant, gain smoothing halves the distance per step:
    // target is -5000 for a steady 10 dB excess at 2:1.
    let g1 = c.process_level(-10_000);
    assert_eq!(g1, -2_500);
    let g2 = c.process_level(-10_000);
    assert_eq!(g2, -3_750);
    let g3 = c.process_level(-10_000);
    assert!(g3 < g2 && g3 > -5_000);
}

#[test]
fn reset_replays_like_fresh_computer() {
    let levels = [-10_000i64, -5_000, -25_000, -2_000, -18_000, 0, -40_000, -1_000];
    let mut a = GainComputer::new(-18_000, Ratio::Third, 6_000, 30_000, 12_000, 50_000, 20_000);
    let mut b = GainComputer::new(-18_000, Ratio::Third, 6_000, 30_000, 12_000, 50_000, 20_000);
    // Disturb one instance, then reset it.
    for level in [-1_000i64, -2_000, -3_000] {
        a.process_level(level);
    }
    a.reset();
    assert_eq!(a.gain_mdb(), 0);
    let out_a: Vec<i64> = levels.iter().map(|&l| a.process_level(l)).collect();
    let out_b: Vec<i64> = levels.iter().map(|&l| b.process_level(l)).collect();
    assert_eq!(out_a, out_b);
}

#[test]
fn configuration_survives_reset() {
    let mut c = GainComputer::new(-20_000, Ratio::Quarter, 6_000, 65_536, 65_536, 65_536, 65_536);
    c.process_level(-10_000);
    c.reset();
    // Same settled gain as before: threshold, ratio and knee persisted.
    assert_eq!(c.process_level(-10_000), -7_500);
}

#[test]
fn setters_change_later_samples() {
    let mut c = GainComputer::new(-20_000, Ratio::Half, 0, 65_536, 65_536, 65_536, 65_536);
    assert_eq!(c.process_level(-10_000), -5_000);
    c.set_ratio(Ratio::Quarter);
    assert_eq!(c.process_level(-10_000), -7_500);
    c.set_threshold(-30_000);
    // 20 dB excess at 4:1.
    assert_eq!(c.process_level(-10_000), -15_000);
    c.set_knee(6_000);
    c.set_threshold(-10_000);
    // Level right at the threshold: only the knee blend contributes.
    assert_eq!(c.process_level(-10_000), -562); // floor(750 * 3 / 4)
}

#[test]
fn oversized_configuration_is_clamped() {
    let mut c = GainComputer::new(i64::MAX, Ratio::Half, i64::MAX, 65_536, 65_536, 65_536, 65_536);
    // Threshold clamps to +1e9 mdB, knee to 1e6 mdB; the path still
    // produces a plain, bounded answer.
    let g = c.process_level(0);
    assert_eq!(g, 0);
}
