use kvp_channel::smoother::DirSmoother;

#[test]
fn smoother_rises_by_up_fraction() {
    // Half coefficient: half the remaining distance per step, floored.
    let mut s = DirSmoother::new(32_768, 16_384);
    assert_eq!(s.tick(1000), 500);
    assert_eq!(s.tick(1000), 750);
    assert_eq!(s.value(), 750);
}

#[test]
fn smoother_falls_by_down_fraction() {
    let mut s = DirSmoother::new(32_768, 16_384);
    s.tick(1000);
    s.tick(1000);
    // Falling uses the other coefficient: a quarter of the distance.
    // 750 - floor(16384 * 750 / 65536) = 750 - 187.
    assert_eq!(s.tick(0), 563);
}

#[test]
fn smoother_full_coefficient_jumps() {
    let mut s = DirSmoother::new(65_536, 65_536);
    assert_eq!(s.tick(12_345), 12_345);
    assert_eq!(s.tick(-67), -67);
}

#[test]
fn smoother_zero_coefficient_freezes() {
    let mut s = DirSmoother::new(0, 0);
    assert_eq!(s.tick(1000), 0);
    assert_eq!(s.tick(-1000), 0);
}

#[test]
fn smoother_at_target_stays_put() {
    let mut s = DirSmoother::new(30_000, 10_000);
    let settled = s.tick(0);
    assert_eq!(settled, 0);
    s.tick(800);
    s.tick(800);
    let v = s.value();
    assert_eq!(s.tick(v), v);
}

#[test]
fn smoother_never_overshoots() {
    let mut s = DirSmoother::new(60_000, 40_000);
    let mut prev: i64 = 0;
    for _ in 0..50 {
        let v = s.tick(1_000_000);
        assert!(prev <= v && v <= 1_000_000);
        prev = v;
    }
    for _ in 0..50 {
        let v = s.tick(-500);
        assert!(-500 <= v && v <= prev);
        prev = v;
    }
}

#[test]
fn smoother_clamps_oversized_coefficients() {
    // A coefficient above one degrades to one: the value jumps to target.
    let mut s = DirSmoother::new(1_000_000, 2_000_000);
    assert_eq!(s.tick(42), 42);
    assert_eq!(s.tick(-42), -42);
}

#[test]
fn smoother_reset_clears_value_keeps_coefficients() {
    let mut s = DirSmoother::new(32_768, 32_768);
    s.tick(1000);
    s.reset();
    assert_eq!(s.value(), 0);
    // Behaves like a fresh smoother with the same coefficients.
    let mut fresh = DirSmoother::new(32_768, 32_768);
    assert_eq!(s.tick(600), fresh.tick(600));
}
