use kvp_channel::delay::{lookahead_len, DelayLine};

#[test]
fn delay_by_exactly_capacity() {
    // Output equals the input delayed by the buffer's sample count,
    // independent of the gain path: fill first, then the shifted inputs.
    let mut line: DelayLine<i64> = DelayLine::new(3, 0);
    let inputs = vec![1i64, 2, 3, 4, 5, 6];
    let mut outs: Vec<i64> = Vec::new();
    for x in inputs {
        outs.push(line.tick(x));
    }
    assert_eq!(outs, vec![0, 0, 0, 1, 2, 3]);
}

#[test]
fn delay_capacity_one() {
    let mut line: DelayLine<i64> = DelayLine::new(1, 0);
    assert_eq!(line.tick(10), 0);
    assert_eq!(line.tick(20), 10);
    assert_eq!(line.tick(30), 20);
}

#[test]
fn empty_line_is_passthrough() {
    // A misconfigured (empty) buffer degrades to zero-delay passthrough.
    let mut line: DelayLine<i64> = DelayLine::new(0, 0);
    assert_eq!(line.len(), 0);
    assert_eq!(line.tick(7), 7);
    assert_eq!(line.tick(-3), -3);
}

#[test]
fn reset_equals_fresh_line() {
    // After a reset, a line replays exactly like a freshly built one.
    let mut a: DelayLine<i64> = DelayLine::new(4, 0);
    let mut b: DelayLine<i64> = DelayLine::new(4, 0);
    for x in [5i64, -1, 9, 2, 8, 3] {
        a.tick(x);
    }
    a.reset(0);
    let inputs = [11i64, 12, 13, 14, 15, 16];
    let from_reset: Vec<i64> = inputs.iter().map(|&x| a.tick(x)).collect();
    let from_fresh: Vec<i64> = inputs.iter().map(|&x| b.tick(x)).collect();
    assert_eq!(from_reset, from_fresh);
    assert_eq!(from_reset, vec![0, 0, 0, 0, 11, 12]);
}

#[test]
fn reset_keeps_capacity() {
    let mut line: DelayLine<i64> = DelayLine::new(5, 0);
    line.tick(1);
    line.reset(0);
    assert_eq!(line.len(), 5);
}

#[test]
fn lookahead_length_rounds_to_nearest() {
    // 5 ms of samples: 220.5 at 44.1 kHz rounds up, 240 exactly at 48 kHz.
    assert_eq!(lookahead_len(44_100), 221);
    assert_eq!(lookahead_len(48_000), 240);
    assert_eq!(lookahead_len(96_000), 480);
    assert_eq!(lookahead_len(0), 0);
}

#[test]
fn delay_line_carries_any_copy_type() {
    let mut line: DelayLine<(u8, bool)> = DelayLine::new(2, (0, false));
    assert_eq!(line.tick((1, true)), (0, false));
    assert_eq!(line.tick((2, false)), (0, false));
    assert_eq!(line.tick((3, true)), (1, true));
}
