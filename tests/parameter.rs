use audio_engine::parameter::{clamp_value, Parameter};

#[test]
fn new_clamps_initial_value() {
    let p = Parameter::new(500, 0, 100, 4);
    assert_eq!(p.current, 100);
    assert_eq!(p.target, 100);
    assert_eq!(p.ramp_remaining, 0);
}

#[test]
fn ramp_steps_toward_target() {
    let mut p = Parameter::new(0, 0, 100, 4);
    p.set_target(5);
    assert_eq!(p.ramp_remaining, 4);
    assert_eq!(p.current, 0);
    let got: Vec<i64> = (0..4).map(|_| p.advance_one_sample()).collect();
    assert_eq!(got, vec![1, 2, 3, 5]);
    assert_eq!(p.ramp_remaining, 0);
    assert_eq!(p.advance_one_sample(), 5);
}

#[test]
fn ramp_converges_exactly() {
    for target in [-999_999i64, -7, 0, 1, 13, 16_384, 999_999] {
        for window in [1u32, 3, 7, 240] {
            let mut p = Parameter::new(12_345, -1_000_000, 1_000_000, window);
            p.set_target(target);
            for _ in 0..window {
                p.advance_one_sample();
            }
            assert_eq!(p.current, target);
            assert_eq!(p.ramp_remaining, 0);
        }
    }
}

#[test]
fn ramp_downward() {
    let mut p = Parameter::new(10, 0, 100, 3);
    p.set_target(0);
    let got: Vec<i64> = (0..3).map(|_| p.advance_one_sample()).collect();
    assert_eq!(got, vec![7, 4, 0]);
}

#[test]
fn set_target_clamps() {
    let mut p = Parameter::new(50, 0, 100, 4);
    p.set_target(1_000);
    assert_eq!(p.target, 100);
    p.set_target(-1_000);
    assert_eq!(p.target, 0);
    assert_eq!(clamp_value(7, 0, 5), 5);
    assert_eq!(clamp_value(-7, 0, 5), 0);
    assert_eq!(clamp_value(3, 0, 5), 3);
}

#[test]
fn no_step_exceeds_the_ramp_bound() {
    let window: u32 = 240;
    let mut p = Parameter::new(0, 0, 32_768, window);
    p.set_target(16_384);
    // |16384 - 0| / 240, rounded up.
    let bound: i64 = 69;
    let mut prev = p.current;
    let mut max_step = 0;
    for _ in 0..window {
        let c = p.advance_one_sample();
        max_step = max_step.max((c - prev).abs());
        prev = c;
    }
    assert!(max_step <= bound);
    assert!(max_step > 0);
    assert_eq!(prev, 16_384);
}

#[test]
fn set_target_twice_same_as_once() {
    let mut a = Parameter::new(3, 0, 100, 8);
    let mut b = a;
    a.set_target(60);
    b.set_target(60);
    b.set_target(60);
    for _ in 0..10 {
        assert_eq!(a.advance_one_sample(), b.advance_one_sample());
    }
}
