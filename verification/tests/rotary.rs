use image_selector::rotary::{RotaryDelta, RotationEvent};

#[test]
fn dead_band_sequence_never_moves_reference() {
    // Count creeps by at most one relative to the last observed position:
    // zero events, and the reference never moves.
    let mut r = RotaryDelta::new(100);
    assert_eq!(r.update(100), RotationEvent::NoStep);
    assert_eq!(r.last_observed_count(), 100);
    assert_eq!(r.update(101), RotationEvent::NoStep);
    assert_eq!(r.last_observed_count(), 100);
    assert_eq!(r.update(101), RotationEvent::NoStep);
    assert_eq!(r.last_observed_count(), 100);
    assert_eq!(r.update(101), RotationEvent::NoStep);
    assert_eq!(r.last_observed_count(), 100);
}

#[test]
fn step_right_carries_raw_diff() {
    let mut r = RotaryDelta::new(0);
    assert_eq!(r.update(3), RotationEvent::StepRight(3));
    assert_eq!(r.last_observed_count(), 3);
}

#[test]
fn step_left_carries_raw_diff() {
    let mut r = RotaryDelta::new(10);
    assert_eq!(r.update(6), RotationEvent::StepLeft(-4));
    assert_eq!(r.last_observed_count(), 6);
}

#[test]
fn single_count_back_and_forth_is_jitter() {
    let mut r = RotaryDelta::new(50);
    assert_eq!(r.update(51), RotationEvent::NoStep);
    assert_eq!(r.update(49), RotationEvent::NoStep);
    assert_eq!(r.update(50), RotationEvent::NoStep);
    assert_eq!(r.last_observed_count(), 50);
}

#[test]
fn negative_counts_work_the_same() {
    let mut r = RotaryDelta::new(-2);
    assert_eq!(r.update(-4), RotationEvent::StepLeft(-2));
    assert_eq!(r.last_observed_count(), -4);
    assert_eq!(r.update(-2), RotationEvent::StepRight(2));
    assert_eq!(r.last_observed_count(), -2);
}
