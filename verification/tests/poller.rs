use image_selector::button::Level;
use image_selector::poller::{Poller, WaitKind};

const HIGH: Level = Level::High;
const LOW: Level = Level::Low;

#[test]
fn startup_renders_default_image_once() {
    let p = Poller::new(0, true);
    assert_eq!(p.startup_render(), Some(0));
    assert_eq!(p.current_index(), 0);
}

#[test]
fn button_three_press_renders_three_once() {
    let mut p = Poller::new(0, true);
    // Button 3 goes low: the guard starts, nothing rendered yet.
    let o = p.tick(HIGH, HIGH, LOW, HIGH, 0);
    assert_eq!(o.render, None);
    assert_eq!(o.wait, WaitKind::Guard);
    // Still low after the guard: index becomes 3, exactly one render(3).
    let o = p.tick(HIGH, HIGH, LOW, HIGH, 0);
    assert_eq!(o.render, Some(3));
    assert_eq!(o.wait, WaitKind::HoldPoll);
    assert_eq!(p.current_index(), 3);
    // Held down: no further renders, coarse polling.
    let o = p.tick(HIGH, HIGH, LOW, HIGH, 0);
    assert_eq!(o.render, None);
    assert_eq!(o.wait, WaitKind::HoldPoll);
    // Released: back to scanning, still nothing rendered.
    let o = p.tick(HIGH, HIGH, HIGH, HIGH, 0);
    assert_eq!(o.render, None);
    assert_eq!(o.wait, WaitKind::Tick);
    assert_eq!(p.current_index(), 3);
}

#[test]
fn rotate_right_from_four_wraps_to_zero() {
    let mut p = Poller::new(0, true);
    // Reach index 4 with a full press of button 4.
    p.tick(HIGH, HIGH, HIGH, LOW, 0);
    let o = p.tick(HIGH, HIGH, HIGH, LOW, 0);
    assert_eq!(o.render, Some(4));
    p.tick(HIGH, HIGH, HIGH, HIGH, 0);
    assert_eq!(p.current_index(), 4);
    // A count jump beyond the dead band: one step right, wrapping to 0.
    let o = p.tick(HIGH, HIGH, HIGH, HIGH, 3);
    assert_eq!(o.render, Some(0));
    assert_eq!(o.wait, WaitKind::Tick);
    assert_eq!(p.current_index(), 0);
}

#[test]
fn rotate_left_from_zero_wraps_to_four() {
    let mut p = Poller::new(10, true);
    let o = p.tick(HIGH, HIGH, HIGH, HIGH, 7);
    assert_eq!(o.render, Some(4));
    assert_eq!(p.current_index(), 4);
}

#[test]
fn dead_band_creep_renders_nothing() {
    let mut p = Poller::new(100, true);
    // Each reading is at most one count away from the last observed one.
    for _ in 0..3 {
        let o = p.tick(HIGH, HIGH, HIGH, HIGH, 101);
        assert_eq!(o.render, None);
        assert_eq!(o.wait, WaitKind::Tick);
    }
    assert_eq!(p.current_index(), 0);
    // The reference never moved, so a two-count jump from it now registers.
    let o = p.tick(HIGH, HIGH, HIGH, HIGH, 102);
    assert_eq!(o.render, Some(1));
}

#[test]
fn failed_init_halts_the_device_for_good() {
    let mut p = Poller::new(0, false);
    assert!(p.is_halted());
    assert_eq!(p.startup_render(), None);
    // Whatever the inputs, a halted device never renders.
    let o = p.tick(LOW, LOW, LOW, LOW, 1000);
    assert_eq!(o.render, None);
    let o = p.tick(HIGH, HIGH, HIGH, HIGH, -1000);
    assert_eq!(o.render, None);
    assert!(p.is_halted());
}

#[test]
fn button_one_has_priority_and_owns_the_loop() {
    let mut p = Poller::new(0, true);
    // Buttons 1 and 3 both low: only button 1 is serviced.
    let o = p.tick(LOW, HIGH, LOW, HIGH, 0);
    assert_eq!(o.render, None);
    assert_eq!(o.wait, WaitKind::Guard);
    // Button 1 bounced back high; button 3 is still low but was not
    // looked at while button 1 owned the loop.
    let o = p.tick(HIGH, HIGH, LOW, HIGH, 0);
    assert_eq!(o.render, None);
    assert_eq!(o.wait, WaitKind::Tick);
    assert_eq!(p.current_index(), 0);
    // Only now does button 3 get its own guard.
    let o = p.tick(HIGH, HIGH, LOW, HIGH, 0);
    assert_eq!(o.wait, WaitKind::Guard);
    let o = p.tick(HIGH, HIGH, LOW, HIGH, 0);
    assert_eq!(o.render, Some(3));
}

#[test]
fn held_button_suppresses_the_encoder() {
    let mut p = Poller::new(0, true);
    p.tick(LOW, HIGH, HIGH, HIGH, 0);
    let o = p.tick(LOW, HIGH, HIGH, HIGH, 0);
    assert_eq!(o.render, Some(1));
    // A large count jump while button 1 is held: not serviced.
    let o = p.tick(LOW, HIGH, HIGH, HIGH, 50);
    assert_eq!(o.render, None);
    assert_eq!(o.wait, WaitKind::HoldPoll);
    assert_eq!(p.current_index(), 1);
}
