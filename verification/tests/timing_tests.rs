//! Tests of the animation timing state machine: index bounds, looping
//! round trips, non-looping freezing, and the frame duration clamps.

use wlrs::asset::animated::{frame_duration_ms, AnimationClock};

fn clock(durations: Vec<u64>, looping: bool) -> AnimationClock {
    AnimationClock::from_durations(durations, looping)
}

#[test]
fn index_stays_in_range_for_any_advance() {
    let mut c = clock(vec![100, 200, 300], true);
    let steps: Vec<u64> = vec![0, 1, 99, 100, 250, 1000, 12345, 999999, 7];
    for dt in steps {
        c.update(dt);
        assert!(c.current_frame() < c.frame_count());
    }
}

#[test]
fn looping_full_cycle_returns_to_start() {
    // One full cycle is 100 + 200 + 300 = 600 ms.
    let mut c = clock(vec![100, 200, 300], true);
    c.update(150);
    let mid = c.current_frame();
    assert_eq!(mid, 1);
    // Advancing by exactly the total duration in distinct steps returns the
    // index to where it stood.
    c.update(250);
    c.update(350);
    assert_eq!(c.current_frame(), mid);
    // And again as one step.
    c.update(600);
    assert_eq!(c.current_frame(), mid);
}

#[test]
fn looping_advance_steps_through_frames() {
    let mut c = clock(vec![100, 200, 300], true);
    assert!(!c.update(50));
    assert_eq!(c.current_frame(), 0);
    assert!(c.update(50));
    assert_eq!(c.current_frame(), 1);
    assert!(c.update(200));
    assert_eq!(c.current_frame(), 2);
    assert!(c.update(300));
    assert_eq!(c.current_frame(), 0);
}

#[test]
fn non_looping_pins_at_last_frame() {
    let mut c = clock(vec![100, 100, 100], false);
    c.update(250);
    assert_eq!(c.current_frame(), 2);
    // Repeated advances past the total duration never leave the last frame.
    for _ in 0..10 {
        c.update(100000);
        assert_eq!(c.current_frame(), 2);
    }
    assert!(c.is_finished());
    // Only an explicit reset returns to the first frame.
    c.reset();
    assert_eq!(c.current_frame(), 0);
    assert!(!c.is_finished());
}

#[test]
fn single_frame_assets_never_advance() {
    let mut c = AnimationClock::new_static(true);
    assert!(!c.is_animated());
    assert_eq!(c.frame_count(), 1);
    assert!(!c.update(1_000_000_000));
    assert_eq!(c.current_frame(), 0);
}

#[test]
fn set_looping_switches_freezing_behavior() {
    let mut c = clock(vec![100, 100], true);
    c.update(150);
    assert_eq!(c.current_frame(), 1);
    c.set_looping(false);
    assert!(c.is_finished());
    c.update(1000);
    assert_eq!(c.current_frame(), 1);
}

#[test]
fn frame_duration_applies_the_documented_clamps() {
    // A zero or invalid delay falls back to 100 ms.
    assert_eq!(frame_duration_ms(0, 1), 100);
    assert_eq!(frame_duration_ms(10, 0), 100);
    // A delay that rounds down to nothing also falls back.
    assert_eq!(frame_duration_ms(1, 2000), 100);
    // A pathologically long delay is capped at 500 ms.
    assert_eq!(frame_duration_ms(50000, 1), 500);
    assert_eq!(frame_duration_ms(10001, 1), 500);
    // Ordinary delays pass through: numer/denom milliseconds.
    assert_eq!(frame_duration_ms(100, 1), 100);
    assert_eq!(frame_duration_ms(250, 10), 25);
    assert_eq!(frame_duration_ms(10000, 1), 10000);
}
