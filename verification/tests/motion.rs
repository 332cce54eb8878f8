use motion_core::device::{Coordinator, DeviceState};
use motion_core::led::Led;
use motion_core::movement::Movement;

#[test]
fn sustained_only_after_span_exceeds_threshold() {
    // Moves every 2 s; the verdict must stay false while the first-to-last
    // span is at or below 10 s and turn true once it strictly exceeds it.
    let mut m = Movement::new();
    let mut t: u64 = 0;
    while t <= 10_000 {
        m.register_move(t);
        assert!(!m.is_10s_movement(t), "span {} ms must not be sustained", t);
        t += 2_000;
    }
    // span is now exactly 10_000 ms: still not sustained (strict comparison)
    assert!(!m.is_10s_movement(10_000));
    m.register_move(10_100);
    assert!(m.is_10s_movement(10_100));
}

#[test]
fn sustain_boundary_strictly_greater() {
    let mut m = Movement::new();
    m.register_move(0);
    m.register_move(9_900);
    assert!(!m.is_10s_movement(9_900));

    let mut m2 = Movement::new();
    m2.register_move(0);
    m2.register_move(10_000);
    assert!(!m2.is_10s_movement(10_000));

    let mut m3 = Movement::new();
    m3.register_move(0);
    m3.register_move(10_100);
    assert!(m3.is_10s_movement(10_100));
}

#[test]
fn staleness_clears_window() {
    // A single move at t = 0 and silence: evaluating at 21 s reports false,
    // and afterwards the tracker behaves as freshly created.
    let mut m = Movement::new();
    m.register_move(0);
    assert!(!m.is_10s_movement(21_000));
    // A fresh window opens at 21 s. Were the old window still in place, this
    // move would have stretched it to a 21 s span and the next evaluation
    // would report sustained.
    m.register_move(21_000);
    assert!(!m.is_10s_movement(21_000));
    // The new window sustains on its own terms once its span exceeds 10 s.
    m.register_move(31_200);
    assert!(m.is_10s_movement(31_200));
}

#[test]
fn stale_boundary_strictly_greater() {
    let mut m = Movement::new();
    m.register_move(0);
    // Exactly 20 s after the first event the window is not yet stale …
    assert!(!m.is_10s_movement(20_000));
    m.register_move(20_000);
    // … so this move extended the old window to a 20 s span: sustained.
    assert!(m.is_10s_movement(20_000));
}

#[test]
fn no_false_positive_keeps_window() {
    // Below both thresholds an evaluation reports false and leaves the
    // window in place.
    let mut m = Movement::new();
    m.register_move(0);
    m.register_move(9_900);
    assert!(!m.is_10s_movement(15_000));
    assert!(!m.is_10s_movement(20_000));
    // The window survived: one more move pushes its span past the threshold.
    m.register_move(10_100);
    assert!(m.is_10s_movement(20_000));
}

#[test]
fn led_toggle_count_with_divider() {
    // blink_count = 2, divider = 4: one edge every 5th tick, 4 edges in all;
    // the first tick that lands on the divider boundary with no edges left
    // reports completion, and the pattern repeats without a reset.
    let mut led = Led::new(2, 4);
    led.reset();
    for i in 1u32..=40 {
        let done = led.tick();
        let expected = i % 5 == 0 && i / 5 > 4;
        assert_eq!(done, expected, "tick {}", i);
    }
}

#[test]
fn led_reset_starts_cycle_over() {
    let mut led = Led::new(1, 1);
    // edges on every 2nd tick; 2 edges, so the 6th tick reports completion
    for i in 1u32..=6 {
        let done = led.tick();
        assert_eq!(done, i == 6);
    }
    led.reset();
    for i in 1u32..=6 {
        let done = led.tick();
        assert_eq!(done, i == 6);
    }
}

#[test]
fn movement_interrupt_before_tracker_is_noop() {
    // An interrupt that fires before the tracker exists must not panic and
    // must leave the device state unchanged.
    let mut c = Coordinator::new();
    c.on_movement_interrupt(5);
    assert_eq!(c.state(), DeviceState::Sleeping);
    c.on_wake();
    c.on_movement_interrupt(10);
    assert_eq!(c.state(), DeviceState::Monitoring);
    // The first tick only creates the tracker; nothing transitions.
    assert!(!c.on_periodic_tick(100));
    assert_eq!(c.state(), DeviceState::Monitoring);
}

#[test]
fn end_to_end_sustained_indication() {
    let mut c = Coordinator::new();
    assert_eq!(c.state(), DeviceState::Sleeping);
    c.set_led(Led::new(2, 4));
    // A tick while asleep is a no-op.
    assert!(!c.on_periodic_tick(0));
    assert_eq!(c.state(), DeviceState::Sleeping);

    c.on_wake();
    assert_eq!(c.state(), DeviceState::Monitoring);
    // First tick creates the tracker.
    assert!(!c.on_periodic_tick(0));

    // Movement every 2 s up to t = 10 s: span exactly 10 s, not sustained.
    let mut t: u64 = 0;
    while t <= 10_000 {
        c.on_movement_interrupt(t);
        t += 2_000;
    }
    assert!(!c.on_periodic_tick(10_050));
    assert_eq!(c.state(), DeviceState::Monitoring);

    // One more movement pushes the span to 10.1 s: the next tick transitions
    // and resets the sequencer.
    c.on_movement_interrupt(10_100);
    assert!(!c.on_periodic_tick(10_200));
    assert_eq!(c.state(), DeviceState::IndicatingSustainedMovement);

    // Subsequent ticks pace out 4 edges (one per 5 ticks); the 25th tick in
    // the indication state lands on the divider boundary with no edges left
    // and reports the sequence complete.
    for i in 1u32..=25 {
        let done = c.on_periodic_tick(10_200 + 100 * i as u64);
        assert_eq!(done, i == 25, "tick {}", i);
        assert_eq!(c.state(), DeviceState::IndicatingSustainedMovement);
    }
}

#[test]
fn led_largest_blink_count() {
    // 127 blinks is the largest count whose doubled edge total fits; with
    // divider 1 an edge falls on every 2nd tick, so 254 edges take 508 ticks
    // and the 510th tick reports completion.
    let mut led = Led::new(127, 1);
    for i in 1u32..=510 {
        let done = led.tick();
        assert_eq!(done, i == 510, "tick {}", i);
    }
}

#[test]
fn tracker_near_maximal_timestamps() {
    let mut m = Movement::new();
    m.register_move(u64::MAX - 20_000);
    m.register_move(u64::MAX - 10_001);
    assert!(!m.is_10s_movement(u64::MAX - 10_001));
    m.register_move(u64::MAX);
    assert!(m.is_10s_movement(u64::MAX));
}

#[test]
fn wake_outside_sleep_changes_nothing() {
    let mut c = Coordinator::new();
    c.on_wake();
    assert_eq!(c.state(), DeviceState::Monitoring);
    c.on_wake();
    assert_eq!(c.state(), DeviceState::Monitoring);
}
