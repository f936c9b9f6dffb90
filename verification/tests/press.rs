use button_led::shared_const::{BUTTON_DEBOUNCE_DELAY_IN_MS, LONG_PRESS_DURATION_IN_MS};
use button_led::{Button, Duration, InputWait, Instant, PressDuration, PressKind};

// The clock's reading `millis` milliseconds after it started.
fn at(millis: u64) -> Instant {
    Instant::from_micros(millis * 1_000)
}

fn press(button: &mut Button, down: u64, up: u64) -> Option<PressDuration> {
    let settle = BUTTON_DEBOUNCE_DELAY_IN_MS;
    assert_eq!(button.wait_for_press(at(down)), None);
    assert_eq!(button.wait_for_press(at(down + settle)), None);
    assert!(button.accepts(at(up)));
    assert_eq!(button.wait_for_press(at(up)), None);
    button.wait_for_press(at(up + settle))
}

#[test]
fn default_timing_is_ten_and_five_hundred_milliseconds() {
    assert_eq!(BUTTON_DEBOUNCE_DELAY_IN_MS, 10);
    assert_eq!(LONG_PRESS_DURATION_IN_MS, 500);
}

#[test]
fn hold_below_threshold_is_short() {
    assert_eq!(PressDuration::from(Duration::from_millis(0)), PressDuration::Short);
    assert_eq!(PressDuration::from(Duration::from_millis(1)), PressDuration::Short);
    assert_eq!(PressDuration::from(Duration::from_millis(250)), PressDuration::Short);
    assert_eq!(PressDuration::from(Duration::from_millis(499)), PressDuration::Short);
}

#[test]
fn hold_at_threshold_is_long() {
    assert_eq!(PressDuration::from(Duration::from_millis(500)), PressDuration::Long);
    assert_eq!(PressDuration::from(Duration::from_micros(500_000)), PressDuration::Long);
}

#[test]
fn hold_one_microsecond_below_threshold_is_short() {
    assert_eq!(PressDuration::from(Duration::from_micros(499_999)), PressDuration::Short);
    assert_eq!(PressKind::from(Duration::from_micros(499_999)), PressKind::Short);
    assert_eq!(PressKind::from(Duration::from_micros(500_000)), PressKind::Long);
}

#[test]
fn hold_is_not_rounded_to_milliseconds_before_it_is_measured() {
    // Down at 0.999 ms, up at 500.000 ms: 499.001 ms, which is short.
    let mut button = Button::new();
    assert_eq!(button.wait_for_press(Instant::from_micros(999)), None);
    assert_eq!(button.wait_for_press(Instant::from_micros(10_999)), None);
    assert_eq!(button.wait_for_press(Instant::from_micros(500_000)), None);
    assert_eq!(button.wait_for_press(Instant::from_micros(510_000)), Some(PressDuration::Short));
    // Down at 0.999 ms, up at 500.999 ms: 500 ms, which is long.
    assert_eq!(button.wait_for_press(Instant::from_micros(1_000_999)), None);
    assert_eq!(button.wait_for_press(Instant::from_micros(1_010_999)), None);
    assert_eq!(button.wait_for_press(Instant::from_micros(1_500_999)), None);
    assert_eq!(button.wait_for_press(Instant::from_micros(1_510_999)), Some(PressDuration::Long));
}

#[test]
fn hold_above_threshold_is_long() {
    assert_eq!(PressDuration::from(Duration::from_millis(501)), PressDuration::Long);
    assert_eq!(PressDuration::from(Duration::from_millis(600)), PressDuration::Long);
    assert_eq!(PressDuration::from(Duration::from_micros(u64::MAX)), PressDuration::Long);
}

#[test]
fn classification_splits_at_threshold_for_a_range_of_holds() {
    let mut held: u64 = 0;
    while held < 2000 {
        let expected = if held < LONG_PRESS_DURATION_IN_MS {
            PressDuration::Short
        } else {
            PressDuration::Long
        };
        assert_eq!(PressDuration::from(Duration::from_millis(held)), expected);
        held += 1;
    }
}

#[test]
fn press_duration_defaults_to_short() {
    assert_eq!(PressDuration::default(), PressDuration::Short);
}

#[test]
fn duration_converts_into_press_duration() {
    let press: PressDuration = Duration::from_millis(750).into();
    assert_eq!(press, PressDuration::Long);
}

#[test]
fn press_kind_splits_at_threshold() {
    assert_eq!(PressKind::from(Duration::from_millis(0)), PressKind::Short);
    assert_eq!(PressKind::from(Duration::from_millis(499)), PressKind::Short);
    assert_eq!(PressKind::from(Duration::from_millis(500)), PressKind::Long);
    assert_eq!(PressKind::from(Duration::from_micros(u64::MAX)), PressKind::Long);
}

#[test]
fn press_kind_defaults_to_short() {
    assert_eq!(PressKind::default(), PressKind::Short);
}

#[test]
fn press_categories_are_ordered_short_before_long() {
    assert!(PressDuration::Short < PressDuration::Long);
    assert!(PressKind::Short < PressKind::Long);
}

#[test]
fn new_button_waits_for_rising_edge() {
    let button = Button::new();
    assert_eq!(button.pending_wait(), InputWait::RisingEdge);
}

#[test]
fn button_walks_through_the_four_waits_of_a_press() {
    let mut button = Button::new();
    assert_eq!(button.pending_wait(), InputWait::RisingEdge);
    assert_eq!(button.wait_for_press(at(5_000)), None);
    assert_eq!(button.pending_wait(), InputWait::Settle { millis: 10 });
    assert_eq!(button.wait_for_press(at(5_010)), None);
    assert_eq!(button.pending_wait(), InputWait::FallingEdge);
    assert_eq!(button.wait_for_press(at(5_100)), None);
    assert_eq!(button.pending_wait(), InputWait::Settle { millis: 10 });
    assert_eq!(button.wait_for_press(at(5_110)), Some(PressDuration::Short));
    assert_eq!(button.pending_wait(), InputWait::RisingEdge);
}

#[test]
fn hold_of_600_ms_with_500_ms_threshold_is_long() {
    // Down at 1000, settled at 1010, up at 1600, settled at 1610: the hold is the 600 ms
    // between the two edges, the first settle window included.
    let mut button = Button::new();
    assert_eq!(button.wait_for_press(at(1_000)), None);
    assert_eq!(button.wait_for_press(at(1_010)), None);
    assert_eq!(button.wait_for_press(at(1_600)), None);
    assert_eq!(button.wait_for_press(at(1_610)), Some(PressDuration::Long));
}

#[test]
fn hold_is_measured_from_the_first_edge_not_from_the_end_of_settling() {
    // 495 ms after the line settled, but 505 ms after the button went down.
    let mut button = Button::new();
    assert_eq!(press(&mut button, 2_000, 2_505), Some(PressDuration::Long));
    // The second settle window is not part of the hold: 499 ms between the edges is short.
    assert_eq!(press(&mut button, 10_000, 10_499), Some(PressDuration::Short));
    assert_eq!(press(&mut button, 20_000, 20_500), Some(PressDuration::Long));
}

#[test]
fn release_within_the_settle_window_is_a_short_press() {
    let mut button = Button::new();
    assert_eq!(button.wait_for_press(at(100)), None);
    assert_eq!(button.wait_for_press(at(110)), None);
    assert_eq!(button.wait_for_press(at(100)), None);
    assert_eq!(button.wait_for_press(at(120)), Some(PressDuration::Short));
}

#[test]
fn button_is_ready_for_the_next_press_after_each_one() {
    let mut button = Button::new();
    assert_eq!(press(&mut button, 0, 100), Some(PressDuration::Short));
    assert_eq!(press(&mut button, 1_000, 1_700), Some(PressDuration::Long));
    assert_eq!(press(&mut button, 3_000, 3_010), Some(PressDuration::Short));
    assert_eq!(button.pending_wait(), InputWait::RisingEdge);
}

#[test]
fn button_refuses_a_release_before_the_press() {
    let mut button = Button::new();
    assert!(button.accepts(at(0)));
    assert_eq!(button.wait_for_press(at(1_000)), None);
    assert!(button.accepts(at(0)));
    assert_eq!(button.wait_for_press(at(1_010)), None);
    assert!(!button.accepts(at(999)));
    assert!(button.accepts(at(1_000)));
    assert!(button.accepts(at(1_001)));
}
