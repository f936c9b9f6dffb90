use button_led::shared_const::{FAST_FLASH_DELAY_IN_MS, SLOW_FLASH_DELAY_IN_MS};
use button_led::{DriverEvent, DriverWait, LedDriver, LedMode, Level, PinAction, Render};

#[test]
fn default_intervals_are_250_and_750_milliseconds() {
    assert_eq!(FAST_FLASH_DELAY_IN_MS, 250);
    assert_eq!(SLOW_FLASH_DELAY_IN_MS, 750);
}

#[test]
fn new_driver_shows_the_initial_mode_with_the_line_low() {
    for mode in [LedMode::FastFlash, LedMode::SlowFlash, LedMode::On, LedMode::Off] {
        let driver = LedDriver::new(mode);
        assert_eq!(driver.mode(), mode);
        assert_eq!(driver.level(), Level::Low);
    }
}

#[test]
fn fast_flash_toggles_and_waits_250_ms_or_for_a_mode() {
    let mut driver = LedDriver::new(LedMode::FastFlash);
    assert_eq!(
        driver.render(),
        Render { action: PinAction::Toggle, wait: DriverWait::TimerOrSignal { millis: 250 } }
    );
    assert_eq!(driver.level(), Level::High);
}

#[test]
fn slow_flash_toggles_and_waits_750_ms_or_for_a_mode() {
    let mut driver = LedDriver::new(LedMode::SlowFlash);
    assert_eq!(
        driver.render(),
        Render { action: PinAction::Toggle, wait: DriverWait::TimerOrSignal { millis: 750 } }
    );
    assert_eq!(driver.level(), Level::High);
}

#[test]
fn on_sets_the_line_high_and_waits_for_a_mode_only() {
    let mut driver = LedDriver::new(LedMode::On);
    assert_eq!(
        driver.render(),
        Render { action: PinAction::SetHigh, wait: DriverWait::SignalOnly }
    );
    assert_eq!(driver.level(), Level::High);
}

#[test]
fn off_sets_the_line_low_and_waits_for_a_mode_only() {
    let mut driver = LedDriver::new(LedMode::FastFlash);
    driver.render();
    assert_eq!(driver.level(), Level::High);
    driver.resume(DriverEvent::ModeReceived(LedMode::Off));
    assert_eq!(
        driver.render(),
        Render { action: PinAction::SetLow, wait: DriverWait::SignalOnly }
    );
    assert_eq!(driver.level(), Level::Low);
}

#[test]
fn flashing_modes_flip_the_line_on_every_elapsed_interval() {
    for mode in [LedMode::FastFlash, LedMode::SlowFlash] {
        let mut driver = LedDriver::new(mode);
        let mut expected = Level::Low;
        for _ in 0..9 {
            expected = match expected {
                Level::Low => Level::High,
                Level::High => Level::Low,
            };
            assert_eq!(driver.render().action, PinAction::Toggle);
            assert_eq!(driver.level(), expected);
            driver.resume(DriverEvent::TimerElapsed);
            assert_eq!(driver.mode(), mode);
            assert_eq!(driver.level(), expected);
        }
    }
}

#[test]
fn steady_modes_never_change_by_themselves() {
    for (mode, level) in [(LedMode::On, Level::High), (LedMode::Off, Level::Low)] {
        let mut driver = LedDriver::new(mode);
        for _ in 0..5 {
            let render = driver.render();
            assert_eq!(render.wait, DriverWait::SignalOnly);
            assert_ne!(render.action, PinAction::Toggle);
            assert_eq!(driver.level(), level);
            // No interval is waited for; even if one were reported nothing would change.
            driver.resume(DriverEvent::TimerElapsed);
            assert_eq!(driver.mode(), mode);
            assert_eq!(driver.level(), level);
        }
    }
}

#[test]
fn received_mode_is_taken_on_without_touching_the_line() {
    let mut driver = LedDriver::new(LedMode::FastFlash);
    driver.render();
    assert_eq!(driver.level(), Level::High);
    driver.resume(DriverEvent::ModeReceived(LedMode::SlowFlash));
    assert_eq!(driver.mode(), LedMode::SlowFlash);
    assert_eq!(driver.level(), Level::High);
    // Entering the new flashing mode toggles once.
    assert_eq!(driver.render().action, PinAction::Toggle);
    assert_eq!(driver.level(), Level::Low);
}

#[test]
fn received_mode_goes_before_an_elapsed_interval() {
    let flashing = DriverWait::TimerOrSignal { millis: 250 };
    assert_eq!(
        DriverEvent::resolve(flashing, Some(LedMode::On), true),
        Some(DriverEvent::ModeReceived(LedMode::On))
    );
    assert_eq!(
        DriverEvent::resolve(flashing, Some(LedMode::Off), false),
        Some(DriverEvent::ModeReceived(LedMode::Off))
    );
    assert_eq!(DriverEvent::resolve(flashing, None, true), Some(DriverEvent::TimerElapsed));
    assert_eq!(DriverEvent::resolve(flashing, None, false), None);
}

#[test]
fn only_a_received_mode_ends_the_wait_of_a_steady_mode() {
    assert_eq!(DriverEvent::resolve(DriverWait::SignalOnly, None, false), None);
    assert_eq!(DriverEvent::resolve(DriverWait::SignalOnly, None, true), None);
    assert_eq!(
        DriverEvent::resolve(DriverWait::SignalOnly, Some(LedMode::FastFlash), false),
        Some(DriverEvent::ModeReceived(LedMode::FastFlash))
    );
    assert_eq!(
        DriverEvent::resolve(DriverWait::SignalOnly, Some(LedMode::Off), true),
        Some(DriverEvent::ModeReceived(LedMode::Off))
    );
}
