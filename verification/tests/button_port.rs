use isolapurr_usb_hub::{
    classify_press, ButtonEdge, ButtonOutcome, DebouncedButton, PortData, PortPower, PortState,
    PressClass,
};

#[test]
fn debounce_accepts_a_held_level_after_the_window() {
    let mut b = DebouncedButton::new(false);
    assert_eq!(b.update(true, 0), None);
    assert_eq!(b.update(true, 29), None);
    assert_eq!(b.update(true, 30), Some(ButtonEdge::Pressed));
    assert!(b.stable_pressed);
    assert_eq!(b.update(false, 100), None);
    assert_eq!(b.update(false, 130), Some(ButtonEdge::Released));
    assert!(!b.stable_pressed);
}

#[test]
fn debounce_rejects_chatter_within_the_window() {
    // The raw level flips up and back down within less than the debounce
    // window: no edge, and the stable level never moves.
    let mut b = DebouncedButton::new(false);
    assert_eq!(b.update(true, 0), None);
    assert_eq!(b.update(true, 20), None);
    assert_eq!(b.update(false, 25), None);
    assert!(!b.stable_pressed);
    // Much later the line is still quiet: still no edge.
    assert_eq!(b.update(false, 500), None);
    assert!(!b.stable_pressed);
}

#[test]
fn debounce_restarts_the_timer_on_every_disagreement() {
    let mut b = DebouncedButton::new(false);
    assert_eq!(b.update(true, 0), None);
    assert_eq!(b.update(false, 10), None);
    // The candidate restarted at 20; 40 is within its window.
    assert_eq!(b.update(true, 20), None);
    assert_eq!(b.update(true, 40), None);
    assert_eq!(b.update(true, 50), Some(ButtonEdge::Pressed));
}

#[test]
fn press_classification_boundaries() {
    assert_eq!(classify_press(50), PressClass::Short);
    assert_eq!(classify_press(49), PressClass::Invalid);
    assert_eq!(classify_press(800), PressClass::Short);
    assert_eq!(classify_press(801), PressClass::Invalid);
    assert_eq!(classify_press(1000), PressClass::Invalid);
    assert_eq!(classify_press(1199), PressClass::Invalid);
    assert_eq!(classify_press(1200), PressClass::Long);
    assert_eq!(classify_press(8000), PressClass::Long);
    assert_eq!(classify_press(8001), PressClass::Invalid);
    assert_eq!(classify_press(0), PressClass::Invalid);
}

#[test]
fn short_press_pulses_data_on_a_powered_port() {
    let mut p = PortState::new_boot();
    let outcome = p.on_button_release(PressClass::Short, 1000);
    assert_eq!(outcome, ButtonOutcome::DataPulseStarted);
    assert_eq!(p.data, PortData::Pulsing { until_ms: 1250 });
    assert_eq!(p.busy_until_ms, Some(1250));
    // While pulsing, the data line is released and the port is busy.
    assert_eq!(p.control_lines(), (true, false));
    assert!(p.is_busy(1100));
}

#[test]
fn pulse_ends_at_its_deadline_and_reports_reconnect() {
    let mut p = PortState::new_boot();
    p.on_button_release(PressClass::Short, 1000);
    assert!(!p.reconcile(1200));
    assert_eq!(p.data, PortData::Pulsing { until_ms: 1250 });
    assert!(p.reconcile(1250));
    assert_eq!(p.data, PortData::Connected);
    assert_eq!(p.control_lines(), (true, true));
}

#[test]
fn long_press_toggles_power() {
    let mut p = PortState::new_boot();
    let off = p.on_button_release(PressClass::Long, 2000);
    assert_eq!(off, ButtonOutcome::PoweredOff);
    assert_eq!(p.power, PortPower::Off);
    assert_eq!(p.data, PortData::Disconnected);
    assert_eq!(p.control_lines(), (false, false));

    // After the guard expires, a long press powers the port back on.
    let on = p.on_button_release(PressClass::Long, 3000);
    assert_eq!(on, ButtonOutcome::PoweredOnByLongPress);
    assert_eq!(p.power, PortPower::On);
    assert_eq!(p.data, PortData::Connected);
}

#[test]
fn short_press_powers_an_unpowered_port_on() {
    let mut p = PortState::new_boot();
    p.on_button_release(PressClass::Long, 0);
    let outcome = p.on_button_release(PressClass::Short, 1000);
    assert_eq!(outcome, ButtonOutcome::PoweredOn);
    assert_eq!(p.power, PortPower::On);
    assert_eq!(p.data, PortData::Connected);
}

#[test]
fn busy_port_rejects_releases_without_mutation() {
    let mut p = PortState::new_boot();
    p.on_button_release(PressClass::Short, 1000);
    let snapshot = p;
    // Any release during the pulse/guard window is rejected as busy.
    let outcome = p.on_button_release(PressClass::Long, 1100);
    assert_eq!(outcome, ButtonOutcome::RejectedBusy);
    assert_eq!(p, snapshot);
    let outcome2 = p.on_button_release(PressClass::Short, 1249);
    assert_eq!(outcome2, ButtonOutcome::RejectedBusy);
    assert_eq!(p, snapshot);
}

#[test]
fn invalid_press_rejected_without_mutation() {
    let mut p = PortState::new_boot();
    let snapshot = p;
    let outcome = p.on_button_release(PressClass::Invalid, 5000);
    assert_eq!(outcome, ButtonOutcome::RejectedInvalid);
    assert_eq!(p, snapshot);
}

#[test]
fn reconcile_forces_data_down_while_power_is_off() {
    let mut p = PortState::new_boot();
    p.on_button_release(PressClass::Long, 0);
    assert!(!p.reconcile(100));
    assert_eq!(p.data, PortData::Disconnected);
    assert_eq!(p.control_lines(), (false, false));
}
