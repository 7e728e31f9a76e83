use isolapurr_usb_hub::{
    boot_profile_feedback, loop_delay_ms, note_regulator_outcome, note_render_outcome,
    plan_pd_tick, ControlState, ErrorKind, InitFailReason, PowerRequest, ProtocolTag, SafetyKind,
    SoundEvent,
};

fn active_request() -> PowerRequest {
    PowerRequest {
        online: true,
        fast_protocol: true,
        fast_voltage: true,
        negotiated_protocol: Some(ProtocolTag::Pd),
        v_req_mv: 9000,
        i_req_ma: 2150,
    }
}

fn idle_request() -> PowerRequest {
    PowerRequest {
        online: true,
        fast_protocol: false,
        fast_voltage: false,
        negotiated_protocol: None,
        v_req_mv: 0,
        i_req_ma: 0,
    }
}

#[test]
fn three_failures_then_success_emit_one_error_and_one_recovery() {
    let mut state = ControlState::new_boot();
    let mut events: Vec<SoundEvent> = Vec::new();

    for t in [0u64, 50, 100] {
        let plan = plan_pd_tick(&mut state, None, t);
        events.extend(plan.events.iter().copied());
        // While the decoder is in error, the fixed keep-alive drives the
        // regulator.
        assert_eq!(plan.setpoint.v_out_mv, 5000);
        assert_eq!(plan.setpoint.i_lim_ma, 1000);
    }
    let plan = plan_pd_tick(&mut state, Some(active_request()), 150);
    events.extend(plan.events.iter().copied());

    assert_eq!(
        events,
        vec![
            SoundEvent::EnterError(ErrorKind::Sw2303I2c),
            SoundEvent::ExitError(ErrorKind::Sw2303I2c),
        ]
    );
}

#[test]
fn active_negotiation_follows_the_request_and_polls_fast() {
    let mut state = ControlState::new_boot();
    let plan = plan_pd_tick(&mut state, Some(active_request()), 0);
    assert_eq!(plan.setpoint.v_out_mv, 9000);
    assert_eq!(plan.setpoint.i_lim_ma, 2100);
    assert_eq!(plan.poll_delay_ms, 10);
    assert!(plan.events.is_empty());
    assert!(!plan.retry_profile);
}

#[test]
fn idle_request_holds_the_keepalive() {
    let mut state = ControlState::new_boot();
    let plan = plan_pd_tick(&mut state, Some(idle_request()), 0);
    assert_eq!(plan.setpoint.v_out_mv, 5000);
    assert_eq!(plan.setpoint.i_lim_ma, 1000);
    assert_eq!(plan.poll_delay_ms, 50);
}

#[test]
fn profile_retry_only_on_recovery_and_throttled() {
    let mut state = ControlState::new_boot();
    state.note_profile_attempt(1000);

    // An error, then a recovery too soon after the last attempt: no retry.
    plan_pd_tick(&mut state, None, 2000);
    let early = plan_pd_tick(&mut state, Some(idle_request()), 30000);
    assert!(!early.retry_profile);

    // An error, then a recovery beyond the throttle interval: one retry.
    plan_pd_tick(&mut state, None, 40000);
    let due = plan_pd_tick(&mut state, Some(idle_request()), 61000);
    assert!(due.retry_profile);

    // A healthy poll is never a retry occasion.
    let healthy = plan_pd_tick(&mut state, Some(idle_request()), 200000);
    assert!(!healthy.retry_profile);
}

#[test]
fn regulator_failures_latch_the_safety_alarm_on_the_edge() {
    let mut state = ControlState::new_boot();
    let enter = note_regulator_outcome(&mut state, false);
    assert_eq!(enter, vec![SoundEvent::EnterSafety(SafetyKind::TpsApply)]);
    let repeat = note_regulator_outcome(&mut state, false);
    assert!(repeat.is_empty());
    let exit = note_regulator_outcome(&mut state, true);
    assert_eq!(exit, vec![SoundEvent::ExitSafety(SafetyKind::TpsApply)]);
    let quiet = note_regulator_outcome(&mut state, true);
    assert!(quiet.is_empty());
}

#[test]
fn render_failures_latch_a_warning_on_the_edge() {
    let mut state = ControlState::new_boot();
    let enter = note_render_outcome(&mut state, false);
    assert_eq!(enter, vec![SoundEvent::EnterError(ErrorKind::UiRender)]);
    assert!(note_render_outcome(&mut state, false).is_empty());
    let exit = note_render_outcome(&mut state, true);
    assert_eq!(exit, vec![SoundEvent::ExitError(ErrorKind::UiRender)]);
}

#[test]
fn boot_profile_failure_is_reported_but_not_fatal() {
    assert_eq!(boot_profile_feedback(true), None);
    assert_eq!(
        boot_profile_feedback(false),
        Some(SoundEvent::InitFail(InitFailReason::Sw2303ProfileBoot))
    );
}

#[test]
fn pacing_adapts_to_activity_and_errors() {
    assert_eq!(loop_delay_ms(true, false), 10);
    assert_eq!(loop_delay_ms(false, false), 50);
    assert_eq!(loop_delay_ms(true, true), 100);
    assert_eq!(loop_delay_ms(false, true), 100);
}
