use isolapurr_usb_hub::{
    boot_supply_setpoint, note_apply_outcome, plan_apply, power_request_to_setpoint,
    quantize_ilim_ma_floor_with_margin, quantize_vout_mv_floor, PowerRequest, PowerSetpoint,
    ProtocolTag, RegulatorOp, TpsApplyState,
};

fn request(v_req_mv: u16, i_req_ma: u16) -> PowerRequest {
    PowerRequest {
        online: false,
        fast_protocol: true,
        fast_voltage: false,
        negotiated_protocol: Some(ProtocolTag::Pd),
        v_req_mv,
        i_req_ma,
    }
}

#[test]
fn translates_nine_volt_contract_with_margin() {
    // 9000 mV sits on the 20 mV grid above the 800 mV floor, so it is kept;
    // 2150 mA loses the 50 mA margin and floors to 2100 mA.
    let sp = power_request_to_setpoint(request(9000, 2150));
    assert!(sp.output_enabled);
    assert_eq!(sp.v_out_mv, 9000);
    assert_eq!(sp.i_lim_ma, 2100);
}

#[test]
fn voltage_quantization_floors_to_step() {
    assert_eq!(quantize_vout_mv_floor(805), 800);
    assert_eq!(quantize_vout_mv_floor(819), 800);
    assert_eq!(quantize_vout_mv_floor(820), 820);
    assert_eq!(quantize_vout_mv_floor(9013), 9000);
}

#[test]
fn voltage_quantization_clamps_to_range() {
    assert_eq!(quantize_vout_mv_floor(0), 800);
    assert_eq!(quantize_vout_mv_floor(799), 800);
    assert_eq!(quantize_vout_mv_floor(21260), 21260);
    assert_eq!(quantize_vout_mv_floor(65535), 21260);
}

#[test]
fn current_quantization_applies_margin_and_floor() {
    assert_eq!(quantize_ilim_ma_floor_with_margin(2150), 2100);
    assert_eq!(quantize_ilim_ma_floor_with_margin(125), 50);
    assert_eq!(quantize_ilim_ma_floor_with_margin(100), 50);
    assert_eq!(quantize_ilim_ma_floor_with_margin(99), 0);
    assert_eq!(quantize_ilim_ma_floor_with_margin(50), 0);
    assert_eq!(quantize_ilim_ma_floor_with_margin(0), 0);
    // Far above the representable range the limit caps at the maximum.
    assert_eq!(quantize_ilim_ma_floor_with_margin(65535), 6350);
}

#[test]
fn boot_setpoint_is_the_conservative_keepalive() {
    let sp = boot_supply_setpoint();
    assert_eq!(
        sp,
        PowerSetpoint { output_enabled: true, v_out_mv: 5000, i_lim_ma: 1000 }
    );
}

#[test]
fn apply_uses_safe_order_then_suppresses_rewrite() {
    let mut state = TpsApplyState::new();
    let sp = PowerSetpoint { output_enabled: true, v_out_mv: 9000, i_lim_ma: 2100 };

    let ops = plan_apply(&state, sp);
    assert_eq!(
        ops,
        vec![
            RegulatorOp::Disable,
            RegulatorOp::SetCurrentLimit(2100),
            RegulatorOp::SetVoltage(9000),
            RegulatorOp::Enable,
        ]
    );
    note_apply_outcome(&mut state, sp, true);

    // An identical setpoint issues no second write sequence.
    let again = plan_apply(&state, sp);
    assert!(again.is_empty());
}

#[test]
fn apply_leaves_output_off_when_disabled() {
    let state = TpsApplyState::new();
    let sp = PowerSetpoint { output_enabled: false, v_out_mv: 5000, i_lim_ma: 1000 };
    let ops = plan_apply(&state, sp);
    assert_eq!(
        ops,
        vec![
            RegulatorOp::Disable,
            RegulatorOp::SetCurrentLimit(1000),
            RegulatorOp::SetVoltage(5000),
        ]
    );
}

#[test]
fn apply_failure_forces_full_reprogram() {
    let mut state = TpsApplyState::new();
    let sp = PowerSetpoint { output_enabled: true, v_out_mv: 5000, i_lim_ma: 1000 };
    note_apply_outcome(&mut state, sp, false);
    // The write cache was invalidated: the same setpoint is programmed anew.
    let ops = plan_apply(&state, sp);
    assert_eq!(ops.len(), 4);
}
