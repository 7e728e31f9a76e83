use isolapurr_usb_hub::{
    bus_voltage_raw_to_mv, ceil_div_u32, clamp_u32_to_u16, current_raw_to_ma,
    derive_u14_meas_from_u17, ensure_telemetry_address, ina226_calibration, port_metrics_from_raw,
    power_raw_to_mw, snapshot_from_raw, u17_current_lsb_ua, Field, NormalUiTelemetrySampler,
    PortMetrics, PowerSetpoint, SetApplied, TelemetryI2cAllowlist, TelemetryI2cError,
    VoltageCurrent,
};

#[test]
fn bus_voltage_is_1_25_mv_per_bit_rounded_half_up() {
    assert_eq!(bus_voltage_raw_to_mv(0), 0);
    assert_eq!(bus_voltage_raw_to_mv(4), 5);
    assert_eq!(bus_voltage_raw_to_mv(1000), 1250);
    assert_eq!(bus_voltage_raw_to_mv(4000), 5000);
}

#[test]
fn current_scales_by_the_lsb_and_rejects_negative_readings() {
    assert_eq!(current_raw_to_ma(1000, 153), Field::Val(153));
    assert_eq!(current_raw_to_ma(0, 153), Field::Val(0));
    assert_eq!(current_raw_to_ma(3, 153), Field::Val(0));
    assert_eq!(current_raw_to_ma(4, 153), Field::Val(1));
    assert_eq!(current_raw_to_ma(-1, 153), Field::Missing);
}

#[test]
fn power_uses_the_25x_power_lsb() {
    assert_eq!(power_raw_to_mw(0, 153), 0);
    assert_eq!(power_raw_to_mw(100, 153), 383);
    assert_eq!(power_raw_to_mw(1000, 153), 3825);
}

#[test]
fn derived_line_adds_the_shunt_drop() {
    let u17 = VoltageCurrent { voltage_mv: Field::Val(5000), current_ma: Field::Val(2000) };
    let u14 = derive_u14_meas_from_u17(u17);
    // 2000 mA across 10 mOhm drops 20 mV.
    assert_eq!(u14.voltage_mv, Field::Val(5020));
    assert_eq!(u14.current_ma, Field::Val(2000));

    let missing = derive_u14_meas_from_u17(VoltageCurrent {
        voltage_mv: Field::Val(5000),
        current_ma: Field::Missing,
    });
    assert_eq!(missing.voltage_mv, Field::Missing);
}

#[test]
fn calibration_matches_the_fixed_point_formula() {
    assert_eq!(u17_current_lsb_ua(), 153);
    // 0.00512 / (153 uA * 10000 uOhm) in the sensor's fixed-point form.
    assert_eq!(ina226_calibration(153, 10000), 3346);
    assert_eq!(ina226_calibration(0, 10000), 0);
    assert_eq!(ina226_calibration(1, 1), 65535);
}

#[test]
fn ceil_div_rounds_up_and_tolerates_zero() {
    assert_eq!(ceil_div_u32(5000000, 32768), 153);
    assert_eq!(ceil_div_u32(10, 5), 2);
    assert_eq!(ceil_div_u32(11, 5), 3);
    assert_eq!(ceil_div_u32(7, 0), 0);
}

#[test]
fn clamping_caps_at_the_display_range() {
    assert_eq!(clamp_u32_to_u16(1234), 1234);
    assert_eq!(clamp_u32_to_u16(70000), 65535);
}

#[test]
fn snapshot_carries_measured_derived_and_applied_lines() {
    let sp = PowerSetpoint { output_enabled: true, v_out_mv: 9000, i_lim_ma: 2100 };
    let snap = snapshot_from_raw(Some(4000), Some(1000), 153, sp);
    assert_eq!(snap.u17_meas.voltage_mv, Field::Val(5000));
    assert_eq!(snap.u17_meas.current_ma, Field::Val(153));
    assert_eq!(snap.u14_meas.voltage_mv, Field::Val(5001));
    assert_eq!(snap.u14_meas.current_ma, Field::Val(153));
    assert_eq!(snap.set_applied.voltage_mv, Field::Val(9000));
    assert_eq!(snap.set_applied.current_limit_ma, Field::Val(2100));
}

#[test]
fn snapshot_fails_fields_independently_but_derived_fails_whole() {
    let sp = PowerSetpoint { output_enabled: true, v_out_mv: 5000, i_lim_ma: 1000 };
    let snap = snapshot_from_raw(None, Some(1000), 153, sp);
    assert_eq!(snap.u17_meas.voltage_mv, Field::Missing);
    assert_eq!(snap.u17_meas.current_ma, Field::Val(153));
    assert_eq!(snap.u14_meas.voltage_mv, Field::Missing);
    assert_eq!(snap.u14_meas.current_ma, Field::Missing);
    // The applied line does not depend on the sensor.
    assert_eq!(snap.set_applied.voltage_mv, Field::Val(5000));
}

#[test]
fn port_metrics_come_from_the_sensor_registers() {
    let m = port_metrics_from_raw(Some(4000), Some(1000), Some(100), 153);
    assert_eq!(m.voltage_mv, Field::Val(5000));
    assert_eq!(m.current_ma, Field::Val(153));
    assert_eq!(m.power_mw, Field::Val(383));

    let all_err = port_metrics_from_raw(None, None, None, 153);
    assert_eq!(all_err, PortMetrics::err());
}

#[test]
fn telemetry_bus_admits_only_the_two_sensors() {
    assert!(ensure_telemetry_address::<()>(0x40).is_ok());
    assert!(ensure_telemetry_address::<()>(0x41).is_ok());
    assert_eq!(
        ensure_telemetry_address::<()>(0x50),
        Err(TelemetryI2cError::AddressNotAllowed(0x50))
    );
    assert_eq!(
        ensure_telemetry_address::<()>(0x3C),
        Err(TelemetryI2cError::AddressNotAllowed(0x3C))
    );
}

#[test]
fn telemetry_allowlist_owns_the_bus() {
    let mut guard = TelemetryI2cAllowlist::new(7u32);
    *guard.inner_mut() = 9;
    assert_eq!(guard.into_inner(), 9);
}

#[test]
fn field_map_converts_present_values_only() {
    let present: Field<u16> = Field::ok(21);
    assert_eq!(present.map(double), Field::Val(42));
    let missing: Field<u16> = Field::err();
    assert_eq!(missing.map(double), Field::Missing);
    assert!(missing.is_err());
    assert!(!present.is_err());
}

fn double(x: u16) -> u16 {
    x * 2
}

#[test]
fn applied_line_mirrors_the_setpoint() {
    let sp = PowerSetpoint { output_enabled: true, v_out_mv: 9000, i_lim_ma: 2100 };
    let line = SetApplied::from(sp);
    assert_eq!(line.voltage_mv, Field::Val(9000));
    assert_eq!(line.current_limit_ma, Field::Val(2100));
}

#[test]
fn sampler_owns_the_guarded_bus() {
    let mut sampler = NormalUiTelemetrySampler::new(1u32);
    *sampler.i2c_mut().inner_mut() = 2;
    assert_eq!(sampler.into_i2c().into_inner(), 2);
}
