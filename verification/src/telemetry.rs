//! Telemetry model: per-field validity, the frozen three-line snapshot
//! (measured, derived, applied), the integer conversions from the current
//! sensor's raw registers, and the allow-list guard of the telemetry bus.

use vstd::prelude::*;
use crate::pd::PowerSetpoint;

verus! {

/// 7-bit bus address of the current sensor on the primary measured rail.
pub const INA226_U17_ADDR_7BIT: u8 = 0x41;
/// 7-bit bus address of the current sensor on the secondary rail.
pub const INA226_U13_ADDR_7BIT: u8 = 0x40;
/// Shared shunt resistor, in micro-ohms.
pub const U17_R29_SHUNT_RESISTANCE_UOHMS: u32 = 10000;
/// Expected maximum current, for calibration scaling, in milliamps.
pub const U17_I_MAX_MA: u16 = 5000;

/// One telemetry field: a measured value, or unavailable after a read or
/// compute failure.
#[derive(Clone, Copy, Debug, PartialEq, Eq)]
pub enum Field<T> {
    Val(T),
    Missing,
}

impl<T> Field<T> {
    /// A present value.
    pub fn ok(value: T) -> (r: Self)
        ensures
            r == Field::Val(value),
    {
        Field::Val(value)
    }

    /// An unavailable field.
    pub fn err() -> (r: Self)
        ensures
            r == Field::<T>::Missing,
    {
        Field::Missing
    }

    /// Whether the field is unavailable.
    pub fn is_err(&self) -> (r: bool)
        ensures
            r == (*self is Missing),
    {
        matches!(self, Field::Missing)
    }

    /// Apply a conversion to a present value; an unavailable field stays
    /// unavailable.
    pub fn map<U, F: FnOnce(T) -> U>(self, f: F) -> (r: Field<U>)
        requires
            self matches Field::Val(v) ==> call_requires(f, (v,)),
        ensures
            self is Missing ==> r is Missing,
            self matches Field::Val(v)
                ==> (r matches Field::Val(u) && call_ensures(f, (v,), u)),
    {
        match self {
            Field::Val(v) => Field::Val(f(v)),
            Field::Missing => Field::Missing,
        }
    }
}

/// Voltage (mV) and current (mA) pair for display.
#[derive(Clone, Copy, Debug, PartialEq, Eq)]
pub struct VoltageCurrent {
    pub voltage_mv: Field<u16>,
    pub current_ma: Field<u16>,
}

impl VoltageCurrent {
    /// Both fields unavailable.
    pub fn err() -> (r: Self)
        ensures
            r.voltage_mv is Missing,
            r.current_ma is Missing,
    {
        Self { voltage_mv: Field::Missing, current_ma: Field::Missing }
    }
}

/// Display line of the applied setpoint: voltage and current limit.
#[derive(Clone, Copy, Debug, PartialEq, Eq)]
pub struct SetApplied {
    pub voltage_mv: Field<u16>,
    pub current_limit_ma: Field<u16>,
}

impl SetApplied {
    /// Both fields unavailable.
    pub fn err() -> (r: Self)
        ensures
            r.voltage_mv is Missing,
            r.current_limit_ma is Missing,
    {
        Self { voltage_mv: Field::Missing, current_limit_ma: Field::Missing }
    }

}

impl From<PowerSetpoint> for SetApplied {
    /// The applied-setpoint line of a regulator setpoint.
    fn from(setpoint: PowerSetpoint) -> (r: Self) {
        Self {
            voltage_mv: Field::Val(setpoint.v_out_mv),
            current_limit_ma: Field::Val(setpoint.i_lim_ma),
        }
    }
}

impl vstd::std_specs::convert::FromSpecImpl<PowerSetpoint> for SetApplied {
    open spec fn obeys_from_spec() -> bool {
        true
    }

    open spec fn from_spec(setpoint: PowerSetpoint) -> Self {
        SetApplied {
            voltage_mv: Field::Val(setpoint.v_out_mv),
            current_limit_ma: Field::Val(setpoint.i_lim_ma),
        }
    }
}

/// Frozen telemetry snapshot: three display lines.
#[derive(Clone, Copy, Debug, PartialEq, Eq)]
pub struct TelemetrySnapshot {
    /// Measured at the primary rail's current sensor.
    pub u17_meas: VoltageCurrent,
    /// Derived at the upstream node from the primary measurement.
    pub u14_meas: VoltageCurrent,
    /// The setpoint most recently applied to the regulator.
    pub set_applied: SetApplied,
}

impl TelemetrySnapshot {
    /// A snapshot with every field unavailable.
    pub fn all_err() -> (r: Self)
        ensures
            r.u17_meas.voltage_mv is Missing,
            r.u17_meas.current_ma is Missing,
            r.u14_meas.voltage_mv is Missing,
            r.u14_meas.current_ma is Missing,
            r.set_applied.voltage_mv is Missing,
            r.set_applied.current_limit_ma is Missing,
    {
        Self {
            u17_meas: VoltageCurrent::err(),
            u14_meas: VoltageCurrent::err(),
            set_applied: SetApplied::err(),
        }
    }
}

/// The derived upstream voltage in millivolts: the measured voltage plus the
/// shunt drop `current * resistance`, capped at the largest representable
/// value.
pub open spec fn spec_u14_voltage_mv(v_u17_mv: u16, i_u17_ma: u16) -> int {
    let v = v_u17_mv as int
        + (i_u17_ma as int * U17_R29_SHUNT_RESISTANCE_UOHMS as int) / 1000000;
    if v > u16::MAX as int { u16::MAX as int } else { v }
}

/// Derive the upstream node's measurement from the primary one: the voltage
/// gains the shunt drop, the current is the same; unavailable whenever
/// either input field is.
pub fn derive_u14_meas_from_u17(u17_meas: VoltageCurrent) -> (r: VoltageCurrent)
    ensures
        r.current_ma == u17_meas.current_ma,
        u17_meas.voltage_mv matches Field::Val(v) ==> (u17_meas.current_ma matches Field::Val(i)
            ==> r.voltage_mv == Field::<u16>::Val(spec_u14_voltage_mv(v, i) as u16)),
        (u17_meas.voltage_mv is Missing || u17_meas.current_ma is Missing)
            ==> r.voltage_mv is Missing,
{
    let voltage_mv = match (u17_meas.voltage_mv, u17_meas.current_ma) {
        (Field::Val(v_u17_mv), Field::Val(i_u17_ma)) => {
            let delta_mv = ((i_u17_ma as u32) * U17_R29_SHUNT_RESISTANCE_UOHMS / 1000000) as u32;
            let v_u14_mv: u32 = (v_u17_mv as u32) + delta_mv;
            let capped: u32 = if v_u14_mv < 65535 { v_u14_mv } else { 65535 };
            Field::Val(capped as u16)
        }
        _ => Field::Missing,
    };
    VoltageCurrent { voltage_mv, current_ma: u17_meas.current_ma }
}

/// The bus-voltage register value in millivolts: 1.25 mV per bit, rounded
/// half-up.
pub open spec fn spec_bus_voltage_mv(raw: u16) -> int {
    (raw as int * 125 + 50) / 100
}

/// Convert a raw bus-voltage register value to millivolts.
pub fn bus_voltage_raw_to_mv(raw: u16) -> (mv: u32)
    ensures
        mv == spec_bus_voltage_mv(raw),
{
    ((raw as u32) * 125 + 50) / 100
}

/// The current register value in milliamps at a given current LSB
/// (microamps per bit), rounded half-up; negative readings are unavailable.
pub open spec fn spec_current_ma(raw: i16, current_lsb_ua_per_bit: u32) -> Field<u32> {
    if raw < 0 {
        Field::Missing
    } else {
        let ua = raw as int * current_lsb_ua_per_bit as int;
        let capped = if ua > u32::MAX as int { u32::MAX as int } else { ua };
        Field::Val(((capped + 500) / 1000) as u32)
    }
}

/// Convert a raw current register value to milliamps.
pub fn current_raw_to_ma(raw: i16, current_lsb_ua_per_bit: u32) -> (r: Field<u32>)
    ensures
        r == spec_current_ma(raw, current_lsb_ua_per_bit),
{
    if raw < 0 {
        return Field::Missing;
    }
    proof {
        assert((raw as int) * (current_lsb_ua_per_bit as int) <= 32767 * (u32::MAX as int))
            by (nonlinear_arith)
            requires
                0 <= raw as int <= 32767,
                0 <= current_lsb_ua_per_bit as int <= u32::MAX as int,
        ;
    }
    let wide: u64 = (raw as u64) * (current_lsb_ua_per_bit as u64);
    let ua: u64 = if wide < u32::MAX as u64 { wide } else { u32::MAX as u64 };
    Field::Val(((ua + 500) / 1000) as u32)
}

/// The power register value in milliwatts: the power LSB is 25 times the
/// current LSB, so `raw * 25 * current_lsb / 1000`, rounded half-up.
pub open spec fn spec_power_mw(raw: u16, current_lsb_ua_per_bit: u32) -> int {
    (raw as int * (25 * current_lsb_ua_per_bit as int) + 500) / 1000
}

/// Convert a raw power register value to milliwatts.
pub fn power_raw_to_mw(raw: u16, current_lsb_ua_per_bit: u32) -> (mw: u64)
    ensures
        mw == spec_power_mw(raw, current_lsb_ua_per_bit),
{
    proof {
        assert((raw as int) * (25 * (current_lsb_ua_per_bit as int))
            <= 65535 * (25 * (u32::MAX as int)))
            by (nonlinear_arith)
            requires
                0 <= raw as int <= 65535,
                0 <= current_lsb_ua_per_bit as int <= u32::MAX as int,
        ;
    }
    let numerator: u64 = (raw as u64) * (25u64 * (current_lsb_ua_per_bit as u64));
    (numerator + 500) / 1000
}

/// Division rounding up, with zero for a zero divisor.
pub open spec fn spec_ceil_div_u32(n: u32, d: u32) -> int {
    if d == 0 { 0 } else { (n as int + d as int - 1) / d as int }
}

/// Ceiling division; zero when the divisor is zero.
pub fn ceil_div_u32(n: u32, d: u32) -> (r: u32)
    ensures
        r == spec_ceil_div_u32(n, d),
{
    if d == 0 {
        return 0;
    }
    let wide: u64 = (n as u64 + d as u64 - 1) / (d as u64);
    proof {
        assert((n as int + d as int - 1) / (d as int) <= u32::MAX as int) by (nonlinear_arith)
            requires
                1 <= d as int <= u32::MAX as int,
                0 <= n as int <= u32::MAX as int,
        ;
    }
    wide as u32
}

/// Clamp a 32-bit value into the 16-bit display range.
pub fn clamp_u32_to_u16(v: u32) -> (r: u16)
    ensures
        r as int == (if v > u16::MAX as u32 { u16::MAX as int } else { v as int }),
{
    if v > 65535 { 65535u16 } else { v as u16 }
}

/// The current LSB (microamps per bit) used for the primary sensor: the
/// expected maximum current spread over the sensor's 15-bit range, rounded
/// up.
pub fn u17_current_lsb_ua() -> (r: u32)
    ensures
        r == spec_ceil_div_u32(5000000, 32768),
{
    ceil_div_u32((U17_I_MAX_MA as u32) * 1000, 32768)
}

/// The sensor calibration word for a current LSB (uA/bit) and shunt
/// (uOhm): `0.00512 / (lsb * shunt)` in the sensor's fixed-point form,
/// capped at the register's range; zero when either input is zero.
pub open spec fn spec_ina226_calibration(current_lsb_ua: u32, rshunt_uohms: u32) -> int {
    let denom = current_lsb_ua as int * rshunt_uohms as int;
    if denom == 0 {
        0
    } else {
        let cal = 5120000000int / denom;
        if cal > u16::MAX as int { u16::MAX as int } else { cal }
    }
}

/// Compute the sensor's calibration register value.
pub fn ina226_calibration(current_lsb_ua: u32, rshunt_uohms: u32) -> (cal: u16)
    ensures
        cal as int == spec_ina226_calibration(current_lsb_ua, rshunt_uohms),
{
    proof {
        assert((current_lsb_ua as int) * (rshunt_uohms as int)
            <= (u32::MAX as int) * (u32::MAX as int) && (u32::MAX as int) * (u32::MAX as int)
            < 0x10000000000000000)
            by (nonlinear_arith)
            requires
                0 <= current_lsb_ua as int <= u32::MAX as int,
                0 <= rshunt_uohms as int <= u32::MAX as int,
        ;
    }
    let denom: u64 = (current_lsb_ua as u64) * (rshunt_uohms as u64);
    if denom == 0 {
        return 0;
    }
    let cal: u64 = 5120000000u64 / denom;
    proof {
        assert((current_lsb_ua as int) * (rshunt_uohms as int) == denom as int);
    }
    if cal > 65535 { 65535u16 } else { cal as u16 }
}

/// Assemble the frozen snapshot from one poll of the primary sensor's raw
/// registers (`None` where the bus read failed) and the applied setpoint.
/// Each measured field fails alone; the derived line fails whole when any
/// measured field is unavailable.
pub fn snapshot_from_raw(
    bus_voltage_raw: Option<u16>,
    current_raw: Option<i16>,
    current_lsb_ua: u32,
    setpoint_applied: PowerSetpoint,
) -> (snap: TelemetrySnapshot)
    ensures
        bus_voltage_raw matches Some(raw) ==> snap.u17_meas.voltage_mv == Field::<u16>::Val(
            (if spec_bus_voltage_mv(raw) > u16::MAX as int { u16::MAX as int } else { spec_bus_voltage_mv(raw) }) as u16
        ),
        bus_voltage_raw is None ==> snap.u17_meas.voltage_mv is Missing,
        current_raw matches Some(raw) ==> (spec_current_ma(raw, current_lsb_ua) matches Field::Val(ma)
            ==> snap.u17_meas.current_ma == Field::<u16>::Val(
                (if ma > u16::MAX as u32 { u16::MAX as int } else { ma as int }) as u16)),
        current_raw matches Some(raw) ==> (spec_current_ma(raw, current_lsb_ua) is Missing
            ==> snap.u17_meas.current_ma is Missing),
        current_raw is None ==> snap.u17_meas.current_ma is Missing,
        snap.u17_meas.voltage_mv is Missing || snap.u17_meas.current_ma is Missing
            ==> snap.u14_meas.voltage_mv is Missing && snap.u14_meas.current_ma is Missing,
        !(snap.u17_meas.voltage_mv is Missing) && !(snap.u17_meas.current_ma is Missing)
            ==> snap.u14_meas == derive_spec(snap.u17_meas),
        snap.set_applied.voltage_mv == Field::Val(setpoint_applied.v_out_mv),
        snap.set_applied.current_limit_ma == Field::Val(setpoint_applied.i_lim_ma),
{
    let voltage_mv = match bus_voltage_raw {
        Some(raw) => Field::Val(clamp_u32_to_u16(bus_voltage_raw_to_mv(raw))),
        None => Field::Missing,
    };
    let current_ma = match current_raw {
        Some(raw) => {
            match current_raw_to_ma(raw, current_lsb_ua) {
                Field::Val(ma) => Field::Val(clamp_u32_to_u16(ma)),
                Field::Missing => Field::Missing,
            }
        }
        None => Field::Missing,
    };
    let u17_meas = VoltageCurrent { voltage_mv, current_ma };
    let u14_meas = if u17_meas.voltage_mv.is_err() || u17_meas.current_ma.is_err() {
        VoltageCurrent::err()
    } else {
        derive_u14_meas_from_u17(u17_meas)
    };
    TelemetrySnapshot {
        u17_meas,
        u14_meas,
        set_applied: SetApplied::from(setpoint_applied),
    }
}

/// What the derived line holds for an available measurement.
pub open spec fn derive_spec(u17_meas: VoltageCurrent) -> VoltageCurrent {
    VoltageCurrent {
        voltage_mv: match (u17_meas.voltage_mv, u17_meas.current_ma) {
            (Field::Val(v), Field::Val(i)) => Field::Val(spec_u14_voltage_mv(v, i) as u16),
            _ => Field::Missing,
        },
        current_ma: u17_meas.current_ma,
    }
}

/// Failure of a guarded telemetry transaction.
#[derive(Clone, Copy, Debug, PartialEq, Eq)]
pub enum TelemetryI2cError<E> {
    AddressNotAllowed(u8),
    Bus(E),
}

/// Whether a 7-bit address may be used on the telemetry bus: only the two
/// current sensors, never any other device sharing the bus.
pub open spec fn spec_telemetry_address_allowed(address: u8) -> bool {
    address == INA226_U13_ADDR_7BIT || address == INA226_U17_ADDR_7BIT
}

/// Reject a telemetry transaction target that is not one of the two current
/// sensors, before the underlying bus is touched.
pub fn ensure_telemetry_address<E>(address: u8) -> (r: Result<(), TelemetryI2cError<E>>)
    ensures
        r is Ok <==> spec_telemetry_address_allowed(address),
        r matches Err(e) ==> e == TelemetryI2cError::<E>::AddressNotAllowed(address),
{
    if address == INA226_U13_ADDR_7BIT || address == INA226_U17_ADDR_7BIT {
        Ok(())
    } else {
        Err(TelemetryI2cError::AddressNotAllowed(address))
    }
}

/// Wrapper that owns the underlying telemetry bus; every transaction made
/// through it must first pass [`ensure_telemetry_address`].
pub struct TelemetryI2cAllowlist<I2C> {
    inner: I2C,
}

impl<I2C> TelemetryI2cAllowlist<I2C> {
    /// The wrapped bus, for use in contracts.
    pub closed spec fn bus(self) -> I2C {
        self.inner
    }

    pub fn new(inner: I2C) -> (r: Self)
        ensures
            r.bus() == inner,
    {
        Self { inner }
    }

    pub fn into_inner(self) -> (r: I2C)
        ensures
            r == self.bus(),
    {
        self.inner
    }

    pub fn inner_mut(&mut self) -> (r: &mut I2C)
        ensures
            *r == old(self).bus(),
            final(self).bus() == *final(r),
    {
        &mut self.inner
    }
}

/// Per-port metrics of the two-port display: voltage, current and power.
#[derive(Clone, Copy, Debug, PartialEq, Eq)]
pub struct PortMetrics {
    pub voltage_mv: Field<u32>,
    pub current_ma: Field<u32>,
    pub power_mw: Field<u32>,
}

impl PortMetrics {
    /// Every field unavailable.
    pub fn err() -> (r: Self)
        ensures
            r.voltage_mv is Missing,
            r.current_ma is Missing,
            r.power_mw is Missing,
    {
        Self { voltage_mv: Field::Missing, current_ma: Field::Missing, power_mw: Field::Missing }
    }
}

/// Two-port telemetry snapshot.
#[derive(Clone, Copy, Debug, PartialEq, Eq)]
pub struct NormalUiTelemetrySnapshot {
    pub usb_a: PortMetrics,
    pub usb_c: PortMetrics,
}

/// Owner of the guarded telemetry bus for the two-port display. The sensor
/// driver that fills [`NormalUiTelemetrySnapshot`] runs outside the library
/// and assembles each port through [`port_metrics_from_raw`].
pub struct NormalUiTelemetrySampler<I2C> {
    i2c: TelemetryI2cAllowlist<I2C>,
}

impl<I2C> NormalUiTelemetrySampler<I2C> {
    /// The guarded bus, for use in contracts.
    pub closed spec fn guard(self) -> TelemetryI2cAllowlist<I2C> {
        self.i2c
    }

    /// Own a raw bus, placing it behind the telemetry allow-list.
    pub fn new(i2c: I2C) -> (r: Self)
        ensures
            r.guard().bus() == i2c,
    {
        Self::new_with_allowlist(TelemetryI2cAllowlist::new(i2c))
    }

    /// Own an already-guarded bus.
    pub fn new_with_allowlist(i2c: TelemetryI2cAllowlist<I2C>) -> (r: Self)
        ensures
            r.guard() == i2c,
    {
        Self { i2c }
    }

    /// The guarded bus, for the driver that performs the reads.
    pub fn i2c_mut(&mut self) -> (r: &mut TelemetryI2cAllowlist<I2C>)
        ensures
            *r == old(self).guard(),
            final(self).guard() == *final(r),
    {
        &mut self.i2c
    }

    /// Give the guarded bus back.
    pub fn into_i2c(self) -> (r: TelemetryI2cAllowlist<I2C>)
        ensures
            r == self.guard(),
    {
        self.i2c
    }
}

/// Assemble one port's metrics from raw sensor readings (`None` where the
/// bus read failed); power comes from the sensor's power register, never
/// from multiplying the other two fields.
pub fn port_metrics_from_raw(
    bus_voltage_raw: Option<u16>,
    current_raw: Option<i16>,
    power_raw: Option<u16>,
    current_lsb_ua_per_bit: u32,
) -> (m: PortMetrics)
    ensures
        bus_voltage_raw matches Some(raw)
            ==> m.voltage_mv == Field::<u32>::Val(spec_bus_voltage_mv(raw) as u32),
        bus_voltage_raw is None ==> m.voltage_mv is Missing,
        current_raw matches Some(raw)
            ==> m.current_ma == spec_current_ma(raw, current_lsb_ua_per_bit),
        current_raw is None ==> m.current_ma is Missing,
        power_raw matches Some(raw) ==> m.power_mw == Field::<u32>::Val(
            (if spec_power_mw(raw, current_lsb_ua_per_bit) > u32::MAX as int {
                u32::MAX as int
            } else {
                spec_power_mw(raw, current_lsb_ua_per_bit)
            }) as u32
        ),
        power_raw is None ==> m.power_mw is Missing,
{
    let voltage_mv = match bus_voltage_raw {
        Some(raw) => Field::Val(bus_voltage_raw_to_mv(raw)),
        None => Field::Missing,
    };
    let current_ma = match current_raw {
        Some(raw) => current_raw_to_ma(raw, current_lsb_ua_per_bit),
        None => Field::Missing,
    };
    let power_mw = match power_raw {
        Some(raw) => {
            let mw = power_raw_to_mw(raw, current_lsb_ua_per_bit);
            let capped: u64 = if mw < u32::MAX as u64 { mw } else { u32::MAX as u64 };
            Field::Val(capped as u32)
        }
        None => Field::Missing,
    };
    PortMetrics { voltage_mv, current_ma, power_mw }
}

} // verus!
