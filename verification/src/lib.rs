//! Core logic of a dual-port USB power hub: decoding of the charging
//! front-end's negotiated contract, safety-quantized regulator setpoints with
//! a minimal-write discipline, per-port power/data state machines driven by
//! debounced buttons, and a priority-based prompt tone sequencer.

mod bus_guard;
mod button;
mod control;
mod decoder;
mod display;
mod pd;
mod port;
mod setpoint;
mod spi;
mod telemetry;
mod tone;
mod tone_manager;

pub use bus_guard::{
    ensure_allowed_address, I2cAllowlist, I2cAllowlistError, PdI2cAddr, SW2303_ADDR_7BIT,
    TPS55288_ADDR_7BIT,
};
pub use button::{classify_press, ButtonEdge, DebouncedButton, PressClass};
pub use control::{
    boot_profile_feedback, loop_delay_ms, note_regulator_outcome, note_render_outcome,
    plan_pd_tick, ControlState, PdTickPlan, BOOT_PROFILE_ATTEMPTS, BOOT_PROFILE_BACKOFF_MS,
    POLL_ACTIVE_MS, POLL_ERROR_MS, POLL_IDLE_MS, PROFILE_RETRY_MIN_INTERVAL_MS,
};
pub use decoder::{
    decode_power_request, enable_profile_plan, negotiation_active, protocol_of_id,
    EnableProfilePlan, EnableProfileStatus,
};
pub use display::{
    format_ma_2dp_4, format_mv_2dp_5, glyph_6x8, render_char_6x8_scaled, set_1bpp_24x48,
    FrameCache,
};
pub use pd::{PowerRequest, PowerSetpoint, ProtocolTag};
pub use port::{ButtonOutcome, PortData, PortPower, PortState};
pub use setpoint::{
    boot_supply_setpoint, note_apply_outcome, plan_apply, power_request_to_setpoint,
    quantize_ilim_ma_floor_with_margin, quantize_vout_mv_floor, RegulatorOp, TpsApplyState,
};
pub use spi::CsSpiDevice;
pub use telemetry::{
    bus_voltage_raw_to_mv, ceil_div_u32, clamp_u32_to_u16, current_raw_to_ma,
    derive_u14_meas_from_u17, ensure_telemetry_address, ina226_calibration, port_metrics_from_raw,
    power_raw_to_mw, snapshot_from_raw, u17_current_lsb_ua, Field, NormalUiTelemetrySampler,
    NormalUiTelemetrySnapshot, PortMetrics, SetApplied, TelemetryI2cAllowlist, TelemetryI2cError,
    TelemetrySnapshot, VoltageCurrent, INA226_U13_ADDR_7BIT, INA226_U17_ADDR_7BIT, U17_I_MAX_MA,
    U17_R29_SHUNT_RESISTANCE_UOHMS,
};
pub use tone::{
    map_error_to_sound, pattern_for, sound_priority, step_duration, BuzzerControl, BuzzerError,
    ErrorKind, InitFailReason, InitWarnReason, SafetyKind, SoundEvent, SoundId, SoundPattern,
    SoundRepeat, SoundStep, DEFAULT_DUTY_PCT, DEFAULT_FREQ_HZ,
};
pub use tone_manager::{ActivePlayback, BootSeverity, PromptToneManager, SoundQueue, QUEUE_CAP};
