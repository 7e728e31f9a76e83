//! Translation of a negotiated [`PowerRequest`] into a safety-quantized
//! regulator [`PowerSetpoint`], and the minimal-write discipline that
//! programs the regulator in a fixed safe order.
//!
//! Quantization always rounds *down* to the regulator's hardware step so the
//! output can never exceed the negotiated contract, and the current limit
//! additionally gives away one quantization step as a safety margin.

use vstd::prelude::*;
use crate::pd::{PowerRequest, PowerSetpoint};

verus! {

/// Voltage DAC step of the regulator, in millivolts.
pub const VOUT_STEP_MV: u16 = 20;
/// Lowest representable output voltage of the regulator, in millivolts.
pub const VOUT_MIN_MV: u16 = 800;
/// Highest representable output voltage of the regulator, in millivolts
/// (a 10-bit DAC above the floor: 800 + 1023 * 20).
pub const VOUT_MAX_MV: u16 = 21260;
/// Current-limit DAC step of the regulator, in milliamps.
pub const ILIM_STEP_MA: u16 = 50;
/// Highest representable current limit of the regulator, in milliamps.
pub const ILIM_MAX_MA: u16 = 6350;
/// Safety margin subtracted from the negotiated current before quantization:
/// one current-limit step.
pub const CURRENT_MARGIN_MA: u16 = 50;

/// Keep-alive output voltage used while no contract is negotiated.
pub const BOOT_VOUT_MV: u16 = 5000;
/// Conservative current limit of the keep-alive setpoint.
pub const BOOT_ILIM_MA: u16 = 1000;

/// The requested voltage clamped into the regulator's representable range.
pub open spec fn spec_clamp_vout(mv: int) -> int {
    if mv < VOUT_MIN_MV as int {
        VOUT_MIN_MV as int
    } else if mv > VOUT_MAX_MV as int {
        VOUT_MAX_MV as int
    } else {
        mv
    }
}

/// The regulator DAC code of a requested voltage: clamp, then floor to the
/// 20 mV step above the 800 mV floor.
pub open spec fn spec_vout_code(mv: int) -> int {
    (spec_clamp_vout(mv) - VOUT_MIN_MV as int) / (VOUT_STEP_MV as int)
}

/// Floor-quantized output voltage for a requested voltage.
pub open spec fn spec_quantize_vout(mv: int) -> int {
    VOUT_MIN_MV as int + spec_vout_code(mv) * (VOUT_STEP_MV as int)
}

/// The regulator current-limit DAC code for a requested limit: clamp to the
/// representable maximum, then floor to the 50 mA step.
pub open spec fn spec_ilim_code(ma: int) -> int {
    (if ma > ILIM_MAX_MA as int { ILIM_MAX_MA as int } else { ma }) / (ILIM_STEP_MA as int)
}

/// Floor-quantized, margin-reduced current limit for a negotiated current.
pub open spec fn spec_quantize_ilim(ma: int) -> int {
    let margined = if ma >= CURRENT_MARGIN_MA as int { ma - CURRENT_MARGIN_MA as int } else { 0 };
    spec_ilim_code(margined) * (ILIM_STEP_MA as int)
}

/// The setpoint derived from a negotiated request: floor-quantized voltage,
/// margin-reduced floor-quantized current, output enabled.
pub open spec fn spec_to_setpoint(req: PowerRequest) -> PowerSetpoint {
    PowerSetpoint {
        output_enabled: true,
        v_out_mv: spec_quantize_vout(req.v_req_mv as int) as u16,
        i_lim_ma: spec_quantize_ilim(req.i_req_ma as int) as u16,
    }
}

/// Relies on `tps55288::registers::vout_mv_to_code`: clamps the requested
/// millivolts to the DAC range (800..=21260) and floor-divides the excess
/// over the floor by the 20 mV step.
#[verifier::external_body]
fn vout_code_of_mv(mv: u16) -> (code: u16)
    ensures
        code as int == spec_vout_code(mv as int),
{
    tps55288::registers::vout_mv_to_code(mv)
}

/// Relies on `tps55288::registers::code_to_vout_mv`: caps the code at 1023
/// and returns 800 plus 20 mV per code step.
#[verifier::external_body]
fn vout_mv_of_code(code: u16) -> (mv: u16)
    ensures
        mv as int == VOUT_MIN_MV as int
            + (if code > 1023 { 1023int } else { code as int }) * (VOUT_STEP_MV as int),
{
    tps55288::registers::code_to_vout_mv(code)
}

/// Relies on `tps55288::registers::ilim_ma_to_code`: caps the milliamps at
/// 6350 and floor-divides by the 50 mA step.
#[verifier::external_body]
fn ilim_code_of_ma(ma: u16) -> (code: u8)
    ensures
        code as int == spec_ilim_code(ma as int),
{
    tps55288::registers::ilim_ma_to_code(ma)
}

/// Relies on `tps55288::registers::code_to_ilim_ma`: caps the code at 127
/// and returns 50 mA per code step.
#[verifier::external_body]
fn ilim_ma_of_code(code: u8) -> (ma: u16)
    ensures
        ma as int == (if code > 127 { 127int } else { code as int }) * (ILIM_STEP_MA as int),
{
    tps55288::registers::code_to_ilim_ma(code)
}

proof fn lemma_vout_code_range(mv: int)
    ensures
        0 <= spec_vout_code(mv) <= 1023,
{
    vstd::arithmetic::div_mod::lemma_div_pos_is_pos(spec_clamp_vout(mv) - VOUT_MIN_MV as int, VOUT_STEP_MV as int);
    if spec_vout_code(mv) > 1023 {
        vstd::arithmetic::div_mod::lemma_div_is_ordered(
            spec_clamp_vout(mv) - VOUT_MIN_MV as int,
            (VOUT_MAX_MV - VOUT_MIN_MV) as int,
            VOUT_STEP_MV as int,
        );
        assert((VOUT_MAX_MV as int - VOUT_MIN_MV as int) / (VOUT_STEP_MV as int) == 1023);
    }
}

/// Clamp the requested voltage to the regulator's range, then quantize it
/// down to the regulator's voltage step.
pub fn quantize_vout_mv_floor(mv: u16) -> (r: u16)
    ensures
        r as int == spec_quantize_vout(mv as int),
{
    let code = vout_code_of_mv(mv);
    proof {
        lemma_vout_code_range(mv as int);
    }
    vout_mv_of_code(code)
}

proof fn lemma_ilim_code_range(ma: int)
    ensures
        ma >= 0 ==> 0 <= spec_ilim_code(ma) <= 127,
{
    if ma >= 0 {
        let capped = if ma > ILIM_MAX_MA as int { ILIM_MAX_MA as int } else { ma };
        vstd::arithmetic::div_mod::lemma_div_pos_is_pos(capped, ILIM_STEP_MA as int);
        vstd::arithmetic::div_mod::lemma_div_is_ordered(capped, ILIM_MAX_MA as int, ILIM_STEP_MA as int);
        assert(ILIM_MAX_MA as int / (ILIM_STEP_MA as int) == 127);
    }
}

/// Subtract one step of safety margin from the negotiated current, clamp to
/// the regulator's range, then quantize down to the current-limit step.
pub fn quantize_ilim_ma_floor_with_margin(ma: u16) -> (r: u16)
    ensures
        r as int == spec_quantize_ilim(ma as int),
{
    let margined = if ma >= CURRENT_MARGIN_MA { ma - CURRENT_MARGIN_MA } else { 0 };
    let code = ilim_code_of_ma(margined);
    proof {
        lemma_ilim_code_range(margined as int);
    }
    ilim_ma_of_code(code)
}

/// Translate a negotiated request into a safe, quantized regulator setpoint.
pub fn power_request_to_setpoint(request: PowerRequest) -> (sp: PowerSetpoint)
    ensures
        sp == spec_to_setpoint(request),
{
    PowerSetpoint {
        output_enabled: true,
        v_out_mv: quantize_vout_mv_floor(request.v_req_mv),
        i_lim_ma: quantize_ilim_ma_floor_with_margin(request.i_req_ma),
    }
}

/// The fixed keep-alive setpoint used at boot and whenever no contract is
/// negotiated, so the regulator is never left at an undefined voltage.
pub fn boot_supply_setpoint() -> (sp: PowerSetpoint)
    ensures
        sp == (PowerSetpoint { output_enabled: true, v_out_mv: BOOT_VOUT_MV, i_lim_ma: BOOT_ILIM_MA }),
{
    PowerSetpoint { output_enabled: true, v_out_mv: BOOT_VOUT_MV, i_lim_ma: BOOT_ILIM_MA }
}

/// The quantized voltage never exceeds the range-clamped request, and sits
/// on the regulator's step grid above the range floor.
pub proof fn lemma_quantization_never_exceeds_request(mv: int)
    ensures
        spec_quantize_vout(mv) <= spec_clamp_vout(mv),
        (spec_quantize_vout(mv) - VOUT_MIN_MV as int) % (VOUT_STEP_MV as int) == 0,
        VOUT_MIN_MV as int <= spec_quantize_vout(mv) <= VOUT_MAX_MV as int,
{
    let excess = spec_clamp_vout(mv) - VOUT_MIN_MV as int;
    vstd::arithmetic::div_mod::lemma_fundamental_div_mod(excess, VOUT_STEP_MV as int);
    vstd::arithmetic::div_mod::lemma_mod_bound(excess, VOUT_STEP_MV as int);
    vstd::arithmetic::div_mod::lemma_mod_multiples_basic(spec_vout_code(mv), VOUT_STEP_MV as int);
    assert(spec_vout_code(mv) * (VOUT_STEP_MV as int) == (VOUT_STEP_MV as int) * spec_vout_code(mv))
        by (nonlinear_arith);
    lemma_vout_code_range(mv);
    assert(spec_vout_code(mv) * (VOUT_STEP_MV as int) <= 1023 * (VOUT_STEP_MV as int))
        by (nonlinear_arith)
        requires spec_vout_code(mv) <= 1023;
    vstd::arithmetic::div_mod::lemma_div_pos_is_pos(excess, VOUT_STEP_MV as int);
}

/// The margined, quantized current limit is at least one step below any
/// negotiated current that is above one step, and never above the
/// regulator's representable maximum.
pub proof fn lemma_current_margin(ma: int)
    ensures
        ma >= CURRENT_MARGIN_MA as int ==> spec_quantize_ilim(ma) <= ma - CURRENT_MARGIN_MA as int,
        0 <= spec_quantize_ilim(ma) <= ILIM_MAX_MA as int,
{
    let margined = if ma >= CURRENT_MARGIN_MA as int { ma - CURRENT_MARGIN_MA as int } else { 0 };
    let capped = if margined > ILIM_MAX_MA as int { ILIM_MAX_MA as int } else { margined };
    vstd::arithmetic::div_mod::lemma_fundamental_div_mod(capped, ILIM_STEP_MA as int);
    vstd::arithmetic::div_mod::lemma_mod_bound(capped, ILIM_STEP_MA as int);
    vstd::arithmetic::div_mod::lemma_div_pos_is_pos(capped, ILIM_STEP_MA as int);
    assert(spec_ilim_code(margined) * (ILIM_STEP_MA as int)
        == (ILIM_STEP_MA as int) * spec_ilim_code(margined)) by (nonlinear_arith);
}

/// A translated setpoint never exceeds the negotiated contract: the output
/// voltage stays at or below the range-clamped request on the regulator's
/// step grid, and the current limit stays at least one safety step below
/// any request above one step.
pub proof fn lemma_setpoint_within_contract(req: PowerRequest)
    ensures
        spec_to_setpoint(req).v_out_mv as int <= spec_clamp_vout(req.v_req_mv as int),
        (spec_to_setpoint(req).v_out_mv as int - VOUT_MIN_MV as int) % (VOUT_STEP_MV as int) == 0,
        req.i_req_ma >= CURRENT_MARGIN_MA
            ==> spec_to_setpoint(req).i_lim_ma as int
                <= req.i_req_ma as int - CURRENT_MARGIN_MA as int,
        spec_to_setpoint(req).i_lim_ma <= ILIM_MAX_MA,
{
    lemma_quantization_never_exceeds_request(req.v_req_mv as int);
    lemma_current_margin(req.i_req_ma as int);
}

/// One low-level operation of the regulator programming sequence.
#[derive(Clone, Copy, Debug, PartialEq, Eq, Structural)]
pub enum RegulatorOp {
    /// Turn the output off before reprogramming.
    Disable,
    /// Program the output current limit, in milliamps.
    SetCurrentLimit(u16),
    /// Program the output voltage, in millivolts.
    SetVoltage(u16),
    /// Turn the output back on.
    Enable,
}

/// Write cache of the regulator applier: the setpoint most recently written
/// with full success, or `None` after any failure (forcing a reprogram).
#[derive(Clone, Copy, Debug, PartialEq, Eq, Structural)]
pub struct TpsApplyState {
    pub last: Option<PowerSetpoint>,
}

impl TpsApplyState {
    pub fn new() -> (r: Self)
        ensures
            r.last is None,
    {
        Self { last: None }
    }
}

/// The operation sequence the applier issues for a setpoint: empty when the
/// setpoint equals the cached last write, otherwise the fixed safe order
/// disable, program current, program voltage, then enable only if requested.
pub open spec fn spec_plan_apply(state: TpsApplyState, sp: PowerSetpoint) -> Seq<RegulatorOp> {
    if state.last == Some(sp) {
        Seq::empty()
    } else if sp.output_enabled {
        seq![
            RegulatorOp::Disable,
            RegulatorOp::SetCurrentLimit(sp.i_lim_ma),
            RegulatorOp::SetVoltage(sp.v_out_mv),
            RegulatorOp::Enable,
        ]
    } else {
        seq![
            RegulatorOp::Disable,
            RegulatorOp::SetCurrentLimit(sp.i_lim_ma),
            RegulatorOp::SetVoltage(sp.v_out_mv),
        ]
    }
}

/// Plan the bus writes needed to bring the regulator to `sp`: a no-op when
/// the write cache already holds `sp`, else the full safe sequence.
pub fn plan_apply(state: &TpsApplyState, sp: PowerSetpoint) -> (ops: Vec<RegulatorOp>)
    ensures
        ops@ == spec_plan_apply(*state, sp),
{
    let suppressed = match state.last {
        Some(prev) => prev == sp,
        None => false,
    };
    let mut ops: Vec<RegulatorOp> = Vec::new();
    if !suppressed {
        ops.push(RegulatorOp::Disable);
        ops.push(RegulatorOp::SetCurrentLimit(sp.i_lim_ma));
        ops.push(RegulatorOp::SetVoltage(sp.v_out_mv));
        if sp.output_enabled {
            ops.push(RegulatorOp::Enable);
        }
    }
    proof {
        assert(ops@ =~= spec_plan_apply(*state, sp));
    }
    ops
}

/// Record the outcome of executing a planned sequence: a full success caches
/// the setpoint, any failure clears the cache so the next tick reprograms.
pub fn note_apply_outcome(state: &mut TpsApplyState, sp: PowerSetpoint, ok: bool)
    ensures
        ok ==> final(state).last == Some(sp),
        !ok ==> final(state).last is None,
{
    if ok {
        state.last = Some(sp);
    } else {
        state.last = None;
    }
}

/// Write suppression: once a setpoint has been applied successfully, planning
/// the same setpoint again issues no bus operation at all, so applying an
/// identical setpoint twice issues exactly one underlying write sequence.
pub proof fn lemma_write_suppression_idempotent(sp: PowerSetpoint)
    ensures
        spec_plan_apply(TpsApplyState { last: Some(sp) }, sp).len() == 0,
{
}

/// Safe ordering: whenever a change is required, the planned sequence is
/// exactly disable, program current limit, program voltage, and then enable
/// only when the setpoint asks for the output to be on; never another order.
pub proof fn lemma_safe_apply_order(state: TpsApplyState, sp: PowerSetpoint)
    ensures
        spec_plan_apply(state, sp).len() != 0 ==> {
            let ops = spec_plan_apply(state, sp);
            &&& ops[0] == RegulatorOp::Disable
            &&& ops[1] == RegulatorOp::SetCurrentLimit(sp.i_lim_ma)
            &&& ops[2] == RegulatorOp::SetVoltage(sp.v_out_mv)
            &&& sp.output_enabled ==> ops.len() == 4 && ops[3] == RegulatorOp::Enable
            &&& !sp.output_enabled ==> ops.len() == 3
        },
{
}

} // verus!
