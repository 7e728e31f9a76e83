//! Decoding of the charging front-end IC's status registers into a
//! [`PowerRequest`], and the "enable profile" configuration sequence that is
//! written to the IC at boot and after bus-error recovery.
//!
//! Register layout, as the IC's manual gives it:
//! - system status 3 (reg 0x0D): bit 7 is the chip's "device online"
//!   indicator; its semantics vary between chip variants, so it is decoded
//!   for diagnostics only and drives no functional decision.
//! - fast charging status (reg 0x06): bit 7 "in fast-charge protocol",
//!   bit 6 "in fast-charge voltage", bits 3..0 the active protocol id.

use vstd::prelude::*;
use crate::pd::{PowerRequest, ProtocolTag};

verus! {

/// Protocol id (low nibble of the fast charging status register) decoded to
/// the protocol catalog; ids not in the manual's table mean "none active".
pub open spec fn spec_protocol_of_id(id: u8) -> Option<ProtocolTag> {
    match id {
        1u8 => Some(ProtocolTag::Qc20),
        2u8 => Some(ProtocolTag::Qc30),
        3u8 => Some(ProtocolTag::Fcp),
        5u8 => Some(ProtocolTag::Scp),
        6u8 => Some(ProtocolTag::Pd),
        7u8 => Some(ProtocolTag::Pd),
        9u8 => Some(ProtocolTag::Pe20),
        12u8 => Some(ProtocolTag::Sfcp),
        13u8 => Some(ProtocolTag::Afc),
        _ => None,
    }
}

/// The request decoded from one poll of the charging IC's registers.
pub open spec fn spec_decode_power_request(
    status3_bits: u8,
    fast_charging_bits: u8,
    v_req_mv: u16,
    i_req_ma: u16,
) -> PowerRequest {
    PowerRequest {
        online: status3_bits & 0x80 != 0,
        fast_protocol: fast_charging_bits & 0x80 != 0,
        fast_voltage: fast_charging_bits & 0x40 != 0,
        negotiated_protocol: spec_protocol_of_id(fast_charging_bits & 0x0F),
        v_req_mv: v_req_mv,
        i_req_ma: i_req_ma,
    }
}

/// Decode the active protocol from the low nibble of the fast charging
/// status register.
pub fn protocol_of_id(id: u8) -> (r: Option<ProtocolTag>)
    ensures
        r == spec_protocol_of_id(id),
{
    match id {
        1u8 => Some(ProtocolTag::Qc20),
        2u8 => Some(ProtocolTag::Qc30),
        3u8 => Some(ProtocolTag::Fcp),
        5u8 => Some(ProtocolTag::Scp),
        6u8 => Some(ProtocolTag::Pd),
        7u8 => Some(ProtocolTag::Pd),
        9u8 => Some(ProtocolTag::Pe20),
        12u8 => Some(ProtocolTag::Sfcp),
        13u8 => Some(ProtocolTag::Afc),
        _ => None,
    }
}

/// Decode one poll of the charging IC: raw status-3 and fast-charging
/// register values plus the requested voltage and current, as read through
/// the guarded bus, into a [`PowerRequest`].
pub fn decode_power_request(
    status3_bits: u8,
    fast_charging_bits: u8,
    v_req_mv: u16,
    i_req_ma: u16,
) -> (req: PowerRequest)
    ensures
        req == spec_decode_power_request(status3_bits, fast_charging_bits, v_req_mv, i_req_ma),
{
    PowerRequest {
        online: status3_bits & 0x80 != 0,
        fast_protocol: fast_charging_bits & 0x80 != 0,
        fast_voltage: fast_charging_bits & 0x40 != 0,
        negotiated_protocol: protocol_of_id(fast_charging_bits & 0x0F),
        v_req_mv,
        i_req_ma,
    }
}

/// Whether a request shows an actively negotiated contract: a protocol is
/// reported, or the IC signals fast-charge protocol or voltage activity.
/// The chip-variant-ambiguous `online` bit takes no part in this.
pub open spec fn spec_negotiation_active(req: PowerRequest) -> bool {
    req.negotiated_protocol is Some || req.fast_protocol || req.fast_voltage
}

/// Whether the control loop should follow the request (translate it into a
/// setpoint) rather than hold the fixed keep-alive setpoint.
pub fn negotiation_active(req: &PowerRequest) -> (r: bool)
    ensures
        r == spec_negotiation_active(*req),
{
    req.negotiated_protocol.is_some() || req.fast_protocol || req.fast_voltage
}

/// The "enable profile" configuration written to the charging IC: cap power
/// at 100 W, enable every supported charging protocol and tier, and leave
/// the Type-C current broadcast to the chip.
#[derive(Clone, Copy, Debug, PartialEq, Eq, Structural)]
pub struct EnableProfilePlan {
    /// Power cap handed to the IC's power-config register, in watts.
    pub power_cap_w: u8,
    /// Enable USB power delivery.
    pub pd_enabled: bool,
    /// Enable the legacy fast-charge protocol family.
    pub legacy_fast_charge_enabled: bool,
    /// Enable the fixed-voltage tiers of the negotiated contract.
    pub all_fixed_voltages: bool,
    /// Enable programmable-supply (PPS) operation.
    pub pps_enabled: bool,
    /// Allow the 20 V tiers of the legacy protocols.
    pub high_voltage_tiers: bool,
    /// Do not force a Type-C current advertisement.
    pub force_type_c_current: bool,
}

/// The fixed enable-profile configuration.
pub fn enable_profile_plan() -> (plan: EnableProfilePlan)
    ensures
        plan.power_cap_w == 100,
        plan.pd_enabled,
        plan.legacy_fast_charge_enabled,
        plan.all_fixed_voltages,
        plan.pps_enabled,
        plan.high_voltage_tiers,
        !plan.force_type_c_current,
{
    EnableProfilePlan {
        power_cap_w: 100,
        pd_enabled: true,
        legacy_fast_charge_enabled: true,
        all_fixed_voltages: true,
        pps_enabled: true,
        high_voltage_tiers: true,
        force_type_c_current: false,
    }
}

/// Readback taken after the enable-profile sequence, for diagnostics: the
/// power-config mode and cap, and the raw status registers (`None` where the
/// readback itself failed).
#[derive(Clone, Copy, Debug, PartialEq, Eq)]
pub struct EnableProfileStatus {
    pub power_config_register_mode: bool,
    pub power_watts: u8,
    pub vin_mv: Option<u32>,
    pub vbus_mv: Option<u32>,
    pub system_status0: Option<u8>,
    pub system_status1: Option<u8>,
    pub system_status2: Option<u8>,
    pub system_status3: Option<u8>,
}

} // verus!
