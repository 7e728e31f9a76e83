//! Power-delivery data model: the negotiated request read from the charging
//! front-end IC and the quantized setpoint programmed into the regulator.

use vstd::prelude::*;

verus! {

/// Charging protocol currently negotiated by the front-end IC.
#[derive(Clone, Copy, Debug, PartialEq, Eq, Structural)]
pub enum ProtocolTag {
    Pd,
    Qc20,
    Qc30,
    Fcp,
    Afc,
    Scp,
    Pe20,
    Sfcp,
    Bc12,
}

/// Negotiated contract decoded from the charging IC on one poll.
///
/// `online` mirrors a chip-variant-ambiguous status bit and is surfaced for
/// diagnostics only; no functional decision may depend on it.
#[derive(Clone, Copy, Debug, PartialEq, Eq, Structural)]
pub struct PowerRequest {
    pub online: bool,
    pub fast_protocol: bool,
    pub fast_voltage: bool,
    pub negotiated_protocol: Option<ProtocolTag>,
    pub v_req_mv: u16,
    pub i_req_ma: u16,
}

/// Target the buck-boost regulator is instructed to produce.
#[derive(Clone, Copy, Debug, PartialEq, Eq, Structural)]
pub struct PowerSetpoint {
    pub output_enabled: bool,
    pub v_out_mv: u16,
    pub i_lim_ma: u16,
}

} // verus!
