//! Per-port logical state: power on/off, data connected/disconnected/pulsing,
//! and the busy guard that rejects button actions while a previous action is
//! still settling. The state is reconciled into the two physical control
//! lines (power enable, data connect) once per tick.

use vstd::prelude::*;
use crate::button::PressClass;

verus! {

/// How long a data pulse keeps the data lines disconnected, in milliseconds.
pub const DATA_PULSE_MS: u64 = 250;
/// Guard window after a power toggle that absorbs switch transients, in
/// milliseconds.
pub const BUSY_GUARD_MS: u64 = 500;

/// Logical power state of a port.
#[derive(Clone, Copy, Debug, PartialEq, Eq, Structural)]
pub enum PortPower {
    On,
    Off,
}

/// Logical data-line state of a port.
#[derive(Clone, Copy, Debug, PartialEq, Eq, Structural)]
pub enum PortData {
    Connected,
    Disconnected,
    /// Data lines held disconnected until the deadline, then reconnected.
    Pulsing { until_ms: u64 },
}

/// Logical state of one port.
#[derive(Clone, Copy, Debug, PartialEq, Eq, Structural)]
pub struct PortState {
    pub power: PortPower,
    pub data: PortData,
    /// While in the future, new button actions are rejected as busy.
    pub busy_until_ms: Option<u64>,
}

/// What servicing a button release did to the port.
#[derive(Clone, Copy, Debug, PartialEq, Eq, Structural)]
pub enum ButtonOutcome {
    /// The port was busy; nothing changed, "busy" feedback is owed.
    RejectedBusy,
    /// The press duration was in no valid band; nothing changed,
    /// "bad-timing" feedback is owed.
    RejectedInvalid,
    /// Short press on a powered port: a data pulse was started.
    DataPulseStarted,
    /// Short press on an unpowered port: the port was powered on.
    PoweredOn,
    /// Long press: power was toggled off.
    PoweredOff,
    /// Long press: power was toggled on.
    PoweredOnByLongPress,
}

/// A port's state is well formed when power off forces data disconnected.
pub open spec fn spec_port_wf(s: PortState) -> bool {
    s.power is Off ==> s.data is Disconnected
}

/// Whether the port is busy at `now_ms`: the busy guard is still in the
/// future, or a data pulse is still running.
pub open spec fn spec_is_busy(s: PortState, now_ms: u64) -> bool {
    ||| s.busy_until_ms matches Some(t) && now_ms < t
    ||| s.data is Pulsing
}

/// The saturating deadline `now_ms + delta_ms` in milliseconds.
pub open spec fn spec_deadline(now_ms: u64, delta_ms: u64) -> u64 {
    if now_ms + delta_ms > u64::MAX { u64::MAX } else { (now_ms + delta_ms) as u64 }
}

/// Saturating addition of two millisecond counts.
pub fn deadline_ms(now_ms: u64, delta_ms: u64) -> (r: u64)
    ensures
        r == spec_deadline(now_ms, delta_ms),
{
    if now_ms > u64::MAX - delta_ms {
        u64::MAX
    } else {
        now_ms + delta_ms
    }
}

/// The port state after one reconciliation tick.
pub open spec fn spec_reconcile_state(s: PortState, now_ms: u64) -> PortState {
    if s.power is Off {
        PortState { data: PortData::Disconnected, ..s }
    } else if s.data matches PortData::Pulsing { until_ms } && now_ms >= until_ms {
        PortState { data: PortData::Connected, ..s }
    } else {
        s
    }
}

/// Whether one reconciliation tick ends a data pulse (owing a "data
/// reconnected" feedback signal).
pub open spec fn spec_reconcile_reconnected(s: PortState, now_ms: u64) -> bool {
    s.power is On && (s.data matches PortData::Pulsing { until_ms } && now_ms >= until_ms)
}

/// The port state after a classified button release at `now_ms`.
pub open spec fn spec_on_button_release(s: PortState, class: PressClass, now_ms: u64) -> PortState {
    if spec_is_busy(s, now_ms) || class is Invalid {
        s
    } else if class is Short {
        if s.power is On {
            PortState {
                power: PortPower::On,
                data: PortData::Pulsing { until_ms: spec_deadline(now_ms, DATA_PULSE_MS) },
                busy_until_ms: Some(spec_deadline(now_ms, DATA_PULSE_MS)),
            }
        } else {
            PortState {
                power: PortPower::On,
                data: PortData::Connected,
                busy_until_ms: Some(spec_deadline(now_ms, BUSY_GUARD_MS)),
            }
        }
    } else {
        if s.power is On {
            PortState {
                power: PortPower::Off,
                data: PortData::Disconnected,
                busy_until_ms: Some(spec_deadline(now_ms, BUSY_GUARD_MS)),
            }
        } else {
            PortState {
                power: PortPower::On,
                data: PortData::Connected,
                busy_until_ms: Some(spec_deadline(now_ms, BUSY_GUARD_MS)),
            }
        }
    }
}

/// The outcome reported for a classified button release at `now_ms`.
pub open spec fn spec_button_outcome(s: PortState, class: PressClass, now_ms: u64) -> ButtonOutcome {
    if spec_is_busy(s, now_ms) {
        ButtonOutcome::RejectedBusy
    } else if class is Invalid {
        ButtonOutcome::RejectedInvalid
    } else if class is Short {
        if s.power is On { ButtonOutcome::DataPulseStarted } else { ButtonOutcome::PoweredOn }
    } else {
        if s.power is On { ButtonOutcome::PoweredOff } else { ButtonOutcome::PoweredOnByLongPress }
    }
}

impl PortState {
    /// The boot state of a port: powered, data connected, not busy.
    pub fn new_boot() -> (r: Self)
        ensures
            r == (PortState { power: PortPower::On, data: PortData::Connected, busy_until_ms: None }),
            spec_port_wf(r),
    {
        Self { power: PortPower::On, data: PortData::Connected, busy_until_ms: None }
    }

    /// Whether a new button action would be rejected at `now_ms`.
    pub fn is_busy(&self, now_ms: u64) -> (r: bool)
        ensures
            r == spec_is_busy(*self, now_ms),
    {
        let guard_active = match self.busy_until_ms {
            Some(t) => now_ms < t,
            None => false,
        };
        guard_active || matches!(self.data, PortData::Pulsing { .. })
    }

    /// One reconciliation tick: power off forces data disconnected, and an
    /// elapsed data pulse reconnects the data lines. Returns whether a data
    /// pulse just ended (a "data reconnected" feedback signal is owed).
    pub fn reconcile(&mut self, now_ms: u64) -> (reconnected: bool)
        ensures
            *final(self) == spec_reconcile_state(*old(self), now_ms),
            reconnected == spec_reconcile_reconnected(*old(self), now_ms),
            spec_port_wf(*final(self)),
    {
        match self.power {
            PortPower::Off => {
                self.data = PortData::Disconnected;
                false
            }
            PortPower::On => {
                match self.data {
                    PortData::Pulsing { until_ms } => {
                        if now_ms >= until_ms {
                            self.data = PortData::Connected;
                            true
                        } else {
                            false
                        }
                    }
                    _ => false,
                }
            }
        }
    }

    /// Service a classified button release: rejected while busy or invalid
    /// (no state change), otherwise a short press pulses the data lines of a
    /// powered port or powers an unpowered port on, and a long press toggles
    /// power; every accepted action arms the busy guard.
    pub fn on_button_release(&mut self, class: PressClass, now_ms: u64) -> (outcome: ButtonOutcome)
        ensures
            *final(self) == spec_on_button_release(*old(self), class, now_ms),
            outcome == spec_button_outcome(*old(self), class, now_ms),
            spec_is_busy(*old(self), now_ms) ==> *final(self) == *old(self)
                && outcome == ButtonOutcome::RejectedBusy,
            spec_port_wf(*old(self)) ==> spec_port_wf(*final(self)),
    {
        if self.is_busy(now_ms) {
            return ButtonOutcome::RejectedBusy;
        }
        match class {
            PressClass::Invalid => ButtonOutcome::RejectedInvalid,
            PressClass::Short => {
                match self.power {
                    PortPower::On => {
                        let until = deadline_ms(now_ms, DATA_PULSE_MS);
                        self.data = PortData::Pulsing { until_ms: until };
                        self.busy_until_ms = Some(until);
                        ButtonOutcome::DataPulseStarted
                    }
                    PortPower::Off => {
                        self.power = PortPower::On;
                        self.data = PortData::Connected;
                        self.busy_until_ms = Some(deadline_ms(now_ms, BUSY_GUARD_MS));
                        ButtonOutcome::PoweredOn
                    }
                }
            }
            PressClass::Long => {
                match self.power {
                    PortPower::On => {
                        self.power = PortPower::Off;
                        self.data = PortData::Disconnected;
                        self.busy_until_ms = Some(deadline_ms(now_ms, BUSY_GUARD_MS));
                        ButtonOutcome::PoweredOff
                    }
                    PortPower::Off => {
                        self.power = PortPower::On;
                        self.data = PortData::Connected;
                        self.busy_until_ms = Some(deadline_ms(now_ms, BUSY_GUARD_MS));
                        ButtonOutcome::PoweredOnByLongPress
                    }
                }
            }
        }
    }

    /// The physical control-line levels for this state: the power-enable
    /// line follows power, and the data-connect line is asserted only while
    /// powered with data connected.
    pub fn control_lines(&self) -> (r: (bool, bool))
        ensures
            r.0 == (self.power is On),
            r.1 == (self.power is On && self.data is Connected),
    {
        let power_enable = matches!(self.power, PortPower::On);
        let data_connect = power_enable && matches!(self.data, PortData::Connected);
        (power_enable, data_connect)
    }
}

/// Busy rejection: a button release that arrives while the port is busy
/// never mutates the port state and always reports the busy feedback path.
pub proof fn lemma_busy_rejection(s: PortState, class: PressClass, now_ms: u64)
    requires
        spec_is_busy(s, now_ms),
    ensures
        spec_on_button_release(s, class, now_ms) == s,
        spec_button_outcome(s, class, now_ms) == ButtonOutcome::RejectedBusy,
{
}

/// An invalid press never mutates the port state either.
pub proof fn lemma_invalid_press_rejected(s: PortState, now_ms: u64)
    ensures
        spec_on_button_release(s, PressClass::Invalid, now_ms) == s,
{
}

} // verus!
