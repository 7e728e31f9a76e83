//! Control-loop decisions: the error latches of the decoder, the regulator
//! and the renderer, the edge-triggered feedback events they emit, the
//! keep-alive fallback, the enable-profile retry throttle, and the loop's
//! adaptive pacing. The surrounding task performs the bus work and hands the
//! outcomes back in as plain values.

use vstd::prelude::*;
use crate::decoder::{negotiation_active, spec_negotiation_active};
use crate::pd::{PowerRequest, PowerSetpoint};
use crate::setpoint::{boot_supply_setpoint, power_request_to_setpoint, spec_to_setpoint,
    BOOT_ILIM_MA, BOOT_VOUT_MV};
use crate::tone::{ErrorKind, InitFailReason, SafetyKind, SoundEvent};

verus! {

/// Attempts made to apply the enable profile at boot.
pub const BOOT_PROFILE_ATTEMPTS: u8 = 3;
/// Pause between boot-time enable-profile attempts, in milliseconds.
pub const BOOT_PROFILE_BACKOFF_MS: u64 = 200;
/// Minimum spacing of runtime enable-profile retries, in milliseconds.
pub const PROFILE_RETRY_MIN_INTERVAL_MS: u64 = 60000;
/// Poll period while a contract is actively negotiated, in milliseconds.
pub const POLL_ACTIVE_MS: u64 = 10;
/// Poll period while idle or in decoder error, in milliseconds.
pub const POLL_IDLE_MS: u64 = 50;
/// Poll period after a regulator apply error, in milliseconds.
pub const POLL_ERROR_MS: u64 = 100;

/// The keep-alive setpoint as a spec value.
pub open spec fn spec_boot_setpoint() -> PowerSetpoint {
    PowerSetpoint { output_enabled: true, v_out_mv: BOOT_VOUT_MV, i_lim_ma: BOOT_ILIM_MA }
}

/// Latched health of the control loop's three independent error sources.
#[derive(Clone, Copy, Debug, PartialEq, Eq, Structural)]
pub struct ControlState {
    /// Decoder (charging IC bus) error latched.
    pub decoder_error: bool,
    /// Regulator apply error latched.
    pub regulator_error: bool,
    /// Renderer error latched.
    pub render_error: bool,
    /// When the enable profile was last attempted, for retry throttling.
    pub last_profile_attempt_ms: Option<u64>,
}

/// What one decoder poll decided: the setpoint to drive, the edge-triggered
/// feedback events, whether to re-apply the enable profile, and the pacing
/// of the next poll.
#[derive(Clone, Debug, PartialEq, Eq)]
pub struct PdTickPlan {
    pub setpoint: PowerSetpoint,
    pub events: Vec<SoundEvent>,
    pub retry_profile: bool,
    pub poll_delay_ms: u64,
}

impl ControlState {
    /// The boot state: no error latched, no profile attempt made.
    pub fn new_boot() -> (r: Self)
        ensures
            r == (ControlState {
                decoder_error: false,
                regulator_error: false,
                render_error: false,
                last_profile_attempt_ms: None::<u64>,
            }),
    {
        Self {
            decoder_error: false,
            regulator_error: false,
            render_error: false,
            last_profile_attempt_ms: None,
        }
    }

    /// Record that the enable profile was applied at boot (or first
    /// succeeded), so runtime retries are spaced from `now_ms`.
    pub fn note_profile_attempt(&mut self, now_ms: u64)
        ensures
            *final(self) == (ControlState { last_profile_attempt_ms: Some(now_ms), ..*old(self) }),
    {
        self.last_profile_attempt_ms = Some(now_ms);
    }
}

/// Whether a runtime enable-profile retry is due: only on an error-to-ok
/// transition of the decoder, and no sooner than the throttle interval
/// after the previous attempt.
pub open spec fn spec_profile_retry_due(s: ControlState, decoded_ok: bool, now_ms: u64) -> bool {
    &&& s.decoder_error
    &&& decoded_ok
    &&& match s.last_profile_attempt_ms {
        Some(t) => now_ms >= t + PROFILE_RETRY_MIN_INTERVAL_MS,
        None => true,
    }
}

/// Service the result of one decoder poll.
///
/// A failed poll latches the decoder error (emitting the enter-error event
/// on the transition only) and falls back to the fixed keep-alive setpoint.
/// A successful poll clears the latch (emitting the exit-error event on the
/// transition only), follows the request when a contract is active and the
/// keep-alive otherwise, and schedules an enable-profile retry exactly on a
/// throttled error-to-ok transition. The chip's ambiguous `online` bit plays
/// no part in any of this.
pub fn plan_pd_tick(
    state: &mut ControlState,
    outcome: Option<PowerRequest>,
    now_ms: u64,
) -> (plan: PdTickPlan)
    ensures
        final(state).regulator_error == old(state).regulator_error,
        final(state).render_error == old(state).render_error,
        outcome is None ==> {
            &&& final(state).decoder_error
            &&& final(state).last_profile_attempt_ms == old(state).last_profile_attempt_ms
            &&& plan.setpoint == spec_boot_setpoint()
            &&& !plan.retry_profile
            &&& plan.poll_delay_ms == POLL_IDLE_MS
            &&& plan.events@ == (if !old(state).decoder_error {
                    seq![SoundEvent::EnterError(ErrorKind::Sw2303I2c)]
                } else {
                    Seq::<SoundEvent>::empty()
                })
        },
        outcome matches Some(req) ==> {
            &&& !final(state).decoder_error
            &&& plan.setpoint == (if spec_negotiation_active(req) {
                    spec_to_setpoint(req)
                } else {
                    spec_boot_setpoint()
                })
            &&& plan.poll_delay_ms == (if spec_negotiation_active(req) {
                    POLL_ACTIVE_MS
                } else {
                    POLL_IDLE_MS
                })
            &&& plan.retry_profile == spec_profile_retry_due(*old(state), true, now_ms)
            &&& final(state).last_profile_attempt_ms == (if plan.retry_profile {
                    Some(now_ms)
                } else {
                    old(state).last_profile_attempt_ms
                })
            &&& plan.events@ == (if old(state).decoder_error {
                    seq![SoundEvent::ExitError(ErrorKind::Sw2303I2c)]
                } else {
                    Seq::<SoundEvent>::empty()
                })
        },
{
    let mut events: Vec<SoundEvent> = Vec::new();
    match outcome {
        None => {
            if !state.decoder_error {
                events.push(SoundEvent::EnterError(ErrorKind::Sw2303I2c));
            }
            state.decoder_error = true;
            proof {
                if !old(state).decoder_error {
                    assert(events@ =~= seq![SoundEvent::EnterError(ErrorKind::Sw2303I2c)]);
                } else {
                    assert(events@ =~= Seq::<SoundEvent>::empty());
                }
            }
            PdTickPlan {
                setpoint: boot_supply_setpoint(),
                events,
                retry_profile: false,
                poll_delay_ms: POLL_IDLE_MS,
            }
        }
        Some(req) => {
            let was_in_error = state.decoder_error;
            state.decoder_error = false;
            if was_in_error {
                events.push(SoundEvent::ExitError(ErrorKind::Sw2303I2c));
            }

            let allow_retry = match state.last_profile_attempt_ms {
                Some(t) => now_ms >= PROFILE_RETRY_MIN_INTERVAL_MS
                    && now_ms - PROFILE_RETRY_MIN_INTERVAL_MS >= t,
                None => true,
            };
            let retry_profile = was_in_error && allow_retry;
            if retry_profile {
                state.last_profile_attempt_ms = Some(now_ms);
            }

            let active = negotiation_active(&req);
            let setpoint = if active {
                power_request_to_setpoint(req)
            } else {
                boot_supply_setpoint()
            };
            proof {
                if old(state).decoder_error {
                    assert(events@ =~= seq![SoundEvent::ExitError(ErrorKind::Sw2303I2c)]);
                } else {
                    assert(events@ =~= Seq::<SoundEvent>::empty());
                }
            }
            PdTickPlan {
                setpoint,
                events,
                retry_profile,
                poll_delay_ms: if active { POLL_ACTIVE_MS } else { POLL_IDLE_MS },
            }
        }
    }
}

/// Service the outcome of one regulator apply.
///
/// A failure latches the regulator error and raises the continuous safety
/// alarm on the transition; a full success clears the latch and ends the
/// alarm on the transition. The regulator error never stops the loop.
pub fn note_regulator_outcome(state: &mut ControlState, ok: bool) -> (events: Vec<SoundEvent>)
    ensures
        final(state).regulator_error == !ok,
        final(state).decoder_error == old(state).decoder_error,
        final(state).render_error == old(state).render_error,
        final(state).last_profile_attempt_ms == old(state).last_profile_attempt_ms,
        events@ == (if !ok && !old(state).regulator_error {
            seq![SoundEvent::EnterSafety(SafetyKind::TpsApply)]
        } else if ok && old(state).regulator_error {
            seq![SoundEvent::ExitSafety(SafetyKind::TpsApply)]
        } else {
            Seq::<SoundEvent>::empty()
        }),
{
    let mut events: Vec<SoundEvent> = Vec::new();
    if !ok && !state.regulator_error {
        events.push(SoundEvent::EnterSafety(SafetyKind::TpsApply));
    } else if ok && state.regulator_error {
        events.push(SoundEvent::ExitSafety(SafetyKind::TpsApply));
    }
    state.regulator_error = !ok;
    proof {
        assert(events@ =~= (if !ok && !old(state).regulator_error {
            seq![SoundEvent::EnterSafety(SafetyKind::TpsApply)]
        } else if ok && old(state).regulator_error {
            seq![SoundEvent::ExitSafety(SafetyKind::TpsApply)]
        } else {
            Seq::<SoundEvent>::empty()
        }));
    }
    events
}

/// Service the outcome of one render pass: the renderer's own error latch,
/// edge-triggered like the others.
pub fn note_render_outcome(state: &mut ControlState, ok: bool) -> (events: Vec<SoundEvent>)
    ensures
        final(state).render_error == !ok,
        final(state).decoder_error == old(state).decoder_error,
        final(state).regulator_error == old(state).regulator_error,
        final(state).last_profile_attempt_ms == old(state).last_profile_attempt_ms,
        events@ == (if !ok && !old(state).render_error {
            seq![SoundEvent::EnterError(ErrorKind::UiRender)]
        } else if ok && old(state).render_error {
            seq![SoundEvent::ExitError(ErrorKind::UiRender)]
        } else {
            Seq::<SoundEvent>::empty()
        }),
{
    let mut events: Vec<SoundEvent> = Vec::new();
    if !ok && !state.render_error {
        events.push(SoundEvent::EnterError(ErrorKind::UiRender));
    } else if ok && state.render_error {
        events.push(SoundEvent::ExitError(ErrorKind::UiRender));
    }
    state.render_error = !ok;
    proof {
        assert(events@ =~= (if !ok && !old(state).render_error {
            seq![SoundEvent::EnterError(ErrorKind::UiRender)]
        } else if ok && old(state).render_error {
            seq![SoundEvent::ExitError(ErrorKind::UiRender)]
        } else {
            Seq::<SoundEvent>::empty()
        }));
    }
    events
}

/// The boot-failure feedback owed when the enable profile could not be
/// applied within the boot attempts; boot continues degraded either way.
pub fn boot_profile_feedback(applied: bool) -> (r: Option<SoundEvent>)
    ensures
        applied ==> r is None,
        !applied ==> r == Some(SoundEvent::InitFail(InitFailReason::Sw2303ProfileBoot)),
{
    if applied {
        None
    } else {
        Some(SoundEvent::InitFail(InitFailReason::Sw2303ProfileBoot))
    }
}

/// The pacing of the next loop iteration: slowest after a regulator error,
/// fast under active negotiation, relaxed otherwise.
pub fn loop_delay_ms(negotiation: bool, regulator_error: bool) -> (d: u64)
    ensures
        regulator_error ==> d == POLL_ERROR_MS,
        !regulator_error && negotiation ==> d == POLL_ACTIVE_MS,
        !regulator_error && !negotiation ==> d == POLL_IDLE_MS,
{
    if regulator_error {
        POLL_ERROR_MS
    } else if negotiation {
        POLL_ACTIVE_MS
    } else {
        POLL_IDLE_MS
    }
}

} // verus!
