//! Prompt tone catalog: sound identities with their fixed priorities, the
//! events that request them, and the tone/silence step patterns they play.
//!
//! The buzzer itself is hardware behind the [`BuzzerControl`] trait; patterns
//! here carry explicit per-step durations in milliseconds and either play
//! once or loop until explicitly stopped.

use vstd::prelude::*;

verus! {

/// Base frequency used by all default patterns, in Hertz.
pub const DEFAULT_FREQ_HZ: u32 = 2700;
/// Duty cycle used by all default patterns, in percent; kept low on purpose
/// (light volume is a safety requirement of the output stage).
pub const DEFAULT_DUTY_PCT: u8 = 8;

/// A buzzer control error.
#[derive(Clone, Copy, Debug, PartialEq, Eq, Structural)]
pub enum BuzzerError {
    /// The duty cycle is out of range (0..=100).
    InvalidDutyPct(u8),
    /// The requested frequency is invalid (for example, zero).
    InvalidFreqHz(u32),
    /// The underlying driver or hardware reported an error.
    Hardware,
}

/// Minimal, non-blocking control of a buzzer output; implementations drive
/// the buzzer with hardware PWM so tone generation never blocks the loop.
pub trait BuzzerControl {
    /// Start outputting a square-wave tone.
    fn start_tone(&mut self, freq_hz: u32, duty_pct: u8) -> Result<(), BuzzerError>;

    /// Stop any output and leave the buzzer silent.
    fn stop(&mut self) -> Result<(), BuzzerError>;
}

/// The catalog of prompt sounds.
#[derive(Clone, Copy, Debug, PartialEq, Eq, Structural)]
pub enum SoundId {
    /// Normal boot completed successfully.
    BootOk,
    /// Boot completed with a warning (degraded, but runnable).
    BootWarn,
    /// Boot failed in a critical path.
    BootFail,
    /// A non-safety warning during runtime.
    WarningOnce,
    /// A general runtime error.
    ErrorOnce,
    /// Continuous alarm for safety-critical conditions.
    SafetyAlarm,
    /// A "recovered" acknowledgement.
    RecoverOnce,
    /// A short acknowledgement for user actions.
    ActionOnce,
    /// A power-delivery related acknowledgement or alert.
    PdOnce,
    /// Safety-specific alarms, ranked with the safety alarm.
    OverTemp,
    OverCurrent,
    OverVoltage,
}

/// Warning reasons during initialization.
#[derive(Clone, Copy, Debug, PartialEq, Eq, Structural)]
pub enum InitWarnReason {
    /// Telemetry sensor initialization failed.
    Ina226Init,
    /// Display initialization or first-frame render failed.
    DisplayInit,
}

/// Failure reasons during initialization.
#[derive(Clone, Copy, Debug, PartialEq, Eq, Structural)]
pub enum InitFailReason {
    /// The charging IC's enable profile failed repeatedly during boot.
    Sw2303ProfileBoot,
    /// The power-delivery subsystem was unavailable during boot.
    PdCritical,
}

/// General runtime error kinds.
#[derive(Clone, Copy, Debug, PartialEq, Eq, Structural)]
pub enum ErrorKind {
    /// Charging IC bus read/write error latched.
    Sw2303I2c,
    /// Rendering error latched.
    UiRender,
    /// Power negotiation or contract error.
    Pd,
}

/// Safety-critical runtime kinds.
#[derive(Clone, Copy, Debug, PartialEq, Eq, Structural)]
pub enum SafetyKind {
    /// Regulator apply/config error latched.
    TpsApply,
    OverTemp,
    OverCurrent,
    OverVoltage,
}

/// Events reported by the system to the prompt tone manager.
#[derive(Clone, Copy, Debug, PartialEq, Eq, Structural)]
pub enum SoundEvent {
    /// Initialization finished; resolves the latched boot severity.
    InitDone,
    /// Initialization completed with a warning.
    InitWarn(InitWarnReason),
    /// Initialization failed in a critical path.
    InitFail(InitFailReason),
    /// Entered a general (non-safety) runtime error state.
    EnterError(ErrorKind),
    /// Exited a general runtime error state.
    ExitError(ErrorKind),
    /// Entered a safety-critical state (requires the continuous alarm).
    EnterSafety(SafetyKind),
    /// Exited a safety-critical state (must stop the alarm immediately).
    ExitSafety(SafetyKind),
}

/// A single step in a prompt sound pattern.
#[derive(Clone, Copy, Debug, PartialEq, Eq, Structural)]
pub enum SoundStep {
    /// Output a tone for the given duration.
    Tone { freq_hz: u32, duty_pct: u8, duration_ms: u64 },
    /// Silence for the given duration.
    Silence { duration_ms: u64 },
}

/// Pattern repeat behavior.
#[derive(Clone, Copy, Debug, PartialEq, Eq, Structural)]
pub enum SoundRepeat {
    /// Play the pattern once, then stop.
    Once,
    /// Loop the pattern indefinitely until stopped or preempted.
    Loop,
}

/// A prompt sound pattern: steps played in order, repeated or not.
#[derive(Clone, Debug, PartialEq, Eq)]
pub struct SoundPattern {
    pub steps: Vec<SoundStep>,
    pub repeat: SoundRepeat,
}

impl SoundPattern {
    /// A one-shot pattern over the given steps.
    pub fn once(steps: Vec<SoundStep>) -> (r: Self)
        ensures
            r.steps == steps,
            r.repeat == SoundRepeat::Once,
    {
        Self { steps, repeat: SoundRepeat::Once }
    }

    /// A looping pattern over the given steps.
    pub fn looped(steps: Vec<SoundStep>) -> (r: Self)
        ensures
            r.steps == steps,
            r.repeat == SoundRepeat::Loop,
    {
        Self { steps, repeat: SoundRepeat::Loop }
    }
}

/// Fixed priority ranking of each sound: the continuous safety class above
/// everything, then boot failure, boot warning, boot ok, error, warning,
/// recovery and action acknowledgements.
pub open spec fn spec_sound_priority(id: SoundId) -> u8 {
    match id {
        SoundId::SafetyAlarm => 100,
        SoundId::BootFail => 90,
        SoundId::BootWarn => 80,
        SoundId::BootOk => 70,
        SoundId::ErrorOnce => 60,
        SoundId::WarningOnce => 50,
        SoundId::RecoverOnce => 40,
        SoundId::ActionOnce => 30,
        SoundId::PdOnce => 30,
        SoundId::OverTemp => 100,
        SoundId::OverCurrent => 100,
        SoundId::OverVoltage => 100,
    }
}

/// The priority of a sound; a larger number outranks a smaller one.
pub fn sound_priority(id: SoundId) -> (p: u8)
    ensures
        p == spec_sound_priority(id),
{
    match id {
        SoundId::SafetyAlarm => 100,
        SoundId::BootFail => 90,
        SoundId::BootWarn => 80,
        SoundId::BootOk => 70,
        SoundId::ErrorOnce => 60,
        SoundId::WarningOnce => 50,
        SoundId::RecoverOnce => 40,
        SoundId::ActionOnce => 30,
        SoundId::PdOnce => 30,
        SoundId::OverTemp => 100,
        SoundId::OverCurrent => 100,
        SoundId::OverVoltage => 100,
    }
}

/// The one-shot sound played for a general runtime error kind.
pub open spec fn spec_map_error_to_sound(kind: ErrorKind) -> SoundId {
    match kind {
        ErrorKind::UiRender => SoundId::WarningOnce,
        _ => SoundId::ErrorOnce,
    }
}

/// Map a general runtime error kind to its one-shot sound.
pub fn map_error_to_sound(kind: ErrorKind) -> (id: SoundId)
    ensures
        id == spec_map_error_to_sound(kind),
{
    match kind {
        ErrorKind::UiRender => SoundId::WarningOnce,
        _ => SoundId::ErrorOnce,
    }
}

/// The duration of a pattern step, in milliseconds.
pub open spec fn spec_step_duration(step: SoundStep) -> u64 {
    match step {
        SoundStep::Tone { duration_ms, .. } => duration_ms,
        SoundStep::Silence { duration_ms } => duration_ms,
    }
}

/// How long a pattern step lasts, in milliseconds.
pub fn step_duration(step: SoundStep) -> (d: u64)
    ensures
        d == spec_step_duration(step),
{
    match step {
        SoundStep::Tone { duration_ms, .. } => duration_ms,
        SoundStep::Silence { duration_ms } => duration_ms,
    }
}

/// A tone of the default frequency and duty followed by silence.
pub open spec fn spec_beep(tone_ms: u64, silence_ms: u64) -> Seq<SoundStep> {
    seq![
        SoundStep::Tone { freq_hz: DEFAULT_FREQ_HZ, duty_pct: DEFAULT_DUTY_PCT, duration_ms: tone_ms },
        SoundStep::Silence { duration_ms: silence_ms },
    ]
}

/// The step sequence of a sound's default pattern; empty for reserved
/// sounds that have no pattern yet.
pub open spec fn spec_pattern_steps(id: SoundId) -> Seq<SoundStep> {
    match id {
        SoundId::BootOk => spec_beep(250, 250) + spec_beep(250, 250) + spec_beep(250, 250)
            + spec_beep(250, 250),
        SoundId::BootWarn => spec_beep(500, 250) + spec_beep(500, 750),
        SoundId::BootFail => spec_beep(800, 200) + spec_beep(800, 200),
        SoundId::WarningOnce => spec_beep(200, 200) + spec_beep(200, 200) + spec_beep(200, 200)
            + spec_beep(200, 200) + spec_beep(200, 200),
        SoundId::ErrorOnce => spec_beep(150, 200) + spec_beep(150, 200) + spec_beep(150, 200)
            + spec_beep(150, 200) + spec_beep(150, 200) + spec_beep(150, 200),
        SoundId::SafetyAlarm => spec_beep(700, 300),
        _ => Seq::empty(),
    }
}

/// Whether a sound has a default pattern.
pub open spec fn spec_has_pattern(id: SoundId) -> bool {
    spec_pattern_steps(id).len() > 0
}

/// The repeat behavior of a sound's pattern: only the safety alarm loops.
pub open spec fn spec_pattern_repeat(id: SoundId) -> SoundRepeat {
    if id == SoundId::SafetyAlarm { SoundRepeat::Loop } else { SoundRepeat::Once }
}

/// Append one default-frequency beep (tone then silence) to a step list.
fn push_beep(steps: &mut Vec<SoundStep>, tone_ms: u64, silence_ms: u64)
    ensures
        final(steps)@ == old(steps)@ + spec_beep(tone_ms, silence_ms),
{
    steps.push(SoundStep::Tone {
        freq_hz: DEFAULT_FREQ_HZ,
        duty_pct: DEFAULT_DUTY_PCT,
        duration_ms: tone_ms,
    });
    steps.push(SoundStep::Silence { duration_ms: silence_ms });
    proof {
        assert(final(steps)@ =~= old(steps)@ + spec_beep(tone_ms, silence_ms));
    }
}

/// The default pattern of a sound, or `None` for reserved sounds.
pub fn pattern_for(id: SoundId) -> (r: Option<SoundPattern>)
    ensures
        r is Some <==> spec_has_pattern(id),
        r matches Some(p) ==> p.steps@ == spec_pattern_steps(id) && p.repeat == spec_pattern_repeat(id),
{
    let mut steps: Vec<SoundStep> = Vec::new();
    match id {
        SoundId::BootOk => {
            push_beep(&mut steps, 250, 250);
            push_beep(&mut steps, 250, 250);
            push_beep(&mut steps, 250, 250);
            push_beep(&mut steps, 250, 250);
            proof {
                assert(steps@ =~= spec_pattern_steps(id));
            }
            Some(SoundPattern::once(steps))
        }
        SoundId::BootWarn => {
            push_beep(&mut steps, 500, 250);
            push_beep(&mut steps, 500, 750);
            proof {
                assert(steps@ =~= spec_pattern_steps(id));
            }
            Some(SoundPattern::once(steps))
        }
        SoundId::BootFail => {
            push_beep(&mut steps, 800, 200);
            push_beep(&mut steps, 800, 200);
            proof {
                assert(steps@ =~= spec_pattern_steps(id));
            }
            Some(SoundPattern::once(steps))
        }
        SoundId::WarningOnce => {
            push_beep(&mut steps, 200, 200);
            push_beep(&mut steps, 200, 200);
            push_beep(&mut steps, 200, 200);
            push_beep(&mut steps, 200, 200);
            push_beep(&mut steps, 200, 200);
            proof {
                assert(steps@ =~= spec_pattern_steps(id));
            }
            Some(SoundPattern::once(steps))
        }
        SoundId::ErrorOnce => {
            push_beep(&mut steps, 150, 200);
            push_beep(&mut steps, 150, 200);
            push_beep(&mut steps, 150, 200);
            push_beep(&mut steps, 150, 200);
            push_beep(&mut steps, 150, 200);
            push_beep(&mut steps, 150, 200);
            proof {
                assert(steps@ =~= spec_pattern_steps(id));
            }
            Some(SoundPattern::once(steps))
        }
        SoundId::SafetyAlarm => {
            push_beep(&mut steps, 700, 300);
            proof {
                assert(steps@ =~= spec_pattern_steps(id));
            }
            Some(SoundPattern::looped(steps))
        }
        _ => None,
    }
}

} // verus!
