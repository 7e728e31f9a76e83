use isolapurr_usb_hub::{
    map_error_to_sound, pattern_for, sound_priority, step_duration, BuzzerControl, BuzzerError,
    ErrorKind, InitFailReason, InitWarnReason, PromptToneManager, SafetyKind, SoundEvent, SoundId,
    SoundRepeat, SoundStep,
};

#[derive(Clone, Copy, Debug, PartialEq, Eq)]
enum Call {
    Start(u32, u8),
    Stop,
}

struct RecordingBuzzer {
    calls: Vec<Call>,
}

impl RecordingBuzzer {
    fn new() -> Self {
        Self { calls: Vec::new() }
    }
}

impl BuzzerControl for RecordingBuzzer {
    fn start_tone(&mut self, freq_hz: u32, duty_pct: u8) -> Result<(), BuzzerError> {
        self.calls.push(Call::Start(freq_hz, duty_pct));
        Ok(())
    }

    fn stop(&mut self) -> Result<(), BuzzerError> {
        self.calls.push(Call::Stop);
        Ok(())
    }
}

#[test]
fn priorities_rank_safety_over_boot_over_runtime() {
    assert_eq!(sound_priority(SoundId::SafetyAlarm), 100);
    assert_eq!(sound_priority(SoundId::BootFail), 90);
    assert_eq!(sound_priority(SoundId::BootWarn), 80);
    assert_eq!(sound_priority(SoundId::BootOk), 70);
    assert_eq!(sound_priority(SoundId::ErrorOnce), 60);
    assert_eq!(sound_priority(SoundId::WarningOnce), 50);
    assert_eq!(sound_priority(SoundId::RecoverOnce), 40);
    assert_eq!(sound_priority(SoundId::ActionOnce), 30);
    assert_eq!(sound_priority(SoundId::OverCurrent), 100);
}

#[test]
fn error_kinds_map_to_their_sounds() {
    assert_eq!(map_error_to_sound(ErrorKind::Sw2303I2c), SoundId::ErrorOnce);
    assert_eq!(map_error_to_sound(ErrorKind::UiRender), SoundId::WarningOnce);
    assert_eq!(map_error_to_sound(ErrorKind::Pd), SoundId::ErrorOnce);
}

#[test]
fn patterns_have_the_expected_shapes() {
    let ok = pattern_for(SoundId::BootOk).unwrap();
    assert_eq!(ok.steps.len(), 8);
    assert_eq!(ok.repeat, SoundRepeat::Once);
    assert_eq!(step_duration(ok.steps[0]), 250);

    let alarm = pattern_for(SoundId::SafetyAlarm).unwrap();
    assert_eq!(alarm.steps.len(), 2);
    assert_eq!(alarm.repeat, SoundRepeat::Loop);
    assert!(matches!(alarm.steps[0], SoundStep::Tone { duration_ms: 700, .. }));
    assert!(matches!(alarm.steps[1], SoundStep::Silence { duration_ms: 300 }));

    assert!(pattern_for(SoundId::ActionOnce).is_none());
    assert!(pattern_for(SoundId::RecoverOnce).is_none());
}

#[test]
fn queued_error_sound_starts_on_the_next_tick() {
    let mut m = PromptToneManager::new(RecordingBuzzer::new());
    m.notify(SoundEvent::EnterError(ErrorKind::Sw2303I2c));
    assert!(m.buzzer_mut().calls.is_empty());
    m.tick(0);
    // The error pattern starts with a tone step.
    assert_eq!(m.buzzer_mut().calls, vec![Call::Start(2700, 8)]);
}

#[test]
fn lower_priority_sound_does_not_preempt_playing_one() {
    let mut m = PromptToneManager::new(RecordingBuzzer::new());
    m.notify(SoundEvent::EnterError(ErrorKind::Sw2303I2c));
    m.tick(0);
    m.buzzer_mut().calls.clear();

    // A warning (50) never interrupts the playing error (60).
    m.notify(SoundEvent::EnterError(ErrorKind::UiRender));
    assert!(m.buzzer_mut().calls.is_empty());

    // The playing error keeps stepping on its own schedule: its first tone
    // lasts 150 ms.
    m.tick(100);
    assert!(m.buzzer_mut().calls.is_empty());
}

#[test]
fn higher_priority_sound_preempts_playing_one() {
    let mut m = PromptToneManager::new(RecordingBuzzer::new());
    m.notify(SoundEvent::EnterError(ErrorKind::Sw2303I2c));
    m.tick(0);
    m.buzzer_mut().calls.clear();

    // Resolving the boot as failed outranks the running error sound.
    m.notify(SoundEvent::InitFail(InitFailReason::Sw2303ProfileBoot));
    m.notify(SoundEvent::InitDone);
    assert_eq!(m.buzzer_mut().calls, vec![Call::Stop, Call::Start(2700, 8)]);
}

#[test]
fn boot_severity_latches_monotonically_and_resolves_once() {
    let mut m = PromptToneManager::new(RecordingBuzzer::new());
    m.notify(SoundEvent::InitWarn(InitWarnReason::Ina226Init));
    m.notify(SoundEvent::InitDone);
    m.tick(0);
    assert_eq!(m.buzzer_mut().calls, vec![Call::Start(2700, 8)]);
    m.buzzer_mut().calls.clear();

    // The boot-warning pattern's first tone lasts 500 ms; after it the
    // pattern moves to silence.
    m.tick(510);
    assert_eq!(m.buzzer_mut().calls, vec![Call::Stop]);
    m.buzzer_mut().calls.clear();

    // Step deadlines are scheduled from the tick that crosses them: the
    // second tone starts on the tick after the silence elapses, the final
    // silence ends the one-shot.
    m.tick(2100);
    assert_eq!(m.buzzer_mut().calls, vec![Call::Start(2700, 8)]);
    m.buzzer_mut().calls.clear();
    m.tick(2700);
    assert_eq!(m.buzzer_mut().calls, vec![Call::Stop]);
    m.buzzer_mut().calls.clear();
    m.tick(3500);
    assert_eq!(m.buzzer_mut().calls, vec![Call::Stop]);
    m.buzzer_mut().calls.clear();

    // A second init-done is ignored outright: nothing plays again.
    m.notify(SoundEvent::InitDone);
    m.tick(3600);
    m.tick(3700);
    assert!(m.buzzer_mut().calls.is_empty());
}

#[test]
fn safety_alarm_preempts_suppresses_and_resumes() {
    let mut m = PromptToneManager::new(RecordingBuzzer::new());
    // Queue a one-shot and let it play.
    m.notify(SoundEvent::EnterError(ErrorKind::Sw2303I2c));
    m.tick(0);
    // Queue another one-shot behind it.
    m.notify(SoundEvent::EnterError(ErrorKind::UiRender));
    m.buzzer_mut().calls.clear();

    // The safety alarm starts immediately, replacing the error sound.
    m.notify(SoundEvent::EnterSafety(SafetyKind::TpsApply));
    assert_eq!(m.buzzer_mut().calls, vec![Call::Start(2700, 8)]);
    m.buzzer_mut().calls.clear();

    // While the alarm is active, ticks drive only the alarm: its 700 ms
    // tone gives way to 300 ms of silence, then loops back to the tone.
    m.tick(100);
    m.tick(750);
    m.tick(1050);
    m.tick(1400);
    assert_eq!(m.buzzer_mut().calls, vec![Call::Stop, Call::Start(2700, 8)]);
    m.buzzer_mut().calls.clear();

    // Exiting silences at once; the queued warning then resumes.
    m.notify(SoundEvent::ExitSafety(SafetyKind::TpsApply));
    assert_eq!(m.buzzer_mut().calls, vec![Call::Stop]);
    m.buzzer_mut().calls.clear();
    m.tick(1450);
    assert_eq!(m.buzzer_mut().calls, vec![Call::Start(2700, 8)]);
}

#[test]
fn duplicate_one_shot_requests_are_ignored() {
    let mut m = PromptToneManager::new(RecordingBuzzer::new());
    m.notify(SoundEvent::EnterError(ErrorKind::Sw2303I2c));
    m.notify(SoundEvent::EnterError(ErrorKind::Sw2303I2c));
    m.tick(0);
    m.buzzer_mut().calls.clear();

    // The error pattern is six beeps of 150 ms tone + 200 ms silence; after
    // it finishes nothing else may start, since the duplicate was dropped.
    let mut t = 0u64;
    for _ in 0..30 {
        t += 100;
        m.tick(t);
    }
    let calls = m.buzzer_mut().calls.clone();
    assert_eq!(calls.last(), Some(&Call::Stop));
    // No tone starts after the final stop.
    let last_start = calls.iter().rposition(|c| matches!(c, Call::Start(..)));
    let last_stop = calls.iter().rposition(|c| matches!(c, Call::Stop));
    assert!(last_start.unwrap() < last_stop.unwrap());
    m.buzzer_mut().calls.clear();
    m.tick(t + 100);
    assert!(m.buzzer_mut().calls.is_empty());
}

#[test]
fn into_buzzer_returns_the_hardware() {
    let m = PromptToneManager::new(RecordingBuzzer::new());
    let b = m.into_buzzer();
    assert!(b.calls.is_empty());
}
