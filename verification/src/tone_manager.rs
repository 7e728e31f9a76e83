//! The prompt tone manager: a non-blocking, priority-driven sequencer that
//! turns state-transition events into buzzer patterns.
//!
//! One-shot sounds wait in a fixed-capacity queue, deduplicated by identity,
//! with priority-based eviction when full; a higher-priority one-shot
//! preempts the one playing. The continuous safety alarm is a class of its
//! own: entering it forces immediate playback and suppresses all one-shot
//! processing until it is explicitly exited.

use vstd::prelude::*;
use crate::tone::{
    map_error_to_sound, pattern_for, sound_priority, spec_has_pattern, spec_map_error_to_sound,
    spec_pattern_steps, spec_sound_priority, spec_step_duration, step_duration, BuzzerControl,
    SoundEvent, SoundId, SoundRepeat, SoundStep,
};
use crate::port::{deadline_ms, spec_deadline};

verus! {

/// Capacity of the pending one-shot queue.
pub const QUEUE_CAP: usize = 8;

/// Latched severity of the boot sequence, monotonically worsening.
#[derive(Clone, Copy, Debug, PartialEq, Eq, Structural)]
pub enum BootSeverity {
    Healthy,
    Warn,
    Fail,
}

/// The boot sound resolved from the latched severity.
pub open spec fn spec_boot_sound(sev: BootSeverity) -> SoundId {
    match sev {
        BootSeverity::Healthy => SoundId::BootOk,
        BootSeverity::Warn => SoundId::BootWarn,
        BootSeverity::Fail => SoundId::BootFail,
    }
}

/// The sound currently driving the buzzer.
#[derive(Clone, Copy, Debug, PartialEq, Eq, Structural)]
pub struct ActivePlayback {
    pub id: SoundId,
    pub step_index: usize,
    /// When the current step ends; `None` until the first timed tick.
    pub deadline_ms: Option<u64>,
}

impl ActivePlayback {
    pub fn new(id: SoundId) -> (r: Self)
        ensures
            r == (ActivePlayback { id, step_index: 0, deadline_ms: None }),
    {
        Self { id, step_index: 0, deadline_ms: None }
    }
}

/// Fixed-capacity multiset of pending one-shot sounds, deduplicated by
/// identity, with priority-based eviction when full.
pub struct SoundQueue {
    slots: Vec<Option<SoundId>>,
}

impl SoundQueue {
    /// The queue's slots, for use in contracts.
    pub closed spec fn slots(self) -> Seq<Option<SoundId>> {
        self.slots@
    }

    /// Well-formed: exactly `QUEUE_CAP` slots, and no sound queued twice.
    pub open spec fn wf(self) -> bool {
        &&& self.slots().len() == QUEUE_CAP
        &&& forall|i: int, j: int|
            0 <= i < j < self.slots().len() && self.slots()[i] is Some
                ==> self.slots()[i] != self.slots()[j]
    }

    /// Whether a sound is queued.
    pub open spec fn has(self, id: SoundId) -> bool {
        exists|i: int| 0 <= i < self.slots().len() && self.slots()[i] == Some(id)
    }

    /// Whether every slot is occupied.
    pub open spec fn full(self) -> bool {
        forall|i: int| 0 <= i < self.slots().len() ==> self.slots()[i] is Some
    }

    /// An empty queue.
    pub fn new() -> (q: Self)
        ensures
            q.wf(),
            forall|id: SoundId| !q.has(id),
    {
        let mut slots: Vec<Option<SoundId>> = Vec::new();
        let mut i: usize = 0;
        while i < QUEUE_CAP
            invariant
                slots@.len() == i,
                i <= QUEUE_CAP,
                forall|k: int| 0 <= k < i ==> slots@[k] is None,
            decreases QUEUE_CAP - i,
        {
            slots.push(None);
            i = i + 1;
        }
        Self { slots }
    }

    /// Whether `id` is pending.
    pub fn contains(&self, id: SoundId) -> (r: bool)
        requires
            self.wf(),
        ensures
            r == self.has(id),
    {
        let mut i: usize = 0;
        while i < self.slots.len()
            invariant
                i <= self.slots().len(),
                forall|k: int| 0 <= k < i ==> self.slots()[k] != Some(id),
            decreases self.slots().len() - i,
        {
            match self.slots[i] {
                Some(queued) => {
                    if queued == id {
                        return true;
                    }
                }
                None => {}
            }
            i = i + 1;
        }
        false
    }

    /// Drop `id` from the queue if it is pending; all other sounds stay.
    pub fn remove(&mut self, id: SoundId)
        requires
            old(self).wf(),
        ensures
            final(self).wf(),
            !final(self).has(id),
            forall|x: SoundId| x != id ==> final(self).has(x) == old(self).has(x),
    {
        let n = self.slots.len();
        let mut i: usize = 0;
        while i < n
            invariant
                n == self.slots().len(),
                i <= n,
                self.slots().len() == old(self).slots().len(),
                forall|k: int| 0 <= k < n ==> self.slots()[k]
                    == (if old(self).slots()[k] == Some(id) && k < i { None } else { old(self).slots()[k] }),
            decreases n - i,
        {
            match self.slots[i] {
                Some(queued) => {
                    if queued == id {
                        self.slots.set(i, None);
                    }
                }
                None => {}
            }
            i = i + 1;
        }
    }

    /// Enqueue `id`: a no-op when already pending; into a free slot when one
    /// exists; when full, evicts one queued sound of strictly lower priority
    /// than `id` (one of the lowest-priority ones), else drops the request.
    /// Returns whether `id` is newly pending.
    pub fn push(&mut self, id: SoundId) -> (accepted: bool)
        requires
            old(self).wf(),
        ensures
            final(self).wf(),
            old(self).has(id) ==> !accepted && *final(self) == *old(self),
            accepted ==> final(self).has(id),
            !old(self).has(id) && !old(self).full() ==> accepted
                && forall|x: SoundId| x != id ==> final(self).has(x) == old(self).has(x),
            !old(self).has(id) && old(self).full() && accepted ==> exists|e: SoundId|
                old(self).has(e) && spec_sound_priority(e) < spec_sound_priority(id)
                    && !final(self).has(e)
                    && forall|x: SoundId| x != id && x != e ==> final(self).has(x) == old(self).has(x),
            !old(self).has(id) && old(self).full() && !accepted ==> *final(self) == *old(self)
                && forall|x: SoundId| old(self).has(x) ==> spec_sound_priority(x) >= spec_sound_priority(id),
    {
        if self.contains(id) {
            return false;
        }

        let n = self.slots.len();
        let mut i: usize = 0;
        while i < n
            invariant
                n == self.slots().len(),
                i <= n,
                self.wf(),
                *self == *old(self),
                !old(self).has(id),
                forall|k: int| 0 <= k < i ==> self.slots()[k] is Some,
            decreases n - i,
        {
            if self.slots[i].is_none() {
                self.slots.set(i, Some(id));
                proof {
                    assert(self.slots()[i as int] == Some(id));
                    assert(forall|x: SoundId| x != id ==> final(self).has(x) == old(self).has(x)) by {
                        assert forall|x: SoundId| x != id && old(self).has(x)
                            implies final(self).has(x) by {
                            let w = choose|k: int| 0 <= k < old(self).slots().len()
                                && old(self).slots()[k] == Some(x);
                            assert(self.slots()[w] == Some(x));
                        };
                    };
                }
                return true;
            }
            i = i + 1;
        }

        // Full: find one of the lowest-priority queued sounds.
        let mut lowest_index: usize = 0;
        let mut lowest_priority: u8 = 255;
        let mut j: usize = 0;
        while j < n
            invariant
                n == self.slots().len(),
                j <= n,
                self.wf(),
                self.full(),
                *self == *old(self),
                !old(self).has(id),
                lowest_index < n || j == 0,
                j > 0 ==> (self.slots()[lowest_index as int] matches Some(low)
                    && spec_sound_priority(low) == lowest_priority),
                forall|k: int| 0 <= k < j ==> (#[trigger] self.slots()[k] matches Some(q)
                    ==> spec_sound_priority(q) >= lowest_priority),
            decreases n - j,
        {
            match self.slots[j] {
                Some(existing) => {
                    let prio = sound_priority(existing);
                    if j == 0 || prio < lowest_priority {
                        lowest_priority = prio;
                        lowest_index = j;
                    }
                }
                None => {
                    // Unreachable: the queue is full here.
                }
            }
            j = j + 1;
        }

        if n > 0 {
            let new_priority = sound_priority(id);
            if new_priority > lowest_priority {
                let ghost evicted = self.slots()[lowest_index as int]->0;
                self.slots.set(lowest_index, Some(id));
                proof {
                    assert(final(self).has(id)) by {
                        assert(self.slots()[lowest_index as int] == Some(id));
                    };
                    assert(!final(self).has(evicted)) by {
                        assert forall|k: int| 0 <= k < self.slots().len()
                            implies self.slots()[k] != Some(evicted) by {
                            if k != lowest_index {
                                assert(old(self).slots()[k] == self.slots()[k]);
                            }
                        };
                    };
                    assert(forall|x: SoundId| x != id && x != evicted
                        ==> final(self).has(x) == old(self).has(x)) by {
                        assert forall|x: SoundId| x != id && x != evicted && old(self).has(x)
                            implies final(self).has(x) by {
                            let w = choose|k: int| 0 <= k < old(self).slots().len()
                                && old(self).slots()[k] == Some(x);
                            assert(self.slots()[w] == Some(x));
                        };
                    };
                }
                return true;
            }
        }

        false
    }

    /// Remove and return the highest-priority pending sound (the earliest
    /// queued among equals), or `None` when nothing is pending.
    pub fn pop_highest(&mut self) -> (r: Option<SoundId>)
        requires
            old(self).wf(),
        ensures
            final(self).wf(),
            r is None ==> *final(self) == *old(self) && forall|x: SoundId| !old(self).has(x),
            r matches Some(id) ==> old(self).has(id)
                && !final(self).has(id)
                && (forall|x: SoundId| x != id ==> final(self).has(x) == old(self).has(x))
                && (forall|x: SoundId| old(self).has(x)
                    ==> spec_sound_priority(x) <= spec_sound_priority(id)),
    {
        let n = self.slots.len();
        let mut best: Option<(usize, u8, SoundId)> = None;
        let mut i: usize = 0;
        while i < n
            invariant
                n == self.slots().len(),
                i <= n,
                self.wf(),
                *self == *old(self),
                best is None ==> forall|k: int| 0 <= k < i ==> self.slots()[k] is None,
                best matches Some((bi, bp, bid)) ==> bi < i
                    && self.slots()[bi as int] == Some(bid)
                    && bp == spec_sound_priority(bid)
                    && forall|k: int| 0 <= k < i ==> (#[trigger] self.slots()[k] matches Some(q)
                        ==> spec_sound_priority(q) <= bp),
            decreases n - i,
        {
            match self.slots[i] {
                Some(queued) => {
                    let prio = sound_priority(queued);
                    match best {
                        None => {
                            best = Some((i, prio, queued));
                        }
                        Some((_, best_prio, _)) => {
                            if prio > best_prio {
                                best = Some((i, prio, queued));
                            }
                        }
                    }
                }
                None => {}
            }
            i = i + 1;
        }

        match best {
            None => None,
            Some((idx, _prio, id)) => {
                self.slots.set(idx, None);
                proof {
                    assert(!final(self).has(id)) by {
                        assert forall|k: int| 0 <= k < self.slots().len()
                            implies self.slots()[k] != Some(id) by {
                            if k != idx {
                                assert(old(self).slots()[k] == self.slots()[k]);
                            }
                        };
                    };
                    assert(forall|x: SoundId| x != id ==> final(self).has(x) == old(self).has(x)) by {
                        assert forall|x: SoundId| x != id && old(self).has(x)
                            implies final(self).has(x) by {
                            let w = choose|k: int| 0 <= k < old(self).slots().len()
                                && old(self).slots()[k] == Some(x);
                            assert(self.slots()[w] == Some(x));
                        };
                    };
                }
                Some(id)
            }
        }
    }
}

/// The playback begun for a sound: step zero, not yet scheduled; or nothing
/// when the sound has no pattern.
pub open spec fn spec_started(id: SoundId) -> Option<ActivePlayback> {
    if spec_has_pattern(id) {
        Some(ActivePlayback { id, step_index: 0, deadline_ms: None })
    } else {
        None
    }
}

/// Playback either went on with the same sound or ended; it was never
/// replaced by another sound.
pub open spec fn spec_playback_continues(o: Option<ActivePlayback>, f: Option<ActivePlayback>) -> bool {
    f is None || (o matches Some(po) && f matches Some(pf) && pf.id == po.id)
}

/// Event-driven prompt tone manager. Call [`Self::notify`] on state
/// transitions and [`Self::tick`] frequently with a monotonic millisecond
/// clock.
pub struct PromptToneManager<B: BuzzerControl> {
    buzzer: B,
    queue: SoundQueue,
    boot_severity: BootSeverity,
    boot_done_emitted: bool,
    safety_active: bool,
    playing: Option<ActivePlayback>,
    last_now_ms: u64,
}

impl<B: BuzzerControl> PromptToneManager<B> {
    /// Whether a one-shot sound is pending in the queue.
    pub closed spec fn queued(self, id: SoundId) -> bool {
        self.queue.has(id)
    }

    /// The sound currently driving the buzzer.
    pub closed spec fn spec_playing(self) -> Option<ActivePlayback> {
        self.playing
    }

    /// Whether the continuous safety alarm is active.
    pub closed spec fn spec_safety_active(self) -> bool {
        self.safety_active
    }

    /// The latched boot severity.
    pub closed spec fn spec_boot_severity(self) -> BootSeverity {
        self.boot_severity
    }

    /// Whether the boot sound has already been resolved.
    pub closed spec fn spec_boot_done(self) -> bool {
        self.boot_done_emitted
    }

    /// The latest monotonic time the manager has seen.
    pub closed spec fn spec_last_now(self) -> u64 {
        self.last_now_ms
    }

    /// The owned buzzer.
    pub closed spec fn spec_buzzer(self) -> B {
        self.buzzer
    }

    /// The queue is well-formed and holds only one-shot sounds that have a
    /// pattern (never the safety alarm).
    pub closed spec fn queue_ok(self) -> bool {
        &&& self.queue.wf()
        &&& forall|id: SoundId| self.queue.has(id)
            ==> spec_has_pattern(id) && id != SoundId::SafetyAlarm
    }

    /// Any active playback points at a real step of a real pattern.
    pub closed spec fn playing_ok(self) -> bool {
        self.playing matches Some(p)
            ==> spec_has_pattern(p.id) && p.step_index < spec_pattern_steps(p.id).len()
    }

    /// Well-formed manager state.
    pub closed spec fn wf(self) -> bool {
        self.queue_ok() && self.playing_ok()
    }
}

/// The boot latches of the manager are untouched.
pub open spec fn spec_boot_unchanged<B: BuzzerControl>(
    m0: PromptToneManager<B>,
    m1: PromptToneManager<B>,
) -> bool {
    &&& m1.spec_boot_severity() == m0.spec_boot_severity()
    &&& m1.spec_boot_done() == m0.spec_boot_done()
}

/// Every pending one-shot is exactly as it was.
pub open spec fn spec_one_shots_unchanged<B: BuzzerControl>(
    m0: PromptToneManager<B>,
    m1: PromptToneManager<B>,
) -> bool {
    forall|id: SoundId| m1.queued(id) == m0.queued(id)
}

/// The effect of enqueuing a one-shot on the pending queue: deduplicated,
/// inserted, inserted evicting one strictly lower-priority sound, or dropped
/// because everything pending outranks it.
pub open spec fn spec_push_outcome<B: BuzzerControl>(
    m0: PromptToneManager<B>,
    m1: PromptToneManager<B>,
    id: SoundId,
) -> bool {
    ||| (m0.queued(id) && spec_one_shots_unchanged(m0, m1))
    ||| (m1.queued(id) && forall|x: SoundId| x != id ==> m1.queued(x) == m0.queued(x))
    ||| (m1.queued(id) && exists|e: SoundId|
            m0.queued(e) && spec_sound_priority(e) < spec_sound_priority(id) && !m1.queued(e)
            && forall|x: SoundId| x != id && x != e ==> m1.queued(x) == m0.queued(x))
    ||| (spec_one_shots_unchanged(m0, m1)
            && forall|x: SoundId| m0.queued(x) ==> spec_sound_priority(x) >= spec_sound_priority(id))
}

/// The effect of requesting a one-shot sound `id` (never the safety alarm):
/// ignored while already active or pending; preempting the playing one-shot
/// when `id` strictly outranks it and no safety alarm is active; otherwise
/// enqueued under the queue discipline.
pub open spec fn spec_one_shot_requested<B: BuzzerControl>(
    m0: PromptToneManager<B>,
    m1: PromptToneManager<B>,
    id: SoundId,
) -> bool {
    &&& m1.spec_safety_active() == m0.spec_safety_active()
    &&& if (m0.spec_playing() matches Some(p) && p.id == id) || m0.queued(id) {
            &&& m1.spec_playing() == m0.spec_playing()
            &&& spec_one_shots_unchanged(m0, m1)
        } else if !m0.spec_safety_active()
            && (m0.spec_playing() matches Some(p) && p.id != SoundId::SafetyAlarm
                && spec_sound_priority(id) > spec_sound_priority(p.id)) {
            &&& m1.spec_playing() == spec_started(id)
            &&& spec_one_shots_unchanged(m0, m1)
        } else {
            &&& m1.spec_playing() == m0.spec_playing()
            &&& spec_push_outcome(m0, m1, id)
        }
}

/// The effect of entering the safety alarm: it plays immediately from step
/// zero, and every pending one-shot stays pending.
pub open spec fn spec_safety_entered<B: BuzzerControl>(
    m0: PromptToneManager<B>,
    m1: PromptToneManager<B>,
) -> bool {
    &&& m1.spec_safety_active()
    &&& m1.spec_playing() == spec_started(SoundId::SafetyAlarm)
    &&& !m1.queued(SoundId::SafetyAlarm)
    &&& forall|x: SoundId| x != SoundId::SafetyAlarm ==> m1.queued(x) == m0.queued(x)
}

/// The effect of exiting the safety alarm: the buzzer is silenced at once if
/// the alarm was sounding, and every pending one-shot stays pending.
pub open spec fn spec_safety_exited<B: BuzzerControl>(
    m0: PromptToneManager<B>,
    m1: PromptToneManager<B>,
) -> bool {
    &&& !m1.spec_safety_active()
    &&& !m1.queued(SoundId::SafetyAlarm)
    &&& forall|x: SoundId| x != SoundId::SafetyAlarm ==> m1.queued(x) == m0.queued(x)
    &&& m1.spec_playing() == (if m0.spec_playing() matches Some(p) && p.id == SoundId::SafetyAlarm {
            Option::<ActivePlayback>::None
        } else {
            m0.spec_playing()
        })
}

/// The effect of one timed tick while the safety alarm is active: pending
/// one-shots are untouched and nothing but the alarm may be sounding.
pub open spec fn spec_tick_under_safety<B: BuzzerControl>(
    m0: PromptToneManager<B>,
    m1: PromptToneManager<B>,
) -> bool {
    &&& spec_one_shots_unchanged(m0, m1)
    &&& (m1.spec_playing() matches Some(p) ==> p.id == SoundId::SafetyAlarm)
}

/// The effect of one timed tick with no safety alarm: either playback only
/// advances (the pending queue untouched), or the finished playback is
/// replaced by a pending sound that outranks everything else pending.
pub open spec fn spec_tick_normal<B: BuzzerControl>(
    m0: PromptToneManager<B>,
    m1: PromptToneManager<B>,
) -> bool {
    ||| (spec_one_shots_unchanged(m0, m1)
            && spec_playback_continues(m0.spec_playing(), m1.spec_playing()))
    ||| (exists|popped: SoundId| #[trigger] m0.queued(popped)
            && !m1.queued(popped)
            && (forall|x: SoundId| x != popped ==> m1.queued(x) == m0.queued(x))
            && (forall|x: SoundId| m0.queued(x)
                ==> spec_sound_priority(x) <= spec_sound_priority(popped))
            && (m1.spec_playing() matches Some(p) && p.id == popped && p.step_index == 0))
}

/// The request relation only reads the queue, the playback and the safety
/// flag of the starting state, so it carries over to any starting state that
/// agrees on those.
proof fn lemma_request_start_state<B: BuzzerControl>(
    m0a: PromptToneManager<B>,
    m0b: PromptToneManager<B>,
    m1: PromptToneManager<B>,
    id: SoundId,
)
    requires
        spec_one_shot_requested(m0b, m1, id),
        forall|x: SoundId| m0a.queued(x) == m0b.queued(x),
        m0a.spec_playing() == m0b.spec_playing(),
        m0a.spec_safety_active() == m0b.spec_safety_active(),
    ensures
        spec_one_shot_requested(m0a, m1, id),
{
    assert(m0a.queued(id) == m0b.queued(id));
    if (m0b.spec_playing() matches Some(p) && p.id == id) || m0b.queued(id) {
        assert(spec_one_shots_unchanged(m0a, m1)) by {
            assert(forall|x: SoundId| m1.queued(x) == m0b.queued(x));
        };
    } else if !m0b.spec_safety_active()
        && (m0b.spec_playing() matches Some(p) && p.id != SoundId::SafetyAlarm
            && spec_sound_priority(id) > spec_sound_priority(p.id)) {
        assert(spec_one_shots_unchanged(m0a, m1)) by {
            assert(forall|x: SoundId| m1.queued(x) == m0b.queued(x));
        };
    } else {
        if m0b.queued(id) {
            assert(spec_one_shots_unchanged(m0a, m1)) by {
                assert(forall|x: SoundId| m1.queued(x) == m0b.queued(x));
            };
            assert(spec_push_outcome(m0a, m1, id));
        } else if m1.queued(id) && (forall|x: SoundId| x != id ==> m1.queued(x) == m0b.queued(x)) {
            assert(forall|x: SoundId| x != id ==> m1.queued(x) == m0a.queued(x));
            assert(spec_push_outcome(m0a, m1, id));
        } else if m1.queued(id) && (exists|e: SoundId|
            m0b.queued(e) && spec_sound_priority(e) < spec_sound_priority(id) && !m1.queued(e)
                && forall|x: SoundId| x != id && x != e ==> m1.queued(x) == m0b.queued(x)) {
            let e = choose|e: SoundId|
                m0b.queued(e) && spec_sound_priority(e) < spec_sound_priority(id) && !m1.queued(e)
                    && forall|x: SoundId| x != id && x != e ==> m1.queued(x) == m0b.queued(x);
            assert(m0a.queued(e) && spec_sound_priority(e) < spec_sound_priority(id) && !m1.queued(e)
                && forall|x: SoundId| x != id && x != e ==> m1.queued(x) == m0a.queued(x));
            assert(spec_push_outcome(m0a, m1, id));
        } else {
            assert(spec_one_shots_unchanged(m0b, m1)
                && forall|x: SoundId| m0b.queued(x)
                    ==> spec_sound_priority(x) >= spec_sound_priority(id));
            assert(spec_one_shots_unchanged(m0a, m1)) by {
                assert(forall|x: SoundId| m1.queued(x) == m0b.queued(x));
            };
            assert(forall|x: SoundId| m0a.queued(x)
                ==> spec_sound_priority(x) >= spec_sound_priority(id));
            assert(spec_push_outcome(m0a, m1, id));
        }
    }
}

impl<B: BuzzerControl> PromptToneManager<B> {
    /// A fresh manager: nothing pending, nothing playing, no safety alarm,
    /// boot severity clean.
    pub fn new(buzzer: B) -> (r: Self)
        ensures
            r.wf(),
            forall|id: SoundId| !r.queued(id),
            r.spec_playing() is None,
            !r.spec_safety_active(),
            r.spec_boot_severity() == BootSeverity::Healthy,
            !r.spec_boot_done(),
            r.spec_last_now() == 0,
            r.spec_buzzer() == buzzer,
    {
        Self {
            buzzer,
            queue: SoundQueue::new(),
            boot_severity: BootSeverity::Healthy,
            boot_done_emitted: false,
            safety_active: false,
            playing: None,
            last_now_ms: 0,
        }
    }

    /// Direct access to the buzzer.
    pub fn buzzer_mut(&mut self) -> (r: &mut B)
        ensures
            *r == old(self).spec_buzzer(),
            final(self).spec_buzzer() == *final(r),
            final(self).wf() == old(self).wf(),
            spec_one_shots_unchanged(*old(self), *final(self)),
            final(self).spec_playing() == old(self).spec_playing(),
            final(self).spec_safety_active() == old(self).spec_safety_active(),
            spec_boot_unchanged(*old(self), *final(self)),
            final(self).spec_last_now() == old(self).spec_last_now(),
    {
        &mut self.buzzer
    }

    /// Give the buzzer back.
    pub fn into_buzzer(self) -> (r: B)
        ensures
            r == self.spec_buzzer(),
    {
        self.buzzer
    }

    /// Whether `id` is the sound playing or pending.
    fn is_one_shot_active_or_pending(&self, id: SoundId) -> (r: bool)
        requires
            self.wf(),
        ensures
            r == ((self.spec_playing() matches Some(p) && p.id == id) || self.queued(id)),
    {
        let active = match self.playing {
            Some(p) => p.id == id,
            None => false,
        };
        active || self.queue.contains(id)
    }

    /// Begin playing `id` right now, applying its first step to the buzzer;
    /// reserved sounds without a pattern silence the buzzer instead.
    fn start_immediately(&mut self, id: SoundId)
        requires
            old(self).wf(),
        ensures
            final(self).wf(),
            final(self).spec_playing() == spec_started(id),
            spec_one_shots_unchanged(*old(self), *final(self)),
            final(self).spec_safety_active() == old(self).spec_safety_active(),
            spec_boot_unchanged(*old(self), *final(self)),
            final(self).spec_last_now() == old(self).spec_last_now(),
    {
        self.playing = Some(ActivePlayback::new(id));
        self.apply_current_step();
    }

    /// Begin playing `id` and schedule its first step deadline from `now_ms`.
    fn start_with_now(&mut self, id: SoundId, now_ms: u64)
        requires
            old(self).wf(),
        ensures
            final(self).wf(),
            spec_has_pattern(id) ==> (final(self).spec_playing() matches Some(p)
                && p.id == id && p.step_index == 0),
            !spec_has_pattern(id) ==> final(self).spec_playing() is None,
            spec_one_shots_unchanged(*old(self), *final(self)),
            final(self).spec_safety_active() == old(self).spec_safety_active(),
            spec_boot_unchanged(*old(self), *final(self)),
            final(self).spec_last_now() == old(self).spec_last_now(),
    {
        self.playing = Some(ActivePlayback::new(id));
        self.apply_current_step();
        self.schedule_current_deadline(now_ms);
    }

    /// Drive the buzzer with the current step of the current playback; stop
    /// the buzzer and the playback when there is no such step.
    fn apply_current_step(&mut self)
        requires
            old(self).queue_ok(),
        ensures
            final(self).queue_ok(),
            final(self).playing_ok(),
            old(self).spec_playing() matches Some(p)
                ==> (spec_has_pattern(p.id) && p.step_index < spec_pattern_steps(p.id).len()
                    ==> final(self).spec_playing() == old(self).spec_playing()),
            old(self).spec_playing() matches Some(p)
                ==> (!(spec_has_pattern(p.id) && p.step_index < spec_pattern_steps(p.id).len())
                    ==> final(self).spec_playing() is None),
            old(self).spec_playing() is None ==> final(self).spec_playing() is None,
            spec_one_shots_unchanged(*old(self), *final(self)),
            final(self).spec_safety_active() == old(self).spec_safety_active(),
            spec_boot_unchanged(*old(self), *final(self)),
            final(self).spec_last_now() == old(self).spec_last_now(),
    {
        let playing = match self.playing {
            Some(p) => p,
            None => {
                return;
            }
        };
        let pattern = match pattern_for(playing.id) {
            Some(pat) => pat,
            None => {
                let _ = self.buzzer.stop();
                self.playing = None;
                return;
            }
        };
        if playing.step_index < pattern.steps.len() {
            match pattern.steps[playing.step_index] {
                SoundStep::Tone { freq_hz, duty_pct, .. } => {
                    let _ = self.buzzer.start_tone(freq_hz, duty_pct);
                }
                SoundStep::Silence { .. } => {
                    let _ = self.buzzer.stop();
                }
            }
        } else {
            let _ = self.buzzer.stop();
            self.playing = None;
        }
    }

    /// Schedule the deadline of the current step from `now_ms`.
    fn schedule_current_deadline(&mut self, now_ms: u64)
        requires
            old(self).queue_ok(),
        ensures
            final(self).queue_ok(),
            old(self).playing_ok() ==> final(self).playing_ok(),
            old(self).spec_playing() matches Some(p)
                ==> (p.step_index < spec_pattern_steps(p.id).len()
                    ==> final(self).spec_playing() == Some(ActivePlayback {
                        id: p.id,
                        step_index: p.step_index,
                        deadline_ms: Some(spec_deadline(
                            now_ms,
                            spec_step_duration(spec_pattern_steps(p.id)[p.step_index as int]),
                        )),
                    })),
            old(self).spec_playing() is None ==> final(self).spec_playing() is None,
            final(self).spec_playing() matches Some(p)
                ==> old(self).spec_playing() matches Some(q) && q.id == p.id
                    && q.step_index == p.step_index,
            spec_one_shots_unchanged(*old(self), *final(self)),
            final(self).spec_safety_active() == old(self).spec_safety_active(),
            spec_boot_unchanged(*old(self), *final(self)),
            final(self).spec_last_now() == old(self).spec_last_now(),
    {
        let playing = match self.playing {
            Some(p) => p,
            None => {
                return;
            }
        };
        let pattern = match pattern_for(playing.id) {
            Some(pat) => pat,
            None => {
                return;
            }
        };
        if playing.step_index < pattern.steps.len() {
            let dur = step_duration(pattern.steps[playing.step_index]);
            self.playing = Some(ActivePlayback {
                id: playing.id,
                step_index: playing.step_index,
                deadline_ms: Some(deadline_ms(now_ms, dur)),
            });
        }
    }

    /// Advance the current playback past every elapsed step deadline: wrap a
    /// looping pattern, end a one-shot pattern, and guard against patterns
    /// whose steps consume no time.
    fn advance_playback(&mut self, now_ms: u64)
        requires
            old(self).wf(),
        ensures
            final(self).wf(),
            spec_playback_continues(old(self).spec_playing(), final(self).spec_playing()),
            old(self).spec_playing() is None ==> final(self).spec_playing() is None,
            old(self).spec_playing() matches Some(p)
                ==> (p.deadline_ms matches Some(d) && now_ms < d
                    ==> final(self).spec_playing() == old(self).spec_playing()),
            spec_one_shots_unchanged(*old(self), *final(self)),
            final(self).spec_safety_active() == old(self).spec_safety_active(),
            spec_boot_unchanged(*old(self), *final(self)),
            final(self).spec_last_now() == old(self).spec_last_now(),
    {
        let playing = match self.playing {
            Some(p) => p,
            None => {
                return;
            }
        };
        let pattern = match pattern_for(playing.id) {
            Some(pat) => pat,
            None => {
                let _ = self.buzzer.stop();
                self.playing = None;
                return;
            }
        };
        let cap = pattern.steps.len();
        let limit = if cap > usize::MAX - 2 { usize::MAX } else { cap + 2 };

        let mut step_index = playing.step_index;
        let mut deadline = match playing.deadline_ms {
            Some(d) => d,
            None => deadline_ms(now_ms, step_duration(pattern.steps[step_index])),
        };
        let mut guard: usize = 0;
        let mut ended = false;
        let mut advanced = false;

        loop
            invariant
                cap == spec_pattern_steps(playing.id).len(),
                0 < cap,
                guard <= limit,
                step_index < cap,
                pattern.steps@ == spec_pattern_steps(playing.id),
                !advanced ==> step_index == playing.step_index,
                !advanced ==> (playing.deadline_ms matches Some(d0) ==> deadline == d0),
                playing.deadline_ms matches Some(d0) ==> (now_ms < d0 ==> !advanced && !ended),
            decreases limit - guard,
        {
            if now_ms < deadline {
                break;
            }
            if guard >= limit {
                ended = true;
                break;
            }
            guard = guard + 1;
            step_index = step_index + 1;
            advanced = true;
            if step_index >= cap {
                step_index = 0;
                match pattern.repeat {
                    SoundRepeat::Once => {
                        ended = true;
                        break;
                    }
                    SoundRepeat::Loop => {}
                }
            }
            if step_index < cap {
                deadline = deadline_ms(now_ms, step_duration(pattern.steps[step_index]));
            }
        }

        if ended {
            let _ = self.buzzer.stop();
            self.playing = None;
        } else {
            self.playing = Some(ActivePlayback {
                id: playing.id,
                step_index,
                deadline_ms: Some(deadline),
            });
            if advanced {
                match pattern.steps[step_index] {
                    SoundStep::Tone { freq_hz, duty_pct, .. } => {
                        let _ = self.buzzer.start_tone(freq_hz, duty_pct);
                    }
                    SoundStep::Silence { .. } => {
                        let _ = self.buzzer.stop();
                    }
                }
            }
        }
    }

    /// Request a one-shot sound: ignored while already active or pending,
    /// preempting a strictly lower-priority playing one-shot, otherwise
    /// queued by priority. The safety alarm instead forces the alarm on.
    fn request_one_shot(&mut self, id: SoundId)
        requires
            old(self).wf(),
            spec_has_pattern(id),
        ensures
            final(self).wf(),
            id == SoundId::SafetyAlarm ==> final(self).spec_safety_active()
                && final(self).spec_playing() == spec_started(SoundId::SafetyAlarm)
                && spec_one_shots_unchanged(*old(self), *final(self)),
            id != SoundId::SafetyAlarm
                ==> spec_one_shot_requested(*old(self), *final(self), id),
            spec_boot_unchanged(*old(self), *final(self)),
            final(self).spec_last_now() == old(self).spec_last_now(),
            id != SoundId::SafetyAlarm
                ==> final(self).spec_safety_active() == old(self).spec_safety_active(),
    {
        if matches!(id, SoundId::SafetyAlarm) {
            self.safety_active = true;
            self.start_immediately(SoundId::SafetyAlarm);
            return;
        }

        if self.is_one_shot_active_or_pending(id) {
            return;
        }

        let new_prio = sound_priority(id);
        let should_preempt = match self.playing {
            Some(p) => {
                !matches!(p.id, SoundId::SafetyAlarm) && new_prio > sound_priority(p.id)
            }
            None => false,
        };

        if should_preempt && !self.safety_active {
            let _ = self.buzzer.stop();
            self.start_immediately(id);
            return;
        }

        let _ = self.queue.push(id);
    }

    /// Report a state-transition event: boot severity latching and its
    /// one-time resolution to a boot sound, general errors as prioritized
    /// one-shots, and safety entry/exit driving the continuous alarm.
    pub fn notify(&mut self, event: SoundEvent)
        requires
            old(self).wf(),
        ensures
            final(self).wf(),
            final(self).spec_last_now() == old(self).spec_last_now(),
            event matches SoundEvent::InitWarn(_) ==> {
                &&& final(self).spec_boot_severity()
                    == (if old(self).spec_boot_severity() == BootSeverity::Healthy {
                        BootSeverity::Warn
                    } else {
                        old(self).spec_boot_severity()
                    })
                &&& final(self).spec_boot_done() == old(self).spec_boot_done()
                &&& spec_one_shots_unchanged(*old(self), *final(self))
                &&& final(self).spec_playing() == old(self).spec_playing()
                &&& final(self).spec_safety_active() == old(self).spec_safety_active()
            },
            event matches SoundEvent::InitFail(_) ==> {
                &&& final(self).spec_boot_severity() == BootSeverity::Fail
                &&& final(self).spec_boot_done() == old(self).spec_boot_done()
                &&& spec_one_shots_unchanged(*old(self), *final(self))
                &&& final(self).spec_playing() == old(self).spec_playing()
                &&& final(self).spec_safety_active() == old(self).spec_safety_active()
            },
            event == SoundEvent::InitDone && old(self).spec_boot_done() ==> {
                &&& spec_boot_unchanged(*old(self), *final(self))
                &&& spec_one_shots_unchanged(*old(self), *final(self))
                &&& final(self).spec_playing() == old(self).spec_playing()
                &&& final(self).spec_safety_active() == old(self).spec_safety_active()
            },
            event == SoundEvent::InitDone && !old(self).spec_boot_done() ==> {
                &&& final(self).spec_boot_done()
                &&& final(self).spec_boot_severity() == old(self).spec_boot_severity()
                &&& spec_one_shot_requested(*old(self), *final(self),
                        spec_boot_sound(old(self).spec_boot_severity()))
                &&& final(self).spec_safety_active() == old(self).spec_safety_active()
            },
            event matches SoundEvent::EnterError(kind) ==> {
                &&& spec_boot_unchanged(*old(self), *final(self))
                &&& spec_one_shot_requested(*old(self), *final(self), spec_map_error_to_sound(kind))
                &&& final(self).spec_safety_active() == old(self).spec_safety_active()
            },
            event matches SoundEvent::ExitError(_) ==> {
                &&& spec_boot_unchanged(*old(self), *final(self))
                &&& spec_one_shots_unchanged(*old(self), *final(self))
                &&& final(self).spec_playing() == old(self).spec_playing()
                &&& final(self).spec_safety_active() == old(self).spec_safety_active()
            },
            event matches SoundEvent::EnterSafety(_) ==> {
                &&& spec_boot_unchanged(*old(self), *final(self))
                &&& spec_safety_entered(*old(self), *final(self))
            },
            event matches SoundEvent::ExitSafety(_) ==> {
                &&& spec_boot_unchanged(*old(self), *final(self))
                &&& spec_safety_exited(*old(self), *final(self))
            },
    {
        match event {
            SoundEvent::InitWarn(_) => {
                if matches!(self.boot_severity, BootSeverity::Healthy) {
                    self.boot_severity = BootSeverity::Warn;
                }
            }
            SoundEvent::InitFail(_) => {
                self.boot_severity = BootSeverity::Fail;
            }
            SoundEvent::InitDone => {
                if self.boot_done_emitted {
                    return;
                }
                self.boot_done_emitted = true;
                let ghost mid = *self;
                proof {
                    // The latch update left the queue and playback alone.
                    assert(mid.queue == old(self).queue);
                    assert(forall|x: SoundId| mid.queue.has(x)
                        ==> spec_has_pattern(x) && x != SoundId::SafetyAlarm);
                    assert(mid.wf());
                    assert(forall|x: SoundId| mid.queued(x) == old(self).queued(x));
                }
                let id = match self.boot_severity {
                    BootSeverity::Healthy => SoundId::BootOk,
                    BootSeverity::Warn => SoundId::BootWarn,
                    BootSeverity::Fail => SoundId::BootFail,
                };
                proof {
                    assert(spec_has_pattern(id)) by {
                        assert(spec_pattern_steps(SoundId::BootOk).len() == 8);
                        assert(spec_pattern_steps(SoundId::BootWarn).len() == 4);
                        assert(spec_pattern_steps(SoundId::BootFail).len() == 4);
                    };
                }
                self.request_one_shot(id);
                proof {
                    assert(spec_one_shot_requested(mid, *self, id));
                    lemma_request_start_state(*old(self), mid, *self, id);
                }
            }
            SoundEvent::EnterSafety(_) => {
                self.safety_active = true;
                self.queue.remove(SoundId::SafetyAlarm);
                self.start_immediately(SoundId::SafetyAlarm);
            }
            SoundEvent::ExitSafety(_) => {
                self.safety_active = false;
                self.queue.remove(SoundId::SafetyAlarm);
                let alarm_playing = match self.playing {
                    Some(p) => matches!(p.id, SoundId::SafetyAlarm),
                    None => false,
                };
                if alarm_playing {
                    let _ = self.buzzer.stop();
                    self.playing = None;
                }
            }
            SoundEvent::EnterError(kind) => {
                let id = map_error_to_sound(kind);
                self.request_one_shot(id);
            }
            SoundEvent::ExitError(_) => {}
        }
    }

    /// One timed tick with a monotonic millisecond clock: keeps the safety
    /// alarm sounding while active, advances playback past elapsed step
    /// deadlines, and otherwise starts the highest-priority pending sound
    /// once nothing is playing.
    pub fn tick(&mut self, now_ms: u64)
        requires
            old(self).wf(),
        ensures
            final(self).wf(),
            spec_boot_unchanged(*old(self), *final(self)),
            final(self).spec_safety_active() == old(self).spec_safety_active(),
            final(self).spec_last_now()
                == (if now_ms > old(self).spec_last_now() { now_ms } else { old(self).spec_last_now() }),
            old(self).spec_safety_active() ==> spec_tick_under_safety(*old(self), *final(self)),
            !old(self).spec_safety_active() ==> spec_tick_normal(*old(self), *final(self)),
            !old(self).spec_safety_active() && old(self).spec_playing() is None
                && (exists|x: SoundId| old(self).queued(x))
                ==> final(self).spec_playing() is Some,
            !old(self).spec_safety_active() ==> (old(self).spec_playing() matches Some(p)
                ==> (p.deadline_ms matches Some(d)
                    && (if now_ms > old(self).spec_last_now() { now_ms } else { old(self).spec_last_now() }) < d
                    ==> final(self).spec_playing() == old(self).spec_playing())),
    {
        let now = if now_ms > self.last_now_ms { now_ms } else { self.last_now_ms };
        self.last_now_ms = now;
        proof {
            // Re-establish well-formedness across the clock update: only
            // the quantified queue facts need a nudge.
            assert(self.queue == old(self).queue);
            assert(forall|id: SoundId| self.queue.has(id)
                ==> spec_has_pattern(id) && id != SoundId::SafetyAlarm);
            assert(self.wf());
        }

        let alarm_playing = match self.playing {
            Some(p) => matches!(p.id, SoundId::SafetyAlarm),
            None => false,
        };
        if self.safety_active && !alarm_playing {
            self.start_with_now(SoundId::SafetyAlarm, now);
        }

        self.advance_playback(now);
        proof {
            assert(forall|x: SoundId| self.queued(x) == old(self).queued(x));
        }

        if self.safety_active {
            return;
        }
        match self.playing {
            Some(_) => {
                return;
            }
            None => {}
        }

        let ghost before_pop = *self;
        match self.queue.pop_highest() {
            Some(id) => {
                proof {
                    assert(before_pop.queue.has(id));
                    assert(spec_has_pattern(id) && id != SoundId::SafetyAlarm) by {
                        assert(before_pop.queue_ok());
                        assert(forall|x: SoundId| #[trigger] before_pop.queue.has(x)
                            ==> spec_has_pattern(x) && x != SoundId::SafetyAlarm);
                        assert(before_pop.queue.has(id));
                    };
                    assert(before_pop.queued(id));
                    assert(old(self).queued(id));
                }
                self.start_with_now(id, now);
                proof {
                    assert(self.spec_playing() matches Some(p)
                        && p.id == id && p.step_index == 0);
                    assert(!self.queued(id));
                    assert(forall|x: SoundId| x != id ==> self.queued(x) == old(self).queued(x));
                    assert(forall|x: SoundId| old(self).queued(x)
                        ==> spec_sound_priority(x) <= spec_sound_priority(id));
                    assert(spec_tick_normal(*old(self), *self)) by {
                        assert(old(self).queued(id) && !self.queued(id)
                            && (forall|x: SoundId| x != id
                                ==> self.queued(x) == old(self).queued(x))
                            && (forall|x: SoundId| old(self).queued(x)
                                ==> spec_sound_priority(x) <= spec_sound_priority(id))
                            && (self.spec_playing() matches Some(p)
                                && p.id == id && p.step_index == 0));
                    };
                }
            }
            None => {
                proof {
                    assert(spec_one_shots_unchanged(*old(self), *self));
                }
            }
        }
    }
}

/// Tone priority: requesting a one-shot while another one-shot is playing
/// preempts it exactly when the new sound strictly outranks it and is not
/// already active or pending; a sound that does not outrank the playing one
/// leaves the playback untouched.
pub proof fn lemma_tone_priority<B: BuzzerControl>(
    m0: PromptToneManager<B>,
    m1: PromptToneManager<B>,
    id: SoundId,
    p: ActivePlayback,
)
    requires
        spec_one_shot_requested(m0, m1, id),
        m0.spec_playing() == Some(p),
        p.id != SoundId::SafetyAlarm,
        !m0.spec_safety_active(),
    ensures
        spec_sound_priority(id) <= spec_sound_priority(p.id)
            ==> m1.spec_playing() == m0.spec_playing(),
        spec_sound_priority(id) > spec_sound_priority(p.id) && id != p.id && !m0.queued(id)
            ==> m1.spec_playing() == spec_started(id),
{
}

/// Safety alarm exclusivity, entry half: entering the safety alarm while
/// one-shots are queued plays the alarm at once and keeps every queued
/// one-shot pending, unplayed.
pub proof fn lemma_safety_alarm_suppresses<B: BuzzerControl>(
    m0: PromptToneManager<B>,
    m1: PromptToneManager<B>,
    id: SoundId,
)
    requires
        spec_safety_entered(m0, m1),
        m0.queued(id),
        id != SoundId::SafetyAlarm,
    ensures
        m1.queued(id),
        m1.spec_playing() matches Some(p) && p.id == SoundId::SafetyAlarm,
{
    assert(spec_has_pattern(SoundId::SafetyAlarm));
}

/// Safety alarm exclusivity, during: while the alarm is active, a tick never
/// consumes a pending one-shot and never plays one.
pub proof fn lemma_safety_alarm_holds_queue<B: BuzzerControl>(
    m0: PromptToneManager<B>,
    m1: PromptToneManager<B>,
    id: SoundId,
)
    requires
        m0.spec_safety_active(),
        spec_tick_under_safety(m0, m1),
        m0.queued(id),
    ensures
        m1.queued(id),
        !(m1.spec_playing() matches Some(p) && p.id == id && id != SoundId::SafetyAlarm),
{
}

/// Safety alarm exclusivity, resume half: after the alarm exits, a tick that
/// picks up a pending sound picks one that outranks everything pending.
pub proof fn lemma_queue_resumes_by_priority<B: BuzzerControl>(
    m0: PromptToneManager<B>,
    m1: PromptToneManager<B>,
    x: SoundId,
)
    requires
        !m0.spec_safety_active(),
        spec_tick_normal(m0, m1),
        m0.spec_playing() is None,
        m0.queued(x),
        !spec_one_shots_unchanged(m0, m1),
    ensures
        m1.spec_playing() matches Some(p)
            && spec_sound_priority(x) <= spec_sound_priority(p.id)
            && m0.queued(p.id),
{
}

} // verus!
