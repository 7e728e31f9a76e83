//! Button input conditioning: a debouncer that turns a raw, noisy digital
//! level into stable press/release edges, and a classifier that sorts a
//! stable press duration into short, long, or invalid.
//!
//! A candidate level must persist unchanged for the full debounce window
//! before the reported stable level flips; every disagreement restarts the
//! candidate timer, so chatter faster than the window never produces an edge.

use vstd::prelude::*;

verus! {

/// How long a deviating raw level must persist before it is trusted, in
/// milliseconds.
pub const DEBOUNCE_WINDOW_MS: u64 = 30;

/// Inclusive lower bound of the short-press band, in milliseconds.
pub const SHORT_PRESS_MIN_MS: u64 = 50;
/// Inclusive upper bound of the short-press band, in milliseconds.
pub const SHORT_PRESS_MAX_MS: u64 = 800;
/// Inclusive lower bound of the long-press band, in milliseconds.
pub const LONG_PRESS_MIN_MS: u64 = 1200;
/// Inclusive upper bound of the long-press band, in milliseconds.
pub const LONG_PRESS_MAX_MS: u64 = 8000;

/// A stable edge reported by the debouncer.
#[derive(Clone, Copy, Debug, PartialEq, Eq, Structural)]
pub enum ButtonEdge {
    Pressed,
    Released,
}

/// Classification of a stable press duration.
#[derive(Clone, Copy, Debug, PartialEq, Eq, Structural)]
pub enum PressClass {
    Short,
    Long,
    /// Outside both bands: rejected with dedicated feedback, never acted on.
    Invalid,
}

/// Debouncer state for one button.
#[derive(Clone, Copy, Debug, PartialEq, Eq, Structural)]
pub struct DebouncedButton {
    /// The level currently trusted and reported.
    pub stable_pressed: bool,
    /// The most recent deviating level under observation.
    pub candidate_pressed: bool,
    /// When the candidate level was first seen, while it deviates from the
    /// stable level; `None` while raw agrees with stable.
    pub candidate_since: Option<u64>,
}

/// The debouncer state after one poll of the raw level.
pub open spec fn spec_debounce_state(b: DebouncedButton, raw: bool, now_ms: u64) -> DebouncedButton {
    if raw == b.stable_pressed {
        DebouncedButton { stable_pressed: b.stable_pressed, candidate_pressed: raw, candidate_since: None }
    } else {
        match b.candidate_since {
            Some(since) if b.candidate_pressed == raw => {
                if now_ms >= since + DEBOUNCE_WINDOW_MS {
                    DebouncedButton { stable_pressed: raw, candidate_pressed: raw, candidate_since: None }
                } else {
                    b
                }
            }
            _ => DebouncedButton {
                stable_pressed: b.stable_pressed,
                candidate_pressed: raw,
                candidate_since: Some(now_ms),
            },
        }
    }
}

/// The edge, if any, emitted by one poll of the raw level.
pub open spec fn spec_debounce_edge(b: DebouncedButton, raw: bool, now_ms: u64) -> Option<ButtonEdge> {
    if raw != b.stable_pressed
        && (b.candidate_since matches Some(since) && b.candidate_pressed == raw
            && now_ms >= since + DEBOUNCE_WINDOW_MS) {
        if raw {
            Some(ButtonEdge::Pressed)
        } else {
            Some(ButtonEdge::Released)
        }
    } else {
        None
    }
}

impl DebouncedButton {
    /// A settled button at the given level.
    pub fn new(pressed: bool) -> (r: Self)
        ensures
            r == (DebouncedButton { stable_pressed: pressed, candidate_pressed: pressed, candidate_since: None }),
    {
        Self { stable_pressed: pressed, candidate_pressed: pressed, candidate_since: None }
    }

    /// Feed one raw sample taken at `now_ms`. At most one edge is emitted
    /// per call, and only after the deviating level has persisted for the
    /// full debounce window.
    pub fn update(&mut self, raw: bool, now_ms: u64) -> (edge: Option<ButtonEdge>)
        ensures
            *final(self) == spec_debounce_state(*old(self), raw, now_ms),
            edge == spec_debounce_edge(*old(self), raw, now_ms),
    {
        if raw == self.stable_pressed {
            self.candidate_pressed = raw;
            self.candidate_since = None;
            None
        } else {
            let pending: Option<u64> = if self.candidate_pressed == raw { self.candidate_since } else { None };
            match pending {
                Some(since) => {
                    if now_ms >= DEBOUNCE_WINDOW_MS && now_ms - DEBOUNCE_WINDOW_MS >= since {
                        self.stable_pressed = raw;
                        self.candidate_pressed = raw;
                        self.candidate_since = None;
                        if raw {
                            Some(ButtonEdge::Pressed)
                        } else {
                            Some(ButtonEdge::Released)
                        }
                    } else {
                        None
                    }
                }
                None => {
                    self.candidate_pressed = raw;
                    self.candidate_since = Some(now_ms);
                    None
                }
            }
        }
    }
}

/// The class of a stable press duration: short and long are two disjoint,
/// non-adjacent closed bands; everything between, below and above them is
/// invalid.
pub open spec fn spec_classify_press(duration_ms: u64) -> PressClass {
    if SHORT_PRESS_MIN_MS <= duration_ms <= SHORT_PRESS_MAX_MS {
        PressClass::Short
    } else if LONG_PRESS_MIN_MS <= duration_ms <= LONG_PRESS_MAX_MS {
        PressClass::Long
    } else {
        PressClass::Invalid
    }
}

/// Classify a stable press duration into short, long, or invalid.
pub fn classify_press(duration_ms: u64) -> (class: PressClass)
    ensures
        class == spec_classify_press(duration_ms),
{
    if SHORT_PRESS_MIN_MS <= duration_ms && duration_ms <= SHORT_PRESS_MAX_MS {
        PressClass::Short
    } else if LONG_PRESS_MIN_MS <= duration_ms && duration_ms <= LONG_PRESS_MAX_MS {
        PressClass::Long
    } else {
        PressClass::Invalid
    }
}

/// Debounce rejects chatter: a poll emits an edge only when a deviating
/// level was first seen a full debounce window ago and is still held; so a
/// raw signal that deviates and returns within less than the window can
/// never produce an edge, whatever the poll times.
pub proof fn lemma_edge_needs_full_window(b: DebouncedButton, raw: bool, now_ms: u64)
    ensures
        spec_debounce_edge(b, raw, now_ms) is Some ==> {
            &&& raw != b.stable_pressed
            &&& b.candidate_pressed == raw
            &&& b.candidate_since matches Some(since) && now_ms >= since + DEBOUNCE_WINDOW_MS
        },
{
}

/// Debounce rejects chatter, concretely: from a settled state, a deviation
/// polled at `t0` and polled again unchanged at `t1` before the window has
/// elapsed emits no edge and leaves the stable level untouched; a poll that
/// then sees the level back at the stable value settles the button again,
/// still without an edge.
pub proof fn lemma_debounce_rejects_chatter(b: DebouncedButton, t0: u64, t1: u64, t2: u64)
    requires
        b.candidate_since is None,
        b.candidate_pressed == b.stable_pressed,
        t0 <= t1,
        t1 < t0 + DEBOUNCE_WINDOW_MS,
    ensures
        ({
            let b1 = spec_debounce_state(b, !b.stable_pressed, t0);
            let b2 = spec_debounce_state(b1, !b.stable_pressed, t1);
            let b3 = spec_debounce_state(b2, b.stable_pressed, t2);
            &&& spec_debounce_edge(b, !b.stable_pressed, t0) is None
            &&& spec_debounce_edge(b1, !b.stable_pressed, t1) is None
            &&& spec_debounce_edge(b2, b.stable_pressed, t2) is None
            &&& b1.stable_pressed == b.stable_pressed
            &&& b2.stable_pressed == b.stable_pressed
            &&& b3.stable_pressed == b.stable_pressed
            &&& b3.candidate_since is None
        }),
{
}

/// Press classification boundaries: the short-band lower bound is short, one
/// millisecond less is invalid, and every duration strictly between the
/// short and long bands is invalid.
pub proof fn lemma_press_classification_boundaries(duration_ms: u64)
    ensures
        spec_classify_press(SHORT_PRESS_MIN_MS) == PressClass::Short,
        spec_classify_press((SHORT_PRESS_MIN_MS - 1) as u64) == PressClass::Invalid,
        SHORT_PRESS_MAX_MS < duration_ms < LONG_PRESS_MIN_MS
            ==> spec_classify_press(duration_ms) == PressClass::Invalid,
        duration_ms > LONG_PRESS_MAX_MS ==> spec_classify_press(duration_ms) == PressClass::Invalid,
{
}

} // verus!
