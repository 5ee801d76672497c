//! The per-key debouncer.
//!
//! A key that chatters produces a spurious release and press within a few
//! milliseconds. A press that arrives less than the debounce window after
//! the same key's last release is dropped, and so is the release that
//! belongs to it. Keys are tracked independently, and a press of a key that
//! is still held (auto-repeat) is always forwarded.

use std::collections::HashMap;

use vstd::prelude::*;

use crate::time::{saturating_gap, Duration, Instant};

verus! {

broadcast use vstd::std_specs::hash::group_hash_axioms;

/// What to do with a key event.
#[derive(Debug, Clone, Copy, PartialEq, Eq, Structural)]
pub enum Decision {
    /// Pass the event on.
    Forward,
    /// Swallow the event. For a dropped press, `gap` is the time since the
    /// key's last release; for a dropped release it is zero.
    Drop { gap: Duration },
}

/// What the debouncer remembers of one key.
#[derive(Debug, Clone, Copy)]
pub struct KeyState {
    /// A press of the key was forwarded and its release has not come yet.
    pub held: bool,
    /// A press of the key was dropped and its release has not come yet.
    pub dropping: bool,
    /// When the key was last released.
    pub last_release: Option<Instant>,
}

impl KeyState {
    /// The state of a key that has not been seen.
    pub open spec fn idle() -> KeyState {
        KeyState { held: false, dropping: false, last_release: None }
    }

    /// A key is never both held and being dropped, and it is dropped only
    /// after a recorded release.
    pub open spec fn consistent(self) -> bool {
        &&& !(self.held && self.dropping)
        &&& self.dropping ==> self.last_release is Some
    }
}

impl Default for KeyState {
    fn default() -> (s: KeyState)
        ensures
            s == KeyState::idle(),
    {
        KeyState { held: false, dropping: false, last_release: None }
    }
}

/// The state of `key` in `keys`; a key that is not there is idle.
pub open spec fn state_of(keys: Map<u32, KeyState>, key: u32) -> KeyState {
    if keys.contains_key(key) {
        keys[key]
    } else {
        KeyState::idle()
    }
}

/// The drop with the given gap.
pub open spec fn dropped(gap: nat) -> Decision {
    Decision::Drop { gap: Duration { nanos: gap as u128 } }
}

/// A press of a key in state `s` at `now`, with debounce window `window`:
/// the key's next state and the decision.
pub open spec fn press_outcome(s: KeyState, now: Instant, window: Duration) -> (KeyState, Decision) {
    if s.dropping {
        (s, dropped(0))
    } else if s.held {
        (s, Decision::Forward)
    } else if s.last_release is Some && saturating_gap(now, s.last_release->0) < window.nanos {
        (
            KeyState { held: s.held, dropping: true, last_release: s.last_release },
            dropped(saturating_gap(now, s.last_release->0)),
        )
    } else {
        (KeyState { held: true, dropping: s.dropping, last_release: s.last_release }, Decision::Forward)
    }
}

/// A release of a key in state `s` at `now`: the key's next state and the
/// decision.
pub open spec fn release_outcome(s: KeyState, now: Instant) -> (KeyState, Decision) {
    if s.dropping {
        (KeyState { held: s.held, dropping: false, last_release: Some(now) }, dropped(0))
    } else {
        (KeyState { held: false, dropping: false, last_release: Some(now) }, Decision::Forward)
    }
}

/// Whether every key in `keys` is in a consistent state.
pub open spec fn all_consistent(keys: Map<u32, KeyState>) -> bool {
    forall|k: u32| #[trigger] keys.contains_key(k) ==> keys[k].consistent()
}

/// Tracks the state of each key, by its integer code, and decides, event by
/// event, which key events pass.
#[derive(Debug)]
pub struct Debouncer {
    keys: HashMap<u32, KeyState>,
}

impl View for Debouncer {
    type V = Map<u32, KeyState>;

    closed spec fn view(&self) -> Map<u32, KeyState> {
        self.keys@
    }
}

impl Default for Debouncer {
    fn default() -> (d: Self)
        ensures
            d@ == Map::<u32, KeyState>::empty(),
    {
        Debouncer::new()
    }
}

impl Debouncer {
    /// A debouncer that has seen no key.
    pub fn new() -> (d: Self)
        ensures
            d@ == Map::<u32, KeyState>::empty(),
    {
        Debouncer { keys: HashMap::new() }
    }

    /// Decides on a press of `key` at `now`, where presses less than
    /// `window` after the key's last release are chatter.
    pub fn on_press(&mut self, key: u32, now: Instant, window: Duration) -> (d: Decision)
        ensures
            final(self)@ == old(self)@.insert(
                key,
                press_outcome(state_of(old(self)@, key), now, window).0,
            ),
            d == press_outcome(state_of(old(self)@, key), now, window).1,
            all_consistent(old(self)@) ==> all_consistent(final(self)@),
    {
        let state: KeyState = match self.keys.get(&key) {
            Some(s) => *s,
            None => KeyState::default(),
        };
        if state.dropping {
            self.keys.insert(key, state);
            return Decision::Drop { gap: Duration::zero() };
        }
        if state.held {
            self.keys.insert(key, state);
            return Decision::Forward;
        }
        if let Some(released) = state.last_release {
            let gap = now.saturating_duration_since(released);
            if gap.nanos < window.nanos {
                self.keys.insert(
                    key,
                    KeyState { held: state.held, dropping: true, last_release: state.last_release },
                );
                return Decision::Drop { gap };
            }
        }
        self.keys.insert(
            key,
            KeyState { held: true, dropping: state.dropping, last_release: state.last_release },
        );
        Decision::Forward
    }

    /// Decides on a release of `key` at `now`.
    pub fn on_release(&mut self, key: u32, now: Instant) -> (d: Decision)
        ensures
            final(self)@ == old(self)@.insert(
                key,
                release_outcome(state_of(old(self)@, key), now).0,
            ),
            d == release_outcome(state_of(old(self)@, key), now).1,
            all_consistent(old(self)@) ==> all_consistent(final(self)@),
    {
        let state: KeyState = match self.keys.get(&key) {
            Some(s) => *s,
            None => KeyState::default(),
        };
        if state.dropping {
            self.keys.insert(
                key,
                KeyState { held: state.held, dropping: false, last_release: Some(now) },
            );
            return Decision::Drop { gap: Duration::zero() };
        }
        self.keys.insert(key, KeyState { held: false, dropping: false, last_release: Some(now) });
        Decision::Forward
    }

    /// Forgets every key.
    pub fn clear(&mut self)
        ensures
            final(self)@ == Map::<u32, KeyState>::empty(),
    {
        self.keys.clear();
    }
}

/// A press and the release that follows it are forwarded together or
/// dropped together: a bounce's release is swallowed along with it, and the
/// release of a forwarded press is forwarded.
pub proof fn lemma_release_goes_with_its_press(s: KeyState, pressed_at: Instant, window: Duration, released_at: Instant)
    ensures
        (press_outcome(s, pressed_at, window).1 is Forward) == (release_outcome(
            press_outcome(s, pressed_at, window).0,
            released_at,
        ).1 is Forward),
{
}

/// Auto-repeat is never taken for chatter: once a press of a key is
/// forwarded, every further press of it before its release is forwarded,
/// whenever it comes and whatever the window.
pub proof fn lemma_auto_repeat_is_forwarded(s: KeyState, first: Instant, window: Duration, again: Instant, window_again: Duration)
    requires
        press_outcome(s, first, window).1 is Forward,
    ensures
        press_outcome(press_outcome(s, first, window).0, again, window_again).1 is Forward,
        press_outcome(press_outcome(s, first, window).0, again, window_again).0
            == press_outcome(s, first, window).0,
{
}

/// After a release at `released_at`, the next press of the key is dropped
/// exactly when it comes less than the window after that release, and then
/// its gap is the time since the release; a deliberate press after the
/// window is forwarded.
pub proof fn lemma_press_after_release(s: KeyState, released_at: Instant, pressed_at: Instant, window: Duration)
    requires
        s.consistent(),
    ensures
        press_outcome(release_outcome(s, released_at).0, pressed_at, window).1 == (if saturating_gap(
            pressed_at,
            released_at,
        ) < window.nanos {
            Decision::Drop { gap: Duration { nanos: saturating_gap(pressed_at, released_at) as u128 } }
        } else {
            Decision::Forward
        }),
{
}

/// A dropped press has a gap of zero (a further press during a bounce) or
/// one shorter than the window.
pub proof fn lemma_drop_gap_within_window(s: KeyState, now: Instant, window: Duration)
    ensures
        press_outcome(s, now, window).1 matches Decision::Drop { gap } ==> gap.nanos == 0
            || gap.nanos < window.nanos,
{
}

/// Keys are tracked independently: a press or a release of one key leaves
/// the state of every other key as it was.
pub proof fn lemma_keys_are_independent(keys: Map<u32, KeyState>, key: u32, other: u32, now: Instant, window: Duration)
    requires
        key != other,
    ensures
        state_of(keys.insert(key, press_outcome(state_of(keys, key), now, window).0), other)
            == state_of(keys, other),
        state_of(keys.insert(key, release_outcome(state_of(keys, key), now).0), other)
            == state_of(keys, other),
{
}

/// A key that the debouncer has not seen, or has forgotten, is idle: its
/// first press is forwarded.
pub proof fn lemma_first_press_is_forwarded(key: u32, now: Instant, window: Duration)
    ensures
        state_of(Map::<u32, KeyState>::empty(), key) == KeyState::idle(),
        press_outcome(KeyState::idle(), now, window).1 == Decision::Forward,
{
}

} // verus!
