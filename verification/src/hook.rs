//! The step that the keyboard hook takes for each key event, and the
//! events it reports to the user interface.

use vstd::prelude::*;

use crate::debounce::{press_outcome, release_outcome, state_of, Debouncer, Decision, KeyState};
use crate::time::{saturating_gap, Duration, Instant};

verus! {

/// A report to the user interface about a key press that the hook saw
/// while filtering.
pub struct KeyEvent {
    /// `"pass"` for a forwarded press, `"block"` for a dropped one.
    pub kind: &'static str,
    /// The name of the dropped key.
    pub key: Option<String>,
    /// How long after the key's release the dropped press came, in whole
    /// milliseconds.
    pub gap_ms: Option<u64>,
    /// The number of presses dropped so far.
    pub total: u64,
}

impl KeyEvent {
    /// The report of a forwarded press, while `total` presses have been
    /// dropped.
    pub fn pass(total: u64) -> (e: KeyEvent)
        ensures
            e.kind == "pass",
            e.key is None,
            e.gap_ms is None,
            e.total == total,
    {
        KeyEvent { kind: "pass", key: None, gap_ms: None, total }
    }

    /// The report of a dropped press of the key named `key`, `gap` after
    /// its release, where `blocked_before` presses had been dropped before
    /// it: the total it reports counts this one too (wrapping around at the
    /// top of the counter's range, as the shared counter does).
    pub fn block(key: String, gap: Duration, blocked_before: u64) -> (e: KeyEvent)
        ensures
            e.kind == "block",
            e.key == Some(key),
            e.gap_ms == Some((gap.nanos / 1_000_000) as u64),
            e.total == (if blocked_before == u64::MAX { 0 } else { (blocked_before + 1) as u64 }),
    {
        let ms: u128 = gap.as_millis();
        let total: u64 = if blocked_before == u64::MAX { 0 } else { blocked_before + 1 };
        KeyEvent { kind: "block", key: Some(key), gap_ms: Some(ms as u64), total }
    }
}

/// What the hook reports about one key event.
#[derive(Debug, Clone, Copy, PartialEq, Eq, Structural)]
pub enum Notice {
    /// Nothing.
    Silent,
    /// A press was forwarded.
    Passed,
    /// A press was dropped, `gap` after the key's last release.
    Blocked { gap: Duration },
}

/// The hook's answer to one key event.
#[derive(Debug, Clone, Copy, PartialEq, Eq, Structural)]
pub struct Outcome {
    /// Whether the event counts among the presses seen (every press does,
    /// filtered or not).
    pub seen: bool,
    /// Whether the event is swallowed instead of passed on.
    pub swallow: bool,
    /// What to report.
    pub notice: Notice,
}

/// The outcome of a debouncer decision on a press (`pressed`) or a release.
pub open spec fn outcome_of(d: Decision, pressed: bool) -> Outcome {
    match d {
        Decision::Forward => Outcome {
            seen: pressed,
            swallow: false,
            notice: if pressed { Notice::Passed } else { Notice::Silent },
        },
        Decision::Drop { gap } => Outcome {
            seen: pressed,
            swallow: true,
            notice: if pressed { Notice::Blocked { gap } } else { Notice::Silent },
        },
    }
}

/// The key states that the hook works on for an event that finds filtering
/// set to `filtering`: all of them are forgotten when filtering was just
/// switched on or off.
pub open spec fn keys_for_event(keys: Map<u32, KeyState>, was_filtering: bool, filtering: bool) -> Map<u32, KeyState> {
    if was_filtering != filtering {
        Map::empty()
    } else {
        keys
    }
}

/// The key states after an event, and the hook's answer.
pub open spec fn event_outcome(
    keys: Map<u32, KeyState>,
    was_filtering: bool,
    key: u32,
    pressed: bool,
    filtering: bool,
    now: Instant,
    window: Duration,
) -> (Map<u32, KeyState>, Outcome) {
    let start = keys_for_event(keys, was_filtering, filtering);
    if !filtering {
        (start, Outcome { seen: pressed, swallow: false, notice: Notice::Silent })
    } else if pressed {
        let (s, d) = press_outcome(state_of(start, key), now, window);
        (start.insert(key, s), outcome_of(d, true))
    } else {
        let (s, d) = release_outcome(state_of(start, key), now);
        (start.insert(key, s), outcome_of(d, false))
    }
}

/// The filtering state that the keyboard hook keeps between events; keys
/// are known by their integer codes.
#[derive(Debug)]
pub struct HookState {
    debouncer: Debouncer,
    was_filtering: bool,
}

impl HookState {
    /// The state of each key the hook remembers.
    pub closed spec fn keys(&self) -> Map<u32, KeyState> {
        self.debouncer@
    }

    /// Whether filtering was on at the last event.
    pub closed spec fn was_filtering(&self) -> bool {
        self.was_filtering
    }

    /// The state at start: filtering on, no key seen.
    pub fn new() -> (h: Self)
        ensures
            h.keys() == Map::<u32, KeyState>::empty(),
            h.was_filtering(),
    {
        HookState { debouncer: Debouncer::new(), was_filtering: true }
    }

    /// Decides on a press (`pressed`) or release of `key` at `now`, where
    /// filtering is currently `filtering` and the debounce window is
    /// `window`.
    pub fn decide(&mut self, key: u32, pressed: bool, filtering: bool, now: Instant, window: Duration) -> (o: Outcome)
        ensures
            final(self).was_filtering() == filtering,
            o.seen == pressed,
            filtering && old(self).was_filtering() && pressed && !state_of(old(self).keys(), key).held
                && !state_of(old(self).keys(), key).dropping && state_of(
                old(self).keys(),
                key,
            ).last_release is Some ==> {
                let gap = saturating_gap(now, state_of(old(self).keys(), key).last_release->0);
                &&& o.swallow == (gap < window.nanos)
                &&& o.swallow ==> o.notice == (Notice::Blocked { gap: Duration { nanos: gap as u128 } })
                &&& !o.swallow ==> o.notice == Notice::Passed
            },
            filtering && old(self).was_filtering() && !pressed ==> o.swallow == state_of(
                old(self).keys(),
                key,
            ).dropping,
            !filtering ==> o == (Outcome { seen: pressed, swallow: false, notice: Notice::Silent }),
            !pressed ==> o.notice == Notice::Silent,
            old(self).was_filtering() != filtering && !filtering ==> final(self).keys() == Map::<
                u32,
                KeyState,
            >::empty(),
            final(self).keys() == event_outcome(
                old(self).keys(), old(self).was_filtering(), key, pressed, filtering, now, window,
            ).0,
            o == event_outcome(
                old(self).keys(), old(self).was_filtering(), key, pressed, filtering, now, window,
            ).1,
    {
        if self.was_filtering != filtering {
            self.was_filtering = filtering;
            self.debouncer.clear();
        }
        if !filtering {
            return Outcome { seen: pressed, swallow: false, notice: Notice::Silent };
        }
        let decision = if pressed {
            self.debouncer.on_press(key, now, window)
        } else {
            self.debouncer.on_release(key, now)
        };
        match decision {
            Decision::Forward => {
                if pressed {
                    Outcome { seen: pressed, swallow: false, notice: Notice::Passed }
                } else {
                    Outcome { seen: pressed, swallow: false, notice: Notice::Silent }
                }
            },
            Decision::Drop { gap } => {
                if pressed {
                    Outcome { seen: pressed, swallow: true, notice: Notice::Blocked { gap } }
                } else {
                    Outcome { seen: pressed, swallow: true, notice: Notice::Silent }
                }
            },
        }
    }
}

/// With filtering on, a press that comes after the key's release is
/// swallowed exactly when it comes less than the window given for it after
/// that release, and is then reported with the time since the release; a
/// later press is passed on and reported as passed.
pub proof fn lemma_hook_press_after_release(
    keys: Map<u32, KeyState>,
    was_filtering: bool,
    key: u32,
    released_at: Instant,
    pressed_at: Instant,
    window: Duration,
)
    requires
        state_of(keys, key).consistent(),
    ensures
        ({
            let after_release = event_outcome(keys, was_filtering, key, false, true, released_at, window).0;
            let o = event_outcome(after_release, true, key, true, true, pressed_at, window).1;
            let gap = saturating_gap(pressed_at, released_at);
            &&& o.seen
            &&& o.swallow == (gap < window.nanos)
            &&& o.swallow ==> o.notice == (Notice::Blocked { gap: Duration { nanos: gap as u128 } })
            &&& !o.swallow ==> o.notice == Notice::Passed
        }),
{
}

/// While filtering is off, no event is swallowed and none is reported.
pub proof fn lemma_unfiltered_events_pass(
    keys: Map<u32, KeyState>,
    was_filtering: bool,
    key: u32,
    pressed: bool,
    now: Instant,
    window: Duration,
)
    ensures
        !event_outcome(keys, was_filtering, key, pressed, false, now, window).1.swallow,
        event_outcome(keys, was_filtering, key, pressed, false, now, window).1.notice == Notice::Silent,
{
}

/// When filtering is switched on, every key's history is forgotten: the
/// first press of any key is passed on and reported as passed.
pub proof fn lemma_switching_on_forgets_history(keys: Map<u32, KeyState>, key: u32, now: Instant, window: Duration)
    ensures
        event_outcome(keys, false, key, true, true, now, window).1 == (Outcome {
            seen: true,
            swallow: false,
            notice: Notice::Passed,
        }),
{
}

} // verus!
