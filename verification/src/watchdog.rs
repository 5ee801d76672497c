//! The watchdog that notices when the keyboard hook has silently stopped.
//!
//! Every few seconds the watchdog injects a probe key event that only the
//! hook can see; when the hook has missed several probes in a row it is
//! reinstalled.

use vstd::prelude::*;

verus! {

/// The number of probes in a row the hook may miss before it is reinstalled.
pub const MISSES_BEFORE_REINSTALL: u32 = 3;

/// One probe result for a watchdog that has counted `misses` missed probes:
/// the new count and whether the hook must be reinstalled.
pub open spec fn probe_outcome(misses: nat, probe_seen: bool) -> (nat, bool) {
    if probe_seen {
        (0, false)
    } else if misses + 1 < MISSES_BEFORE_REINSTALL {
        ((misses + 1) as nat, false)
    } else {
        (0, true)
    }
}

/// Counts the probes the hook has missed in a row.
#[derive(Debug)]
pub struct Watchdog {
    misses: u32,
}

impl Watchdog {
    #[verifier::type_invariant]
    spec fn fewer_than_limit(self) -> bool {
        self.misses < MISSES_BEFORE_REINSTALL
    }

    /// The number of probes missed in a row since the last seen probe or
    /// the last reinstall.
    pub closed spec fn misses(&self) -> nat {
        self.misses as nat
    }

    /// A watchdog that has counted no miss.
    pub fn new() -> (w: Watchdog)
        ensures
            w.misses() == 0,
    {
        Watchdog { misses: 0 }
    }

    /// Records whether the last probe reached the hook, and returns whether
    /// the hook must now be reinstalled.
    pub fn after_probe(&mut self, probe_seen: bool) -> (reinstall: bool)
        ensures
            final(self).misses() == probe_outcome(old(self).misses(), probe_seen).0,
            reinstall == probe_outcome(old(self).misses(), probe_seen).1,
            final(self).misses() < MISSES_BEFORE_REINSTALL,
    {
        proof {
            use_type_invariant(&*self);
        }
        if probe_seen {
            self.misses = 0;
            return false;
        }
        if self.misses + 1 < MISSES_BEFORE_REINSTALL {
            self.misses = self.misses + 1;
            return false;
        }
        self.misses = 0;
        true
    }
}

/// A probe that reaches the hook never causes a reinstall, and clears the
/// count of misses.
pub proof fn lemma_seen_probe_never_reinstalls(misses: nat)
    ensures
        probe_outcome(misses, true) == (0nat, false),
{
}

/// The hook is reinstalled after exactly `MISSES_BEFORE_REINSTALL` missed
/// probes in a row: after a probe that reached the hook, the first two
/// misses leave it alone and the third asks for a reinstall and starts the
/// count again.
pub proof fn lemma_reinstall_after_three_misses(misses: nat)
    ensures
        ({
            let (m1, r1) = probe_outcome(misses, true);
            let (m2, r2) = probe_outcome(m1, false);
            let (m3, r3) = probe_outcome(m2, false);
            let (m4, r4) = probe_outcome(m3, false);
            &&& !r1 && !r2 && !r3 && r4
            &&& m2 == 1 && m3 == 2 && m4 == 0
        }),
{
}

} // verus!
