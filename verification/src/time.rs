//! Points in time and spans of time, both counted in nanoseconds.

use vstd::prelude::*;

verus! {

/// A point on a monotonic clock: nanoseconds since an arbitrary origin that
/// is fixed for the whole run.
#[derive(Debug, Clone, Copy, PartialEq, Eq, Structural)]
pub struct Instant {
    pub nanos: u128,
}

/// A span of time in nanoseconds.
#[derive(Debug, Clone, Copy, PartialEq, Eq, Structural)]
pub struct Duration {
    pub nanos: u128,
}

/// The span from `earlier` to `later`, or zero when `later` is not after
/// `earlier`.
pub open spec fn saturating_gap(later: Instant, earlier: Instant) -> nat {
    if later.nanos > earlier.nanos {
        (later.nanos - earlier.nanos) as nat
    } else {
        0
    }
}

impl Instant {
    /// The instant `nanos` nanoseconds after the origin.
    pub fn from_nanos(nanos: u128) -> (r: Instant)
        ensures
            r.nanos == nanos,
    {
        Instant { nanos }
    }

    /// The time elapsed from `earlier` to `self`, or zero if `earlier` is
    /// later than `self`.
    pub fn saturating_duration_since(&self, earlier: Instant) -> (d: Duration)
        ensures
            d.nanos == saturating_gap(*self, earlier),
            self.nanos >= earlier.nanos ==> d.nanos + earlier.nanos == self.nanos,
            self.nanos <= earlier.nanos ==> d.nanos == 0,
    {
        if self.nanos > earlier.nanos {
            Duration { nanos: self.nanos - earlier.nanos }
        } else {
            Duration { nanos: 0 }
        }
    }

    /// `self` moved forward by `d`, or `None` where that does not fit.
    pub fn checked_add(&self, d: Duration) -> (r: Option<Instant>)
        ensures
            self.nanos + d.nanos <= u128::MAX ==> r == Some(Instant { nanos: (self.nanos + d.nanos) as u128 }),
            self.nanos + d.nanos > u128::MAX ==> r is None,
    {
        if self.nanos <= u128::MAX - d.nanos {
            Some(Instant { nanos: self.nanos + d.nanos })
        } else {
            None
        }
    }
}

impl Duration {
    /// The empty span.
    pub fn zero() -> (d: Duration)
        ensures
            d.nanos == 0,
    {
        Duration { nanos: 0 }
    }

    /// A span of `nanos` nanoseconds.
    pub fn from_nanos(nanos: u128) -> (d: Duration)
        ensures
            d.nanos == nanos,
    {
        Duration { nanos }
    }

    /// A span of `ms` milliseconds.
    pub fn from_millis(ms: u64) -> (d: Duration)
        ensures
            d.nanos == ms * 1_000_000,
    {
        assert(ms * 1_000_000 <= u128::MAX) by (nonlinear_arith)
            requires
                ms <= u64::MAX,
        ;
        Duration { nanos: ms as u128 * 1_000_000 }
    }

    /// The number of whole milliseconds in the span.
    pub fn as_millis(&self) -> (ms: u128)
        ensures
            ms == self.nanos / 1_000_000,
    {
        self.nanos / 1_000_000
    }

    /// The number of nanoseconds in the span.
    pub fn as_nanos(&self) -> (n: u128)
        ensures
            n == self.nanos,
    {
        self.nanos
    }
}

/// The gap from an earlier instant to a later one is the time between
/// them: added to the earlier instant it gives the later one; where the
/// "later" instant is not after the earlier one, the gap is zero.
pub proof fn lemma_gap_is_elapsed_time(later: Instant, earlier: Instant)
    ensures
        later.nanos >= earlier.nanos ==> earlier.nanos + saturating_gap(later, earlier) == later.nanos,
        later.nanos <= earlier.nanos ==> saturating_gap(later, earlier) == 0,
{
}

} // verus!
