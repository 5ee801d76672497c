//! The debounce window that the user can set.

use vstd::prelude::*;

verus! {

/// The debounce window at start, in milliseconds.
pub const DEFAULT_WINDOW_MS: u64 = 30;

/// The shortest debounce window the user can set, in milliseconds.
pub const MIN_WINDOW_MS: u64 = 5;

/// The longest debounce window the user can set, in milliseconds.
pub const MAX_WINDOW_MS: u64 = 150;

/// `ms` brought into the range from `MIN_WINDOW_MS` to `MAX_WINDOW_MS`.
pub open spec fn clamped_window(ms: u64) -> u64 {
    if ms < MIN_WINDOW_MS {
        MIN_WINDOW_MS
    } else if ms > MAX_WINDOW_MS {
        MAX_WINDOW_MS
    } else {
        ms
    }
}

/// The window that a request for a window of `ms` milliseconds sets: `ms`
/// brought into the range from `MIN_WINDOW_MS` to `MAX_WINDOW_MS`.
pub fn clamp_threshold(ms: u64) -> (r: u64)
    ensures
        r == clamped_window(ms),
{
    if ms < MIN_WINDOW_MS {
        MIN_WINDOW_MS
    } else if ms > MAX_WINDOW_MS {
        MAX_WINDOW_MS
    } else {
        ms
    }
}

/// Whatever the request, the window set lies between `MIN_WINDOW_MS` and
/// `MAX_WINDOW_MS` (5 and 150 ms), a request within that range is set as it
/// is, one below it sets the shortest window and one above it the longest;
/// the window at start is 30 ms.
pub proof fn lemma_threshold_in_range(ms: u64)
    ensures
        MIN_WINDOW_MS <= clamped_window(ms) <= MAX_WINDOW_MS,
        MIN_WINDOW_MS <= ms <= MAX_WINDOW_MS ==> clamped_window(ms) == ms,
        5 <= clamped_window(ms) <= 150,
        5 <= ms <= 150 ==> clamped_window(ms) == ms,
        ms < 5 ==> clamped_window(ms) == 5,
        ms > 150 ==> clamped_window(ms) == 150,
        DEFAULT_WINDOW_MS == 30,
{
}

} // verus!
