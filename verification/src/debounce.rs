//! Suppression of duplicate trigger events arriving within a fixed window.
//!
//! The detection side keeps one guard: the timestamp (monotonic milliseconds)
//! of the last accepted trigger. A trigger arriving less than
//! [`DEBOUNCE_WINDOW_MS`] after the last accepted one is discarded, so
//! auto-repeat and double-delivery from redundant detection methods collapse
//! to a single accepted event per window.

use vstd::prelude::*;

verus! {

/// Width of the debounce window, in milliseconds.
pub const DEBOUNCE_WINDOW_MS: u64 = 1000;

/// Whether a trigger observed at `now` is accepted when the last accepted
/// trigger was at `last` (`None`: no trigger has been accepted yet).
pub open spec fn debounce_accepts(last: Option<u64>, now: u64) -> bool {
    match last {
        Option::None => true,
        Option::Some(l) => l + DEBOUNCE_WINDOW_MS <= now,
    }
}

/// The "last accepted trigger timestamp" guard shared by all detection
/// methods of one process.
pub struct DebounceGuard {
    /// Timestamp of the last accepted trigger, if any.
    pub last: Option<u64>,
}

impl DebounceGuard {
    /// A guard that has accepted nothing yet: the first trigger is accepted
    /// whatever its timestamp.
    pub fn new() -> (g: DebounceGuard)
        ensures
            g.last is None,
    {
        DebounceGuard { last: None }
    }

    /// Decide a trigger observed at `now`: accept it and remember the
    /// timestamp, or discard it because the last accepted trigger is less
    /// than a window away. A timestamp older than the last accepted one is
    /// discarded as well.
    pub fn accept(&mut self, now: u64) -> (accepted: bool)
        ensures
            accepted == debounce_accepts(old(self).last, now),
            accepted ==> final(self).last == Some(now),
            !accepted ==> *final(self) == *old(self),
    {
        let ok = match self.last {
            None => true,
            Some(l) => now >= l && now - l >= DEBOUNCE_WINDOW_MS,
        };
        if ok {
            self.last = Some(now);
        }
        ok
    }
}

/// Two triggers within one debounce window collapse to exactly one accepted
/// event, and a later trigger a full window after the first opens a new one:
/// starting from a fresh guard, the trigger at `t0` is accepted, a second at
/// `t1` less than a window later is discarded, and a third at `t2` at least a
/// window after `t0` is accepted again.
pub proof fn lemma_debounce_window(t0: u64, t1: u64, t2: u64)
    requires
        t1 < t0 + DEBOUNCE_WINDOW_MS,
        t0 + DEBOUNCE_WINDOW_MS <= t2,
    ensures
        debounce_accepts(None, t0),
        !debounce_accepts(Some(t0), t1),
        debounce_accepts(Some(t0), t2),
{
}

} // verus!
