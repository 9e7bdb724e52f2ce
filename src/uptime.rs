//! Uptime: the instant the process started, and whole seconds since then.
use vstd::prelude::*;

verus! {

/// Nanoseconds in one second.
pub const NANOS_PER_SECOND: u64 = 1_000_000_000;

/// Whole seconds from `start` to `now`, both in nanoseconds on one monotonic
/// clock; a `now` before `start` counts as no time.
pub open spec fn elapsed(start: u64, now: u64) -> nat {
    if now >= start {
        ((now - start) as nat) / (NANOS_PER_SECOND as nat)
    } else {
        0
    }
}

/// The start instant of the process, read once.
pub struct UptimeTracker {
    pub started: u64,
}

impl UptimeTracker {
    /// A tracker started at `now` (nanoseconds on a monotonic clock).
    pub fn new(now: u64) -> (t: UptimeTracker)
        ensures
            t.started == now,
    {
        UptimeTracker { started: now }
    }

    /// Whole seconds from the start to `now`, rounded down.
    pub fn elapsed_seconds(&self, now: u64) -> (r: u64)
        ensures
            r == elapsed(self.started, now),
    {
        if now >= self.started {
            (now - self.started) / NANOS_PER_SECOND
        } else {
            0
        }
    }
}

/// Uptime never decreases: a later reading of the clock gives at least as
/// many elapsed seconds.
pub proof fn law_uptime_monotonic(start: u64, now1: u64, now2: u64)
    requires
        now1 <= now2,
    ensures
        elapsed(start, now1) <= elapsed(start, now2),
{
    if now1 >= start {
        let a = (now1 - start) as nat;
        let b = (now2 - start) as nat;
        vstd::arithmetic::div_mod::lemma_div_is_ordered(a as int, b as int, NANOS_PER_SECOND as int);
    }
}

} // verus!
