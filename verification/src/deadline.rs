//! A deadline over a monotonic millisecond clock.

use vstd::prelude::*;

verus! {

/// The moment an operation began and the time it was given, both in
/// milliseconds of one monotonic clock.
#[derive(Clone, Copy, Debug)]
pub struct Deadline {
    pub started_ms: u64,
    pub duration_ms: u64,
}

impl Deadline {
    /// The instant at which the deadline falls.
    pub open spec fn due(&self) -> int {
        self.started_ms + self.duration_ms
    }

    /// Whether the deadline has passed at `now_ms`.
    pub open spec fn spec_expired(&self, now_ms: u64) -> bool {
        now_ms >= self.due()
    }

    /// The time left at `now_ms`, never below zero.
    pub open spec fn spec_remaining(&self, now_ms: u64) -> int {
        if now_ms >= self.due() {
            0
        } else {
            self.due() - now_ms
        }
    }

    /// Starts the clock at `now_ms` for an operation given `duration_ms`.
    pub fn starting_at(now_ms: u64, duration_ms: u64) -> (d: Deadline)
        ensures
            d.started_ms == now_ms,
            d.duration_ms == duration_ms,
    {
        Deadline { started_ms: now_ms, duration_ms }
    }

    /// True once `now_ms` has reached the start plus the duration.
    pub fn expired(&self, now_ms: u64) -> (r: bool)
        ensures
            r == self.spec_expired(now_ms),
    {
        now_ms >= self.started_ms && now_ms - self.started_ms >= self.duration_ms
    }

    /// The time left before the deadline, saturating at zero and at the
    /// largest representable duration.
    pub fn remaining(&self, now_ms: u64) -> (r: u64)
        ensures
            self.spec_remaining(now_ms) <= u64::MAX ==> r == self.spec_remaining(now_ms),
            self.spec_remaining(now_ms) > u64::MAX ==> r == u64::MAX,
    {
        if now_ms >= self.started_ms {
            let elapsed: u64 = now_ms - self.started_ms;
            if elapsed >= self.duration_ms {
                0
            } else {
                self.duration_ms - elapsed
            }
        } else {
            let ahead: u64 = self.started_ms - now_ms;
            self.duration_ms.saturating_add(ahead)
        }
    }
}

} // verus!
