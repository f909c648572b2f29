//! The lighting universe, and the reconnection policy for the lighting
//! connection: retry forever, with a delay that doubles after each failure
//! up to a cap.
use vstd::prelude::*;

verus! {

/// Number of channels in a lighting universe; channels are numbered from 1.
pub const DMX_CHANNELS: usize = 512;

/// Delay before the first retry after a failure.
pub const RETRY_MIN_MS: u64 = 50;

/// Longest delay between two attempts.
pub const RETRY_MAX_MS: u64 = 5000;

pub open spec fn doubled_delay(delay: int) -> int {
    if 2 * delay > RETRY_MAX_MS {
        RETRY_MAX_MS as int
    } else {
        2 * delay
    }
}

/// When the next attempt to open the lighting connection is due.
#[derive(Clone, Copy, Debug, PartialEq, Eq, Structural)]
pub struct Reconnect {
    /// Delay to wait after the next failure.
    pub delay_ms: u64,
    /// Earliest time, in milliseconds, of the next attempt.
    pub next_attempt_ms: u64,
}

impl Reconnect {
    pub open spec fn wf(&self) -> bool {
        RETRY_MIN_MS <= self.delay_ms <= RETRY_MAX_MS
    }

    /// A policy that allows an attempt at once.
    pub fn new() -> (r: Reconnect)
        ensures
            r.wf(),
            r.delay_ms == RETRY_MIN_MS,
            r.next_attempt_ms == 0,
    {
        Reconnect { delay_ms: RETRY_MIN_MS, next_attempt_ms: 0 }
    }

    /// Whether an attempt may be made at `now_ms`.
    pub fn due(&self, now_ms: u64) -> (r: bool)
        ensures
            r == (now_ms >= self.next_attempt_ms),
    {
        now_ms >= self.next_attempt_ms
    }

    /// An attempt at `now_ms` failed: wait the current delay, and double
    /// it (up to the cap) for the next failure.
    pub fn failed(&mut self, now_ms: u64)
        requires
            old(self).wf(),
        ensures
            final(self).wf(),
            final(self).next_attempt_ms == (if now_ms as int + old(self).delay_ms
                > u64::MAX {
                u64::MAX as int
            } else {
                now_ms as int + old(self).delay_ms
            }),
            final(self).delay_ms == doubled_delay(old(self).delay_ms as int),
            final(self).next_attempt_ms > now_ms || now_ms == u64::MAX,
    {
        self.next_attempt_ms = now_ms.saturating_add(self.delay_ms);
        self.delay_ms = if self.delay_ms > RETRY_MAX_MS / 2 {
            RETRY_MAX_MS
        } else {
            2 * self.delay_ms
        };
    }

    /// The connection is up: the next failure starts again from the
    /// shortest delay.
    pub fn succeeded(&mut self)
        requires
            old(self).wf(),
        ensures
            final(self).wf(),
            final(self).delay_ms == RETRY_MIN_MS,
            final(self).next_attempt_ms == 0,
    {
        self.delay_ms = RETRY_MIN_MS;
        self.next_attempt_ms = 0;
    }
}

} // verus!
