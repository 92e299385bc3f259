//! Decisions of a loop that retries a connection with exponential backoff.

use vstd::prelude::*;

verus! {

/// Attempts made before giving up on the database.
pub const DB_CONNECT_ATTEMPTS: u32 = 5;

/// Seconds to wait after the first failed attempt.
pub const DB_FIRST_WAIT_SECS: u64 = 1;

/// What to do after a failed attempt.
#[derive(Clone, Copy, Debug, PartialEq, Eq, Structural)]
pub enum RetryStep {
    /// Wait this many seconds, then try again.
    Wait(u64),
    /// No attempt is left: report the last failure.
    GiveUp,
}

/// Twice `w`, or the largest value when that does not fit.
pub open spec fn doubled(w: u64) -> u64 {
    if w <= u64::MAX / 2 {
        (2 * w) as u64
    } else {
        u64::MAX
    }
}

/// The state of a retry loop: attempts left and the next wait.
#[derive(Clone, Copy, Debug, PartialEq, Eq, Structural)]
pub struct Backoff {
    pub retries_left: u32,
    pub wait_secs: u64,
}

impl Backoff {
    /// A loop that may make `attempts` attempts, first waiting `first_wait_secs`.
    pub fn new(attempts: u32, first_wait_secs: u64) -> (r: Backoff)
        ensures
            r.retries_left == attempts,
            r.wait_secs == first_wait_secs,
    {
        Backoff { retries_left: attempts, wait_secs: first_wait_secs }
    }

    /// Whether another attempt may be made.
    pub fn may_try(&self) -> (r: bool)
        ensures
            r == (self.retries_left > 0),
    {
        self.retries_left > 0
    }

    /// An attempt failed: give up when it was the last one, otherwise wait
    /// and double the next wait.
    pub fn on_failure(&mut self) -> (r: RetryStep)
        ensures
            old(self).retries_left <= 1 ==> r == RetryStep::GiveUp && final(self).retries_left == 0
                && final(self).wait_secs == old(self).wait_secs,
            old(self).retries_left > 1 ==> r == RetryStep::Wait(old(self).wait_secs)
                && final(self).retries_left == old(self).retries_left - 1
                && final(self).wait_secs == doubled(old(self).wait_secs),
    {
        if self.retries_left <= 1 {
            self.retries_left = 0;
            return RetryStep::GiveUp;
        }
        self.retries_left = self.retries_left - 1;
        let wait = self.wait_secs;
        self.wait_secs = if wait <= u64::MAX / 2 {
            2 * wait
        } else {
            u64::MAX
        };
        RetryStep::Wait(wait)
    }
}

} // verus!
