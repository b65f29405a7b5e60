use vstd::prelude::*;

verus! {

/// Minimum time, in milliseconds, between two credential checks.
pub const COOLDOWN_MS: u64 = 5000;

/// Whether a request arriving at `now` falls inside the window opened by the
/// last credential check. A clock reading earlier than the stamp counts as
/// no time elapsed.
pub open spec fn within_cooldown(last: Option<u64>, now: u64) -> bool {
    match last {
        Some(t) => (now as int) - (t as int) < COOLDOWN_MS as int,
        None => false,
    }
}

/// The single shared rate-limit state: when the last credential check ran,
/// in milliseconds of a monotonic clock.
pub struct RateLimiting {
    pub last_request_time: Option<u64>,
}

impl Default for RateLimiting {
    fn default() -> (r: RateLimiting)
        ensures
            r.last_request_time is None,
    {
        RateLimiting { last_request_time: None }
    }
}

impl RateLimiting {
    /// Whether a request arriving at `now` may go on to the credential check.
    pub fn admits(&self, now: u64) -> (r: bool)
        ensures
            r == !within_cooldown(self.last_request_time, now),
    {
        match self.last_request_time {
            Some(t) => now >= t && now - t >= COOLDOWN_MS,
            None => true,
        }
    }

    /// Records that a credential check ran at `now`.
    pub fn stamp(&mut self, now: u64)
        ensures
            final(self).last_request_time == Some(now),
    {
        self.last_request_time = Some(now);
    }
}

} // verus!
