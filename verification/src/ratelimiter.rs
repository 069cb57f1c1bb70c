//! A fixed-window request quota.
//!
//! A [`Ratelimiter`] counts the requests admitted since the start of the
//! current window. [`Ratelimiter::try_admit`] is the only operation that
//! changes it; what it does for a given clock reading is fixed by the spec
//! functions [`Ratelimiter::verdict`] and [`Ratelimiter::after`].
//!
//! All instants are nanoseconds since the Unix epoch and all durations are
//! nanoseconds.

use vstd::prelude::*;
use crate::constants::{RATELIMIT_INTERVAL, RATELIMIT_REQUESTS};

verus! {

/// Nanoseconds in one second.
pub const NANOS_PER_SEC: u64 = 1_000_000_000;

/// How many requests a window admits, and how long a window lasts.
#[derive(Clone, Copy, Debug, PartialEq, Eq, Structural)]
pub struct QuotaPolicy {
    /// Length of a counting window, in nanoseconds.
    pub window: u64,
    /// Number of requests admitted per window.
    pub max_requests: u16,
}

/// The counting window: when it began and how much of it is used.
#[derive(Clone, Copy, Debug, PartialEq, Eq, Structural)]
pub struct Ratelimiter {
    /// Instant at which the current window began.
    pub time: u64,
    /// Requests admitted since `time`.
    pub requests: u16,
}

/// What the read-only status query reports about a window.
#[derive(Clone, Copy, Debug, PartialEq, Eq, Structural)]
pub struct QuotaStatus {
    /// Requests the policy admits per window.
    pub limit: u16,
    /// Requests admitted in the window so far.
    pub used: u16,
    /// Requests the window can still admit.
    pub remaining: u16,
    /// Nanoseconds until the window is over, zero once it is.
    pub resets_in: u64,
}

/// Outcome of one admission check.
#[derive(Clone, Copy, Debug, PartialEq, Eq, Structural)]
pub enum Admission {
    /// The request may go ahead; it has been charged to the window.
    Admitted,
    /// The window is used up; it rolls over after `retry_after` nanoseconds.
    Rejected { retry_after: u64 },
}

/// Why a request did not pass the quota.
#[derive(Clone, Copy, Debug, PartialEq, Eq, Structural)]
pub enum RatelimiterError {
    /// The window is used up. The caller may try again later.
    OverQuota,
    /// There is no quota to ask: the state that all callers share was never
    /// set up. Trying again does not help.
    State,
}

impl RatelimiterError {
    /// The HTTP status that tells a client of the error: 429, too many
    /// requests, for a used-up window, and 500, internal server error, for
    /// missing state.
    pub open spec fn http_status(self) -> u16 {
        match self {
            RatelimiterError::OverQuota => 429,
            RatelimiterError::State => 500,
        }
    }

    /// The HTTP status that tells a client of the error.
    pub fn status_code(&self) -> (code: u16)
        ensures
            code == self.http_status(),
    {
        match self {
            RatelimiterError::OverQuota => 429,
            RatelimiterError::State => 500,
        }
    }

    /// A caller who meets the error may try again later.
    pub fn is_retryable(&self) -> (b: bool)
        ensures
            b <==> *self == RatelimiterError::OverQuota,
    {
        match self {
            RatelimiterError::OverQuota => true,
            RatelimiterError::State => false,
        }
    }
}

impl Admission {
    /// The outcome as success or error, without the waiting time.
    pub open spec fn as_result(self) -> Result<(), RatelimiterError> {
        match self {
            Admission::Admitted => Ok(()),
            Admission::Rejected { .. } => Err(RatelimiterError::OverQuota),
        }
    }

    /// Turns the outcome into success or error, dropping the waiting time.
    pub fn into_result(self) -> (r: Result<(), RatelimiterError>)
        ensures
            r == self.as_result(),
    {
        match self {
            Admission::Admitted => Ok(()),
            Admission::Rejected { .. } => Err(RatelimiterError::OverQuota),
        }
    }

    /// Says whether the request was admitted.
    pub fn is_admitted(&self) -> (b: bool)
        ensures
            b <==> *self == Admission::Admitted,
    {
        match self {
            Admission::Admitted => true,
            Admission::Rejected { .. } => false,
        }
    }
}

impl QuotaPolicy {
    /// The policy of the upstream identity API: three hundred requests in
    /// ten minutes.
    pub fn standard() -> (policy: QuotaPolicy)
        ensures
            policy == (QuotaPolicy { window: 600_000_000_000, max_requests: 300 }),
            policy.wf(),
    {
        QuotaPolicy { window: RATELIMIT_INTERVAL, max_requests: RATELIMIT_REQUESTS }
    }

    /// A policy that admits at least one request per window. With a budget
    /// of zero the request that opens a window would already exceed it.
    pub open spec fn wf(self) -> bool {
        self.max_requests >= 1
    }
}

impl Ratelimiter {
    /// The window never holds more admitted requests than the policy allows.
    pub open spec fn wf(self, policy: QuotaPolicy) -> bool {
        self.requests <= policy.max_requests
    }

    /// Time that has passed in the window at instant `now`. A clock reading
    /// from before the window began counts as no time passed.
    pub open spec fn elapsed(self, now: u64) -> nat {
        if now >= self.time {
            (now - self.time) as nat
        } else {
            0
        }
    }

    /// The window is over at `now`: a full window length has passed.
    pub open spec fn expired(self, policy: QuotaPolicy, now: u64) -> bool {
        self.elapsed(now) >= policy.window
    }

    /// The whole budget of the window is spent.
    pub open spec fn exhausted(self, policy: QuotaPolicy) -> bool {
        self.requests >= policy.max_requests
    }

    /// Time from `now` until the window is over, zero once it is.
    pub open spec fn time_left(self, policy: QuotaPolicy, now: u64) -> nat {
        if self.expired(policy, now) {
            0
        } else {
            (policy.window - self.elapsed(now)) as nat
        }
    }

    /// A request arriving at `now` is admitted.
    pub open spec fn admits(self, policy: QuotaPolicy, now: u64) -> bool {
        self.expired(policy, now) || !self.exhausted(policy)
    }

    /// What a request arriving at `now` is told.
    pub open spec fn verdict(self, policy: QuotaPolicy, now: u64) -> Admission {
        if self.admits(policy, now) {
            Admission::Admitted
        } else {
            Admission::Rejected { retry_after: self.time_left(policy, now) as u64 }
        }
    }

    /// The window after a request arriving at `now` has been served. A
    /// request that finds the window over opens a new one and is its first
    /// request; one that is admitted within the window is added to it; one
    /// that is rejected leaves the window as it was.
    pub open spec fn after(self, policy: QuotaPolicy, now: u64) -> Ratelimiter {
        if self.expired(policy, now) {
            Ratelimiter { time: now, requests: 1 }
        } else if !self.exhausted(policy) {
            Ratelimiter { time: self.time, requests: (self.requests + 1) as u16 }
        } else {
            self
        }
    }

    /// What the status query reports at `now`.
    pub open spec fn status_at(self, policy: QuotaPolicy, now: u64) -> QuotaStatus {
        QuotaStatus {
            limit: policy.max_requests,
            used: self.requests,
            remaining: if self.exhausted(policy) {
                0
            } else {
                (policy.max_requests - self.requests) as u16
            },
            resets_in: self.time_left(policy, now) as u64,
        }
    }

    /// An unused window that begins at `now`.
    pub fn new(now: u64) -> (w: Ratelimiter)
        ensures
            w == (Ratelimiter { time: now, requests: 0 }),
    {
        Ratelimiter { time: now, requests: 0 }
    }

    /// Serves one request arriving at `now`: admits and charges it, or
    /// rejects it and says how long the window still runs.
    pub fn try_admit(&mut self, policy: &QuotaPolicy, now: u64) -> (res: Admission)
        ensures
            res == old(self).verdict(*policy, now),
            *final(self) == old(self).after(*policy, now),
            res matches Admission::Rejected { retry_after } ==> 0 < retry_after <= policy.window,
            policy.wf() && old(self).wf(*policy) ==> final(self).wf(*policy),
    {
        let elapsed: u64 = if now >= self.time {
            now - self.time
        } else {
            0
        };
        if elapsed >= policy.window {
            self.time = now;
            self.requests = 1;
            Admission::Admitted
        } else if self.requests < policy.max_requests {
            self.requests = self.requests + 1;
            Admission::Admitted
        } else {
            Admission::Rejected { retry_after: policy.window - elapsed }
        }
    }

    /// Reports how much of the window is used and when it is over, without
    /// touching the window.
    pub fn status(&self, policy: &QuotaPolicy, now: u64) -> (s: QuotaStatus)
        ensures
            s == self.status_at(*policy, now),
            s.resets_in <= policy.window,
            self.wf(*policy) ==> s.used + s.remaining == s.limit,
    {
        let elapsed: u64 = if now >= self.time {
            now - self.time
        } else {
            0
        };
        QuotaStatus {
            limit: policy.max_requests,
            used: self.requests,
            remaining: if self.requests >= policy.max_requests {
                0
            } else {
                policy.max_requests - self.requests
            },
            resets_in: if elapsed >= policy.window {
                0
            } else {
                policy.window - elapsed
            },
        }
    }
}

impl QuotaStatus {
    /// The window the status was taken of is over: the next request opens a
    /// new one.
    pub open spec fn is_refreshed(self) -> bool {
        self.resets_in == 0
    }

    /// Says whether the window the status was taken of is over.
    pub fn refreshed(&self) -> (b: bool)
        ensures
            b == self.is_refreshed(),
    {
        self.resets_in == 0
    }
}

/// The least number of whole seconds that covers `nanos` nanoseconds.
pub open spec fn seconds_covering(nanos: nat) -> nat {
    if nanos % (NANOS_PER_SEC as nat) == 0 {
        nanos / (NANOS_PER_SEC as nat)
    } else {
        nanos / (NANOS_PER_SEC as nat) + 1
    }
}

/// Rounds a duration in nanoseconds up to whole seconds, the unit in which
/// waiting times are shown to people.
pub fn whole_seconds(nanos: u64) -> (secs: u64)
    ensures
        secs == seconds_covering(nanos as nat),
        secs * NANOS_PER_SEC >= nanos,
        secs > 0 ==> (secs - 1) * NANOS_PER_SEC < nanos,
{
    let q: u64 = nanos / NANOS_PER_SEC;
    let r: u64 = nanos % NANOS_PER_SEC;
    assert(nanos == q * NANOS_PER_SEC + r) by (nonlinear_arith)
        requires
            q == nanos / NANOS_PER_SEC,
            r == nanos % NANOS_PER_SEC,
            NANOS_PER_SEC == 1_000_000_000,
    ;
    if r == 0 {
        q
    } else {
        q + 1
    }
}

} // verus!
