//! The per-(peer, dimension) request tracker: busy/idle bookkeeping, the
//! time of the last request, and the consecutive-failure count that scales
//! the next request's timeout.

use vstd::prelude::*;

verus! {

/// Tracks the lifecycle of requests for one (peer, dimension) key.
#[derive(Clone, Copy, Debug, PartialEq, Eq, Structural)]
pub struct RequestTracker {
    /// True while a request for this key is outstanding.
    pub in_flight_request: bool,
    /// When the last request was started, in milliseconds, if any.
    pub last_request_time_ms: Option<u64>,
    /// The number of consecutive failed requests, reset by a success.
    pub num_consecutive_failures: u32,
    /// The base timeout of a request for this key, before failure scaling.
    pub base_request_timeout_ms: u64,
}

impl RequestTracker {
    /// A fresh tracker as constructed: idle, never used, no failures.
    pub open spec fn new_spec(base_request_timeout_ms: u64) -> RequestTracker {
        RequestTracker {
            in_flight_request: false,
            last_request_time_ms: None,
            num_consecutive_failures: 0,
            base_request_timeout_ms,
        }
    }

    /// The tracker after a request was started at `now_ms`.
    pub open spec fn started_spec(self, now_ms: u64) -> RequestTracker {
        RequestTracker {
            in_flight_request: true,
            last_request_time_ms: Some(now_ms),
            ..self
        }
    }

    /// The tracker after the outstanding request completed.
    pub open spec fn completed_spec(self) -> RequestTracker {
        RequestTracker { in_flight_request: false, ..self }
    }

    /// The tracker after a successful response was recorded.
    pub open spec fn success_spec(self) -> RequestTracker {
        RequestTracker { num_consecutive_failures: 0, ..self }
    }

    /// The tracker after a failed response was recorded: the failure count
    /// rises by one, saturating at its maximum.
    pub open spec fn failure_spec(self) -> RequestTracker {
        RequestTracker {
            num_consecutive_failures: if self.num_consecutive_failures < u32::MAX {
                (self.num_consecutive_failures + 1) as u32
            } else {
                u32::MAX
            },
            ..self
        }
    }

    /// The timeout for the next request: the base timeout scaled by one more
    /// than the consecutive-failure count, saturating at the maximum.
    pub open spec fn timeout_for_next_request_spec(self) -> u64 {
        if self.base_request_timeout_ms * (self.num_consecutive_failures + 1) <= u64::MAX {
            (self.base_request_timeout_ms * (self.num_consecutive_failures + 1)) as u64
        } else {
            u64::MAX
        }
    }

    /// Creates an idle tracker with the given base timeout.
    pub fn new(base_request_timeout_ms: u64) -> (tracker: RequestTracker)
        ensures
            tracker == RequestTracker::new_spec(base_request_timeout_ms),
    {
        RequestTracker {
            in_flight_request: false,
            last_request_time_ms: None,
            num_consecutive_failures: 0,
            base_request_timeout_ms,
        }
    }

    /// Marks a request as started at `now_ms`. The orchestrator calls this
    /// synchronously, before any deferred work, so that a key is observed
    /// busy from the moment its refresh is accepted.
    pub fn request_started(&mut self, now_ms: u64)
        ensures
            *final(self) == old(self).started_spec(now_ms),
    {
        self.in_flight_request = true;
        self.last_request_time_ms = Some(now_ms);
    }

    /// Marks the outstanding request as complete. Idempotent in effect.
    pub fn request_completed(&mut self)
        ensures
            *final(self) == old(self).completed_spec(),
    {
        self.in_flight_request = false;
    }

    /// Resets the consecutive-failure count after a successful response.
    pub fn record_success(&mut self)
        ensures
            *final(self) == old(self).success_spec(),
    {
        self.num_consecutive_failures = 0;
    }

    /// Raises the consecutive-failure count after an error or timeout.
    pub fn record_failure(&mut self)
        ensures
            *final(self) == old(self).failure_spec(),
    {
        if self.num_consecutive_failures < u32::MAX {
            self.num_consecutive_failures = self.num_consecutive_failures + 1;
        }
    }

    /// Derives the timeout for the next request from the failure count.
    pub fn timeout_for_next_request(&self) -> (timeout_ms: u64)
        ensures
            timeout_ms == self.timeout_for_next_request_spec(),
    {
        let scale = (self.num_consecutive_failures as u64) + 1;
        match self.base_request_timeout_ms.checked_mul(scale) {
            Some(timeout_ms) => timeout_ms,
            None => u64::MAX,
        }
    }
}

} // verus!
