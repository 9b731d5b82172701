//! The latency dimension: a monotonic ping counter and a bounded window of
//! recorded round-trip times, averaged on demand.

use vstd::prelude::*;

use crate::config::PeerMonitoringServiceConfig;
use crate::request::LatencyPingRequest;
use crate::request_tracker::RequestTracker;
use crate::response::LatencyPingResponse;

verus! {

/// The sum of a sequence of samples.
pub open spec fn sum_of(samples: Seq<u64>) -> int
    decreases samples.len(),
{
    if samples.len() == 0 {
        0
    } else {
        sum_of(samples.drop_last()) + samples.last()
    }
}

/// A window of samples extended by one, keeping at most `max` entries by
/// dropping the oldest.
pub open spec fn push_sample_spec(samples: Seq<u64>, sample: u64, max: u64) -> Seq<u64> {
    if samples.len() + 1 > max {
        samples.push(sample).drop_first()
    } else {
        samples.push(sample)
    }
}

/// The accumulated latency knowledge for one peer.
#[derive(Clone, Debug, PartialEq, Eq)]
pub struct LatencyInfoState {
    /// How many of the most recent samples are retained.
    pub max_num_latency_pings_to_retain: u64,
    /// The monotonically increasing counter embedded in each ping.
    pub latency_ping_counter: u64,
    /// The most recent round-trip times, oldest first, in microseconds.
    pub recorded_latency_ping_durations_usecs: Vec<u64>,
    /// The request tracker of this dimension.
    pub request_tracker: RequestTracker,
}

impl LatencyInfoState {
    /// The sample window never exceeds its configured bound.
    pub open spec fn wf(self) -> bool {
        self.recorded_latency_ping_durations_usecs@.len()
            <= self.max_num_latency_pings_to_retain
    }

    /// Creates the initial latency state from the configuration.
    pub fn new(config: &PeerMonitoringServiceConfig) -> (state: LatencyInfoState)
        ensures
            state.max_num_latency_pings_to_retain == config.max_num_latency_pings_to_retain,
            state.latency_ping_counter == 0,
            state.recorded_latency_ping_durations_usecs@ == Seq::<u64>::empty(),
            state.request_tracker == RequestTracker::new_spec(config.latency_ping_timeout_ms),
            state.wf(),
    {
        let state = LatencyInfoState {
            max_num_latency_pings_to_retain: config.max_num_latency_pings_to_retain,
            latency_ping_counter: 0,
            recorded_latency_ping_durations_usecs: Vec::new(),
            request_tracker: RequestTracker::new(config.latency_ping_timeout_ms),
        };
        assert(state.recorded_latency_ping_durations_usecs@ =~= Seq::<u64>::empty());
        state
    }

    /// Builds the next latency ping request: the counter rises by one
    /// (saturating at its maximum) and is embedded in the request, so the
    /// response can be matched against it.
    pub fn create_latency_ping_request(&mut self) -> (request: LatencyPingRequest)
        ensures
            final(self).latency_ping_counter == if old(self).latency_ping_counter < u64::MAX {
                (old(self).latency_ping_counter + 1) as u64
            } else {
                u64::MAX
            },
            request.ping_counter == final(self).latency_ping_counter,
            final(self).recorded_latency_ping_durations_usecs
                == old(self).recorded_latency_ping_durations_usecs,
            final(self).request_tracker == old(self).request_tracker,
            final(self).max_num_latency_pings_to_retain == old(
                self,
            ).max_num_latency_pings_to_retain,
    {
        if self.latency_ping_counter < u64::MAX {
            self.latency_ping_counter = self.latency_ping_counter + 1;
        }
        LatencyPingRequest { ping_counter: self.latency_ping_counter }
    }

    /// Routes a latency ping response into the state. A response whose
    /// counter does not echo the request's counter is an error: it is not
    /// merged into the samples, and the failure count rises instead.
    pub fn handle_latency_ping_response(
        &mut self,
        request_counter: u64,
        response: &LatencyPingResponse,
        latency_usecs: u64,
    ) -> (matched: bool)
        requires
            old(self).wf(),
        ensures
            final(self).wf(),
            matched == (response.ping_counter == request_counter),
            matched ==> final(self).recorded_latency_ping_durations_usecs@ == push_sample_spec(
                old(self).recorded_latency_ping_durations_usecs@,
                latency_usecs,
                old(self).max_num_latency_pings_to_retain,
            ),
            !matched ==> final(self).recorded_latency_ping_durations_usecs == old(
                self,
            ).recorded_latency_ping_durations_usecs,
            final(self).request_tracker == if matched {
                old(self).request_tracker.success_spec()
            } else {
                old(self).request_tracker.failure_spec()
            },
            final(self).latency_ping_counter == old(self).latency_ping_counter,
            final(self).max_num_latency_pings_to_retain == old(
                self,
            ).max_num_latency_pings_to_retain,
    {
        if response.ping_counter == request_counter {
            self.recorded_latency_ping_durations_usecs.push(latency_usecs);
            if self.recorded_latency_ping_durations_usecs.len() as u64
                > self.max_num_latency_pings_to_retain {
                let ghost pushed = self.recorded_latency_ping_durations_usecs@;
                self.recorded_latency_ping_durations_usecs.remove(0);
                assert(self.recorded_latency_ping_durations_usecs@ =~= pushed.drop_first());
            }
            self.request_tracker.record_success();
            true
        } else {
            self.request_tracker.record_failure();
            false
        }
    }

    /// Records an error for this dimension: the failure count rises and the
    /// accumulated knowledge is untouched.
    pub fn handle_request_failure(&mut self)
        ensures
            *final(self) == (LatencyInfoState {
                request_tracker: old(self).request_tracker.failure_spec(),
                ..*old(self)
            }),
    {
        self.request_tracker.record_failure();
    }

    /// The average of the recorded round-trip times, in microseconds, or
    /// nothing when no ping has been recorded yet.
    pub fn get_average_latency_ping_usecs(&self) -> (average: Option<u64>)
        ensures
            average is Some <==> self.recorded_latency_ping_durations_usecs@.len() > 0,
            average is Some ==> average->Some_0 == sum_of(
                self.recorded_latency_ping_durations_usecs@,
            ) / (self.recorded_latency_ping_durations_usecs@.len() as int),
    {
        let samples = &self.recorded_latency_ping_durations_usecs;
        if samples.len() == 0 {
            return None;
        }
        let mut total: u128 = 0;
        let mut index: usize = 0;
        assert(samples@.take(0) =~= Seq::<u64>::empty());
        while index < samples.len()
            invariant
                index <= samples@.len(),
                total == sum_of(samples@.take(index as int)),
                total <= (index as int) * (u64::MAX as int),
            decreases samples@.len() - index,
        {
            proof {
                assert(samples@.take(index as int + 1).drop_last() =~= samples@.take(
                    index as int,
                ));
                assert(samples@.take(index as int + 1).last() == samples@[index as int]);
            }
            total = total + (samples[index] as u128);
            index = index + 1;
        }
        assert(samples@.take(samples@.len() as int) =~= samples@);
        let count = samples.len() as u128;
        let average = total / count;
        proof {
            vstd::arithmetic::div_mod::lemma_div_is_ordered(
                total as int,
                (samples@.len() as int) * (u64::MAX as int),
                samples@.len() as int,
            );
            vstd::arithmetic::div_mod::lemma_div_multiples_vanish(
                u64::MAX as int,
                samples@.len() as int,
            );
        }
        Some(average as u64)
    }

    /// The timeout for this dimension's next request.
    pub fn get_request_timeout_ms(&self) -> (timeout_ms: u64)
        ensures
            timeout_ms == self.request_tracker.timeout_for_next_request_spec(),
    {
        self.request_tracker.timeout_for_next_request()
    }

    /// A deep copy with the same contents.
    pub fn duplicate(&self) -> (copy: LatencyInfoState)
        ensures
            copy.max_num_latency_pings_to_retain == self.max_num_latency_pings_to_retain,
            copy.latency_ping_counter == self.latency_ping_counter,
            copy.recorded_latency_ping_durations_usecs@
                == self.recorded_latency_ping_durations_usecs@,
            copy.request_tracker == self.request_tracker,
    {
        let mut samples: Vec<u64> = Vec::new();
        let mut index: usize = 0;
        assert(samples@ =~= self.recorded_latency_ping_durations_usecs@.take(0));
        while index < self.recorded_latency_ping_durations_usecs.len()
            invariant
                index <= self.recorded_latency_ping_durations_usecs@.len(),
                samples@ == self.recorded_latency_ping_durations_usecs@.take(index as int),
            decreases self.recorded_latency_ping_durations_usecs@.len() - index,
        {
            samples.push(self.recorded_latency_ping_durations_usecs[index]);
            assert(samples@ =~= self.recorded_latency_ping_durations_usecs@.take(
                index as int + 1,
            ));
            index = index + 1;
        }
        assert(samples@ =~= self.recorded_latency_ping_durations_usecs@);
        LatencyInfoState {
            max_num_latency_pings_to_retain: self.max_num_latency_pings_to_retain,
            latency_ping_counter: self.latency_ping_counter,
            recorded_latency_ping_durations_usecs: samples,
            request_tracker: self.request_tracker,
        }
    }
}

} // verus!
