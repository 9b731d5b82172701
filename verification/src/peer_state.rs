//! The per-peer state container and the request-lifecycle orchestrator:
//! one dimension state per registry key, a synchronous refresh prologue
//! that guarantees at most one outstanding request per (peer, dimension),
//! and the completion path that validates and routes responses.

use vstd::prelude::*;

use crate::codec;
use crate::config::PeerMonitoringServiceConfig;
use crate::error::Error;
use crate::error::TransportError;
use crate::key_value::request_for_key;
use crate::key_value::response_accepted;
use crate::key_value::PeerStateKey;
use crate::key_value::PeerStateValue;
use crate::latency_info::push_sample_spec;
use crate::latency_info::sum_of;
use crate::latency_info::LatencyInfoState;
use crate::metadata::PeerMonitoringMetadata;
use crate::network_info::NetworkInfoState;
use crate::node_info::NodeInfoState;
use crate::request::MonitoringServiceRequest;
use crate::request_tracker::RequestTracker;
use crate::response::sanity_check_response_size;
use crate::response::PeerMonitoringServiceResponse;

verus! {

/// Everything the caller needs to dispatch a prepared request: the request
/// itself, its timeout, and the jitter to wait before sending.
#[derive(Clone, Copy, Debug, PartialEq, Eq, Structural)]
pub struct PreparedRequest {
    /// The outbound request to send.
    pub request: MonitoringServiceRequest,
    /// The timeout the transport must honor, in milliseconds.
    pub request_timeout_ms: u64,
    /// The random pre-send delay, in milliseconds.
    pub request_jitter_ms: u64,
}

/// How a completed refresh attempt was classified.
#[derive(Clone, Copy, Debug, PartialEq, Eq, Structural)]
pub enum RefreshOutcome {
    /// The response passed the size ceiling and was routed into the
    /// dimension state; a latency metric observation should be emitted.
    ResponseProcessed,
    /// The transport reported an error; no metric is emitted.
    TransportFailure,
    /// The serialized response exceeded the size ceiling and was rejected
    /// before touching any knowledge; no metric is emitted.
    ResponseTooLarge,
}

impl RefreshOutcome {
    /// Whether a latency metric observation should be emitted for this
    /// outcome: only a response that was actually processed is measured.
    pub fn emits_latency_metric(&self) -> (emits: bool)
        ensures
            emits == (*self is ResponseProcessed),
    {
        match self {
            RefreshOutcome::ResponseProcessed => true,
            _ => false,
        }
    }
}

/// Relies on rand::random_range over `0..max_request_jitter_ms`: a draw
/// from the half-open range, which requires the range to be non-empty.
#[verifier::external_body]
fn sample_request_jitter_ms(max_request_jitter_ms: u64) -> (jitter_ms: u64)
    requires
        max_request_jitter_ms > 0,
    ensures
        jitter_ms < max_request_jitter_ms,
{
    rand::random_range(0..max_request_jitter_ms)
}

/// A random pre-send delay in `[0, max_request_jitter_ms)`, or zero when no
/// jitter is configured.
pub fn get_request_jitter_ms(max_request_jitter_ms: u64) -> (jitter_ms: u64)
    ensures
        max_request_jitter_ms == 0 ==> jitter_ms == 0,
        max_request_jitter_ms > 0 ==> jitter_ms < max_request_jitter_ms,
{
    if max_request_jitter_ms == 0 {
        0
    } else {
        sample_request_jitter_ms(max_request_jitter_ms)
    }
}

/// The state entries for one connected peer: exactly one dimension state
/// per registry key, in the registry order.
#[derive(Clone, Debug, PartialEq, Eq)]
pub struct PeerState {
    pub state_entries: Vec<PeerStateValue>,
}

impl PeerState {
    /// The container invariant: one entry per registry key, in the registry
    /// order, each entry well formed.
    pub open spec fn wf(self) -> bool {
        &&& self.state_entries@.len() == PeerStateKey::all_keys_spec().len()
        &&& forall|k: int|
            0 <= k < self.state_entries@.len() ==> (#[trigger] self.state_entries@[k]).key_spec()
                == PeerStateKey::all_keys_spec()[k]
        &&& forall|k: int|
            0 <= k < self.state_entries@.len() ==> (#[trigger] self.state_entries@[k]).wf()
    }

    /// The dimension state stored for a key.
    pub open spec fn entry_spec(self, peer_state_key: PeerStateKey) -> PeerStateValue {
        self.state_entries@[peer_state_key.index_spec()]
    }

    /// The request tracker stored for a key.
    pub open spec fn tracker_of(self, peer_state_key: PeerStateKey) -> RequestTracker {
        self.entry_spec(peer_state_key).tracker_spec()
    }

    /// The dimension state for a key after a refresh prologue: its tracker
    /// marked started at `now_ms`, and its request built (which raises the
    /// latency counter on the latency dimension).
    pub open spec fn started_entry_spec(
        self,
        peer_state_key: PeerStateKey,
        now_ms: u64,
    ) -> PeerStateValue {
        self.entry_spec(peer_state_key).with_tracker(
            self.tracker_of(peer_state_key).started_spec(now_ms),
        ).bump_counter_spec()
    }

    /// Creates a state entry for each registry key, each seeded from the
    /// configuration, so every dimension can build requests before any
    /// response has ever completed. Every tracker starts idle, with no
    /// failures and no knowledge.
    pub fn new(config: &PeerMonitoringServiceConfig) -> (peer_state: PeerState)
        ensures
            peer_state.wf(),
            peer_state.state_entries@.len() == PeerStateKey::all_keys_spec().len(),
            forall|k: int|
                0 <= k < peer_state.state_entries@.len() ==> (
                #[trigger] peer_state.state_entries@[k]).tracker_spec()
                    == RequestTracker::new_spec(
                    PeerStateValue::base_timeout_of(*config, PeerStateKey::all_keys_spec()[k]),
                ),
            forall|k: int|
                0 <= k < peer_state.state_entries@.len() ==> (
                #[trigger] peer_state.state_entries@[k]).initial_knowledge(),
            peer_state.entry_spec(
                PeerStateKey::LatencyInfo,
            )->LatencyInfoState_0.max_num_latency_pings_to_retain
                == config.max_num_latency_pings_to_retain,
    {
        let all_keys = PeerStateKey::get_all_keys();
        let mut state_entries: Vec<PeerStateValue> = Vec::new();
        let mut index: usize = 0;
        while index < all_keys.len()
            invariant
                index <= all_keys@.len(),
                all_keys@ == PeerStateKey::all_keys_spec(),
                state_entries@.len() == index,
                forall|k: int|
                    0 <= k < index ==> (#[trigger] state_entries@[k]).key_spec()
                        == PeerStateKey::all_keys_spec()[k],
                forall|k: int| 0 <= k < index ==> (#[trigger] state_entries@[k]).wf(),
                forall|k: int|
                    0 <= k < index ==> (#[trigger] state_entries@[k]).tracker_spec()
                        == RequestTracker::new_spec(
                        PeerStateValue::base_timeout_of(*config, PeerStateKey::all_keys_spec()[k]),
                    ),
                forall|k: int|
                    0 <= k < index ==> (#[trigger] state_entries@[k]).initial_knowledge(),
                forall|k: int|
                    0 <= k < index && PeerStateKey::all_keys_spec()[k] is LatencyInfo ==> (
                    #[trigger] state_entries@[k])->LatencyInfoState_0.max_num_latency_pings_to_retain
                        == config.max_num_latency_pings_to_retain,
            decreases all_keys@.len() - index,
        {
            let peer_state_key = all_keys[index];
            state_entries.push(PeerStateValue::new(config, peer_state_key));
            index = index + 1;
        }
        PeerState { state_entries }
    }

    /// Returns a copy of the request tracker for the given peer state key,
    /// or a not-found error if the container was not built with that key (a
    /// construction bug that cannot happen for a well-formed state).
    pub fn get_request_tracker(&self, peer_state_key: &PeerStateKey) -> (result: Result<
        RequestTracker,
        Error,
    >)
        ensures
            self.wf() ==> result is Ok,
            result is Ok ==> result->Ok_0 == self.tracker_of(*peer_state_key),
            result is Err ==> result->Err_0 == Error::NotFound && !self.wf(),
    {
        let index = peer_state_key.index();
        if index < self.state_entries.len() {
            return Ok(self.state_entries[index].get_request_tracker());
        }
        Err(Error::NotFound)
    }

    /// The synchronous refresh prologue for one (peer, dimension) key. A
    /// busy key is refused without touching anything, so a second refresh
    /// before completion can never dispatch a request. An idle key is
    /// marked busy immediately, on the caller's thread, its next request is
    /// built, and the jitter and timeout for dispatch are computed; the
    /// caller then performs the deferred send and reports its outcome to
    /// `handle_refresh_result`.
    pub fn refresh_peer_state_key(
        &mut self,
        monitoring_service_config: &PeerMonitoringServiceConfig,
        peer_state_key: PeerStateKey,
        now_ms: u64,
    ) -> (result: Result<PreparedRequest, Error>)
        requires
            old(self).wf(),
        ensures
            final(self).wf(),
            old(self).tracker_of(peer_state_key).in_flight_request ==> result is Err
                && result->Err_0 == Error::RequestAlreadyInFlight && *final(self) == *old(self),
            !old(self).tracker_of(peer_state_key).in_flight_request ==> result is Ok && {
                &&& final(self).state_entries@.len() == old(self).state_entries@.len()
                &&& final(self).entry_spec(peer_state_key) == old(self).started_entry_spec(
                    peer_state_key,
                    now_ms,
                )
                &&& forall|k: int|
                    0 <= k < old(self).state_entries@.len() && k != peer_state_key.index_spec()
                        ==> final(self).state_entries@[k] == old(self).state_entries@[k]
                &&& final(self).tracker_of(peer_state_key).in_flight_request
                &&& final(self).tracker_of(peer_state_key).last_request_time_ms == Some(now_ms)
                &&& final(self).tracker_of(peer_state_key).num_consecutive_failures == old(self).tracker_of(peer_state_key).num_consecutive_failures
                &&& result->Ok_0.request == request_for_key(
                    peer_state_key,
                    final(self).entry_spec(peer_state_key).latency_counter_spec(),
                )
                &&& result->Ok_0.request_timeout_ms == old(self).tracker_of(
                    peer_state_key,
                ).timeout_for_next_request_spec()
                &&& (monitoring_service_config.max_request_jitter_ms == 0
                    ==> result->Ok_0.request_jitter_ms == 0)
                &&& (monitoring_service_config.max_request_jitter_ms > 0
                    ==> result->Ok_0.request_jitter_ms
                    < monitoring_service_config.max_request_jitter_ms)
            },
    {
        let index = peer_state_key.index();
        if self.state_entries[index].get_request_tracker().in_flight_request {
            return Err(Error::RequestAlreadyInFlight);
        }
        let entry = &mut self.state_entries[index];
        entry.start_request(now_ms);
        let request = entry.create_monitoring_service_request();
        let request_timeout_ms = entry.get_request_timeout_ms();
        let request_jitter_ms = get_request_jitter_ms(
            monitoring_service_config.max_request_jitter_ms,
        );
        Ok(PreparedRequest { request, request_timeout_ms, request_jitter_ms })
    }

    /// The completion path of one refresh attempt: the tracker is marked
    /// idle first, whatever the outcome, so no key is ever left permanently
    /// in flight. A transport error or an oversized response raises the
    /// failure count without touching any knowledge; otherwise the response
    /// is routed into the dimension state, which itself treats a mismatched
    /// response as an error.
    pub fn handle_refresh_result(
        &mut self,
        peer_state_key: PeerStateKey,
        max_num_response_bytes: u64,
        request: &MonitoringServiceRequest,
        result: Result<PeerMonitoringServiceResponse, TransportError>,
        request_duration_usecs: u64,
    ) -> (outcome: RefreshOutcome)
        requires
            old(self).wf(),
        ensures
            final(self).wf(),
            final(self).state_entries@.len() == old(self).state_entries@.len(),
            forall|k: int|
                0 <= k < old(self).state_entries@.len() && k != peer_state_key.index_spec()
                    ==> final(self).state_entries@[k] == old(self).state_entries@[k],
            !final(self).tracker_of(peer_state_key).in_flight_request,
            ({
                let pre = old(self).entry_spec(peer_state_key);
                let completed = pre.with_tracker(pre.tracker_spec().completed_spec());
                let rejected = completed.with_tracker(
                    completed.tracker_spec().failure_spec(),
                );
                match result {
                    Result::Err(_) => outcome == RefreshOutcome::TransportFailure && final(self).entry_spec(peer_state_key) == rejected,
                    Result::Ok(response) => if codec::senc_response(response@).len()
                        > max_num_response_bytes {
                        outcome == RefreshOutcome::ResponseTooLarge && final(self).entry_spec(
                            peer_state_key,
                        ) == rejected
                    } else {
                        &&& outcome == RefreshOutcome::ResponseProcessed
                        &&& !response_accepted(completed, *request, response) ==> final(self).entry_spec(peer_state_key) == rejected
                        &&& response_accepted(completed, *request, response) ==> {
                            let merged = final(self).entry_spec(peer_state_key);
                            &&& merged.tracker_spec() == completed.tracker_spec().success_spec()
                            &&& (pre is LatencyInfoState ==> merged is LatencyInfoState
                                && merged->LatencyInfoState_0.recorded_latency_ping_durations_usecs@
                                == push_sample_spec(
                                pre->LatencyInfoState_0.recorded_latency_ping_durations_usecs@,
                                request_duration_usecs,
                                pre->LatencyInfoState_0.max_num_latency_pings_to_retain,
                            )
                                && merged->LatencyInfoState_0.latency_ping_counter
                                == pre->LatencyInfoState_0.latency_ping_counter
                                && merged->LatencyInfoState_0.max_num_latency_pings_to_retain
                                == pre->LatencyInfoState_0.max_num_latency_pings_to_retain)
                            &&& (pre is NetworkInfoState ==> merged
                                == PeerStateValue::NetworkInfoState(
                                NetworkInfoState {
                                    latest_network_info_response: Some(
                                        response->NetworkInformation_0,
                                    ),
                                    request_tracker: completed.tracker_spec().success_spec(),
                                },
                            ))
                            &&& (pre is NodeInfoState ==> merged == PeerStateValue::NodeInfoState(
                                NodeInfoState {
                                    latest_node_info_response: Some(response->NodeInformation_0),
                                    request_tracker: completed.tracker_spec().success_spec(),
                                },
                            ))
                            &&& (pre is ProtocolVersionInfoState
                                ==> merged.tracker_spec().num_consecutive_failures == 0)
                        }
                    },
                }
            }),
    {
        let index = peer_state_key.index();
        let entry = &mut self.state_entries[index];
        entry.complete_request();
        match result {
            Err(_) => {
                entry.handle_monitoring_service_response_error();
                RefreshOutcome::TransportFailure
            },
            Ok(response) => {
                match sanity_check_response_size(max_num_response_bytes, &response) {
                    Err(_) => {
                        entry.handle_monitoring_service_response_error();
                        RefreshOutcome::ResponseTooLarge
                    },
                    Ok(()) => {
                        entry.handle_monitoring_service_response(
                            request,
                            response,
                            request_duration_usecs,
                        );
                        RefreshOutcome::ResponseProcessed
                    },
                }
            },
        }
    }

    /// Extracts the point-in-time monitoring metadata from the overall peer
    /// state: the average ping latency and the latest network and node
    /// information responses.
    pub fn extract_peer_monitoring_metadata(&self) -> (result: Result<
        PeerMonitoringMetadata,
        Error,
    >)
        ensures
            self.wf() ==> result is Ok,
            result is Ok ==> ({
                let metadata = result->Ok_0;
                let latency = self.entry_spec(PeerStateKey::LatencyInfo)->LatencyInfoState_0;
                let network = self.entry_spec(PeerStateKey::NetworkInfo)->NetworkInfoState_0;
                let node = self.entry_spec(PeerStateKey::NodeInfo)->NodeInfoState_0;
                &&& (metadata.average_ping_latency_usecs is Some
                    <==> latency.recorded_latency_ping_durations_usecs@.len() > 0)
                &&& (metadata.average_ping_latency_usecs is Some
                    ==> metadata.average_ping_latency_usecs->Some_0 == sum_of(
                    latency.recorded_latency_ping_durations_usecs@,
                ) / (latency.recorded_latency_ping_durations_usecs@.len() as int))
                &&& (metadata.latest_network_info_response is Some
                    <==> network.latest_network_info_response is Some)
                &&& (metadata.latest_network_info_response is Some
                    ==> metadata.latest_network_info_response->Some_0@
                    == network.latest_network_info_response->Some_0@)
                &&& (metadata.latest_node_info_response is Some
                    <==> node.latest_node_info_response is Some)
                &&& (metadata.latest_node_info_response is Some
                    ==> metadata.latest_node_info_response->Some_0@
                    == node.latest_node_info_response->Some_0@)
            }),
            result is Err ==> result->Err_0 == Error::NotFound && !self.wf(),
    {
        let latency_info_state = match self.get_latency_info_state() {
            Ok(state) => state,
            Err(error) => {
                return Err(error);
            },
        };
        let network_info_state = match self.get_network_info_state() {
            Ok(state) => state,
            Err(error) => {
                return Err(error);
            },
        };
        let node_info_state = match self.get_node_info_state() {
            Ok(state) => state,
            Err(error) => {
                return Err(error);
            },
        };
        Ok(
            PeerMonitoringMetadata {
                average_ping_latency_usecs: latency_info_state.get_average_latency_ping_usecs(),
                latest_network_info_response: network_info_state.latest_network_info_response,
                latest_node_info_response: node_info_state.latest_node_info_response,
            },
        )
    }

    /// Returns a copy of the latency dimension's state.
    pub fn get_latency_info_state(&self) -> (result: Result<LatencyInfoState, Error>)
        ensures
            self.wf() ==> result is Ok,
            result is Ok ==> ({
                let state = self.entry_spec(PeerStateKey::LatencyInfo)->LatencyInfoState_0;
                &&& self.entry_spec(PeerStateKey::LatencyInfo) is LatencyInfoState
                &&& result->Ok_0.latency_ping_counter == state.latency_ping_counter
                &&& result->Ok_0.recorded_latency_ping_durations_usecs@
                    == state.recorded_latency_ping_durations_usecs@
                &&& result->Ok_0.request_tracker == state.request_tracker
                &&& result->Ok_0.max_num_latency_pings_to_retain
                    == state.max_num_latency_pings_to_retain
            }),
            result is Err ==> result->Err_0 == Error::NotFound && !self.wf(),
    {
        let index = PeerStateKey::LatencyInfo.index();
        if index < self.state_entries.len() {
            match &self.state_entries[index] {
                PeerStateValue::LatencyInfoState(state) => {
                    return Ok(state.duplicate());
                },
                _ => {
                    return Err(Error::NotFound);
                },
            }
        }
        Err(Error::NotFound)
    }

    /// Returns a copy of the network-information dimension's state.
    pub fn get_network_info_state(&self) -> (result: Result<NetworkInfoState, Error>)
        ensures
            self.wf() ==> result is Ok,
            result is Ok ==> ({
                let state = self.entry_spec(PeerStateKey::NetworkInfo)->NetworkInfoState_0;
                &&& self.entry_spec(PeerStateKey::NetworkInfo) is NetworkInfoState
                &&& (result->Ok_0.latest_network_info_response is Some
                    <==> state.latest_network_info_response is Some)
                &&& (result->Ok_0.latest_network_info_response is Some
                    ==> result->Ok_0.latest_network_info_response->Some_0@
                    == state.latest_network_info_response->Some_0@)
                &&& result->Ok_0.request_tracker == state.request_tracker
            }),
            result is Err ==> result->Err_0 == Error::NotFound && !self.wf(),
    {
        let index = PeerStateKey::NetworkInfo.index();
        if index < self.state_entries.len() {
            match &self.state_entries[index] {
                PeerStateValue::NetworkInfoState(state) => {
                    return Ok(state.duplicate());
                },
                _ => {
                    return Err(Error::NotFound);
                },
            }
        }
        Err(Error::NotFound)
    }

    /// Returns a copy of the node-information dimension's state.
    pub fn get_node_info_state(&self) -> (result: Result<NodeInfoState, Error>)
        ensures
            self.wf() ==> result is Ok,
            result is Ok ==> ({
                let state = self.entry_spec(PeerStateKey::NodeInfo)->NodeInfoState_0;
                &&& self.entry_spec(PeerStateKey::NodeInfo) is NodeInfoState
                &&& (result->Ok_0.latest_node_info_response is Some
                    <==> state.latest_node_info_response is Some)
                &&& (result->Ok_0.latest_node_info_response is Some
                    ==> result->Ok_0.latest_node_info_response->Some_0@
                    == state.latest_node_info_response->Some_0@)
                &&& result->Ok_0.request_tracker == state.request_tracker
            }),
            result is Err ==> result->Err_0 == Error::NotFound && !self.wf(),
    {
        let index = PeerStateKey::NodeInfo.index();
        if index < self.state_entries.len() {
            match &self.state_entries[index] {
                PeerStateValue::NodeInfoState(state) => {
                    return Ok(state.duplicate());
                },
                _ => {
                    return Err(Error::NotFound);
                },
            }
        }
        Err(Error::NotFound)
    }
}

/// At most one request per (peer, dimension) is ever in flight: after a
/// refresh prologue is accepted for a key, that key's tracker reports the
/// request as outstanding, and by the refusal clause of
/// `refresh_peer_state_key` every further refresh of the key is rejected,
/// with nothing dispatched and nothing changed, until the completion path
/// marks the tracker idle again.
pub proof fn lemma_at_most_one_in_flight(
    peer_state: PeerState,
    peer_state_key: PeerStateKey,
    now_ms: u64,
)
    ensures
        peer_state.started_entry_spec(
            peer_state_key,
            now_ms,
        ).tracker_spec().in_flight_request,
{
}

} // verus!
