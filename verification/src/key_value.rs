//! The monitoring dimension registry and the per-dimension state value: a
//! closed set of keys, and a tagged union with one state per dimension that
//! offers a uniform capability set to the orchestrator.

use vstd::prelude::*;

use crate::config::PeerMonitoringServiceConfig;
use crate::latency_info::push_sample_spec;
use crate::latency_info::LatencyInfoState;
use crate::network_info::NetworkInfoState;
use crate::node_info::NodeInfoState;
use crate::protocol_version_info::ProtocolVersionInfoState;
use crate::request::LatencyPingRequest;
use crate::request::MonitoringServiceRequest;
use crate::request_tracker::RequestTracker;
use crate::response::PeerMonitoringServiceResponse;

verus! {

/// The closed set of monitoring dimensions.
#[derive(Clone, Copy, Debug, Hash, PartialEq, Eq, Structural)]
pub enum PeerStateKey {
    LatencyInfo,
    NetworkInfo,
    NodeInfo,
    ProtocolVersion,
}

impl PeerStateKey {
    /// The complete, stable registry of dimensions, in a fixed order.
    pub open spec fn all_keys_spec() -> Seq<PeerStateKey> {
        seq![
            PeerStateKey::LatencyInfo,
            PeerStateKey::NetworkInfo,
            PeerStateKey::NodeInfo,
            PeerStateKey::ProtocolVersion,
        ]
    }

    /// The position of each dimension in the registry order.
    pub open spec fn index_spec(self) -> int {
        match self {
            PeerStateKey::LatencyInfo => 0,
            PeerStateKey::NetworkInfo => 1,
            PeerStateKey::NodeInfo => 2,
            PeerStateKey::ProtocolVersion => 3,
        }
    }

    /// Returns every dimension, in the registry order.
    pub fn get_all_keys() -> (keys: Vec<PeerStateKey>)
        ensures
            keys@ == PeerStateKey::all_keys_spec(),
    {
        let mut keys: Vec<PeerStateKey> = Vec::new();
        keys.push(PeerStateKey::LatencyInfo);
        keys.push(PeerStateKey::NetworkInfo);
        keys.push(PeerStateKey::NodeInfo);
        keys.push(PeerStateKey::ProtocolVersion);
        assert(keys@ =~= PeerStateKey::all_keys_spec());
        keys
    }

    /// Returns the position of this dimension in the registry order.
    pub fn index(self) -> (position: usize)
        ensures
            position == self.index_spec(),
            PeerStateKey::all_keys_spec()[position as int] == self,
    {
        match self {
            PeerStateKey::LatencyInfo => 0,
            PeerStateKey::NetworkInfo => 1,
            PeerStateKey::NodeInfo => 2,
            PeerStateKey::ProtocolVersion => 3,
        }
    }
}

/// The per-dimension state value: one variant per dimension of the registry.
#[derive(Clone, Debug, PartialEq, Eq)]
pub enum PeerStateValue {
    LatencyInfoState(LatencyInfoState),
    NetworkInfoState(NetworkInfoState),
    NodeInfoState(NodeInfoState),
    ProtocolVersionInfoState(ProtocolVersionInfoState),
}

/// The request each dimension sends; the latency dimension embeds its
/// current ping counter.
pub open spec fn request_for_key(key: PeerStateKey, latency_counter: u64) -> MonitoringServiceRequest {
    match key {
        PeerStateKey::LatencyInfo => MonitoringServiceRequest::LatencyPing(
            LatencyPingRequest { ping_counter: latency_counter },
        ),
        PeerStateKey::NetworkInfo => MonitoringServiceRequest::GetNetworkInformation,
        PeerStateKey::NodeInfo => MonitoringServiceRequest::GetNodeInformation,
        PeerStateKey::ProtocolVersion => MonitoringServiceRequest::GetServerProtocolVersion,
    }
}

/// Whether a response is the one the dimension's outstanding request asked
/// for: the union case of its dimension and, for latency pings, an echoed
/// counter equal to the request's.
pub open spec fn response_accepted(
    pre: PeerStateValue,
    request: MonitoringServiceRequest,
    response: PeerMonitoringServiceResponse,
) -> bool {
    match pre {
        PeerStateValue::LatencyInfoState(_) => request is LatencyPing && response is LatencyPing
            && response->LatencyPing_0.ping_counter == request->LatencyPing_0.ping_counter,
        PeerStateValue::NetworkInfoState(_) => response is NetworkInformation,
        PeerStateValue::NodeInfoState(_) => response is NodeInformation,
        PeerStateValue::ProtocolVersionInfoState(_) => response is ServerProtocolVersion,
    }
}

impl PeerStateValue {
    /// Which dimension this value belongs to.
    pub open spec fn key_spec(self) -> PeerStateKey {
        match self {
            PeerStateValue::LatencyInfoState(_) => PeerStateKey::LatencyInfo,
            PeerStateValue::NetworkInfoState(_) => PeerStateKey::NetworkInfo,
            PeerStateValue::NodeInfoState(_) => PeerStateKey::NodeInfo,
            PeerStateValue::ProtocolVersionInfoState(_) => PeerStateKey::ProtocolVersion,
        }
    }

    /// The per-dimension invariant.
    pub open spec fn wf(self) -> bool {
        match self {
            PeerStateValue::LatencyInfoState(state) => state.wf(),
            _ => true,
        }
    }

    /// The request tracker embedded in this dimension's state.
    pub open spec fn tracker_spec(self) -> RequestTracker {
        match self {
            PeerStateValue::LatencyInfoState(state) => state.request_tracker,
            PeerStateValue::NetworkInfoState(state) => state.request_tracker,
            PeerStateValue::NodeInfoState(state) => state.request_tracker,
            PeerStateValue::ProtocolVersionInfoState(state) => state.request_tracker,
        }
    }

    /// The same dimension state with its tracker replaced; the accumulated
    /// knowledge is untouched.
    pub open spec fn with_tracker(self, tracker: RequestTracker) -> PeerStateValue {
        match self {
            PeerStateValue::LatencyInfoState(state) => PeerStateValue::LatencyInfoState(
                LatencyInfoState { request_tracker: tracker, ..state },
            ),
            PeerStateValue::NetworkInfoState(state) => PeerStateValue::NetworkInfoState(
                NetworkInfoState { request_tracker: tracker, ..state },
            ),
            PeerStateValue::NodeInfoState(state) => PeerStateValue::NodeInfoState(
                NodeInfoState { request_tracker: tracker, ..state },
            ),
            PeerStateValue::ProtocolVersionInfoState(state) => {
                PeerStateValue::ProtocolVersionInfoState(
                    ProtocolVersionInfoState { request_tracker: tracker, ..state },
                )
            },
        }
    }

    /// The latency ping counter, for the latency dimension.
    pub open spec fn latency_counter_spec(self) -> u64 {
        match self {
            PeerStateValue::LatencyInfoState(state) => state.latency_ping_counter,
            _ => 0,
        }
    }

    /// The dimension state after its next request was built: the latency
    /// counter rises (saturating); every other dimension is unchanged.
    pub open spec fn bump_counter_spec(self) -> PeerStateValue {
        match self {
            PeerStateValue::LatencyInfoState(state) => PeerStateValue::LatencyInfoState(
                LatencyInfoState {
                    latency_ping_counter: if state.latency_ping_counter < u64::MAX {
                        (state.latency_ping_counter + 1) as u64
                    } else {
                        u64::MAX
                    },
                    ..state
                },
            ),
            _ => self,
        }
    }

    /// No dimension state has ever merged a response.
    pub open spec fn initial_knowledge(self) -> bool {
        match self {
            PeerStateValue::LatencyInfoState(state) => state.latency_ping_counter == 0
                && state.recorded_latency_ping_durations_usecs@.len() == 0,
            PeerStateValue::NetworkInfoState(state) => state.latest_network_info_response is None,
            PeerStateValue::NodeInfoState(state) => state.latest_node_info_response is None,
            PeerStateValue::ProtocolVersionInfoState(state) => {
                state.latest_server_protocol_version is None
            },
        }
    }

    /// The base request timeout each dimension takes from the configuration.
    pub open spec fn base_timeout_of(config: PeerMonitoringServiceConfig, key: PeerStateKey) -> u64 {
        match key {
            PeerStateKey::LatencyInfo => config.latency_ping_timeout_ms,
            PeerStateKey::NetworkInfo => config.network_info_request_timeout_ms,
            PeerStateKey::NodeInfo => config.node_info_request_timeout_ms,
            PeerStateKey::ProtocolVersion => config.protocol_version_request_timeout_ms,
        }
    }

    /// Creates the initial state value for one dimension, seeded from the
    /// configuration: an idle tracker and no accumulated knowledge.
    pub fn new(config: &PeerMonitoringServiceConfig, peer_state_key: PeerStateKey) -> (value:
        PeerStateValue)
        ensures
            value.key_spec() == peer_state_key,
            value.wf(),
            value.initial_knowledge(),
            value.tracker_spec() == RequestTracker::new_spec(
                PeerStateValue::base_timeout_of(*config, peer_state_key),
            ),
            peer_state_key is LatencyInfo
                ==> value->LatencyInfoState_0.max_num_latency_pings_to_retain
                == config.max_num_latency_pings_to_retain,
    {
        match peer_state_key {
            PeerStateKey::LatencyInfo => PeerStateValue::LatencyInfoState(
                LatencyInfoState::new(config),
            ),
            PeerStateKey::NetworkInfo => PeerStateValue::NetworkInfoState(
                NetworkInfoState::new(config),
            ),
            PeerStateKey::NodeInfo => PeerStateValue::NodeInfoState(NodeInfoState::new(config)),
            PeerStateKey::ProtocolVersion => PeerStateValue::ProtocolVersionInfoState(
                ProtocolVersionInfoState::new(config),
            ),
        }
    }

    /// The request tracker of this dimension, as a copy.
    pub fn get_request_tracker(&self) -> (tracker: RequestTracker)
        ensures
            tracker == self.tracker_spec(),
    {
        match self {
            PeerStateValue::LatencyInfoState(state) => state.request_tracker,
            PeerStateValue::NetworkInfoState(state) => state.request_tracker,
            PeerStateValue::NodeInfoState(state) => state.request_tracker,
            PeerStateValue::ProtocolVersionInfoState(state) => state.request_tracker,
        }
    }

    /// Marks a request for this dimension as started at `now_ms`.
    pub fn start_request(&mut self, now_ms: u64)
        ensures
            *final(self) == old(self).with_tracker(old(self).tracker_spec().started_spec(now_ms)),
    {
        match self {
            PeerStateValue::LatencyInfoState(state) => state.request_tracker.request_started(
                now_ms,
            ),
            PeerStateValue::NetworkInfoState(state) => state.request_tracker.request_started(
                now_ms,
            ),
            PeerStateValue::NodeInfoState(state) => state.request_tracker.request_started(now_ms),
            PeerStateValue::ProtocolVersionInfoState(state) => {
                state.request_tracker.request_started(now_ms)
            },
        }
    }

    /// Marks the outstanding request for this dimension as complete.
    pub fn complete_request(&mut self)
        ensures
            *final(self) == old(self).with_tracker(old(self).tracker_spec().completed_spec()),
    {
        match self {
            PeerStateValue::LatencyInfoState(state) => state.request_tracker.request_completed(),
            PeerStateValue::NetworkInfoState(state) => state.request_tracker.request_completed(),
            PeerStateValue::NodeInfoState(state) => state.request_tracker.request_completed(),
            PeerStateValue::ProtocolVersionInfoState(state) => {
                state.request_tracker.request_completed()
            },
        }
    }

    /// Builds this dimension's next outbound request. The latency dimension
    /// raises its counter and embeds it; every other dimension is unchanged.
    pub fn create_monitoring_service_request(&mut self) -> (request: MonitoringServiceRequest)
        ensures
            *final(self) == old(self).bump_counter_spec(),
            request == request_for_key(
                old(self).key_spec(),
                final(self).latency_counter_spec(),
            ),
    {
        match self {
            PeerStateValue::LatencyInfoState(state) => MonitoringServiceRequest::LatencyPing(
                state.create_latency_ping_request(),
            ),
            PeerStateValue::NetworkInfoState(_) => MonitoringServiceRequest::GetNetworkInformation,
            PeerStateValue::NodeInfoState(_) => MonitoringServiceRequest::GetNodeInformation,
            PeerStateValue::ProtocolVersionInfoState(_) => {
                MonitoringServiceRequest::GetServerProtocolVersion
            },
        }
    }

    /// The timeout for this dimension's next request.
    pub fn get_request_timeout_ms(&self) -> (timeout_ms: u64)
        ensures
            timeout_ms == self.tracker_spec().timeout_for_next_request_spec(),
    {
        match self {
            PeerStateValue::LatencyInfoState(state) => state.get_request_timeout_ms(),
            PeerStateValue::NetworkInfoState(state) => state.get_request_timeout_ms(),
            PeerStateValue::NodeInfoState(state) => state.get_request_timeout_ms(),
            PeerStateValue::ProtocolVersionInfoState(state) => state.get_request_timeout_ms(),
        }
    }

    /// Routes a successful transport response into this dimension. A
    /// response of the wrong union case, or a latency ping whose counter
    /// does not echo the request's, is treated exactly like a transport
    /// error: the failure count rises and no knowledge is merged.
    pub fn handle_monitoring_service_response(
        &mut self,
        request: &MonitoringServiceRequest,
        response: PeerMonitoringServiceResponse,
        request_duration_usecs: u64,
    ) -> (accepted: bool)
        requires
            old(self).wf(),
        ensures
            final(self).wf(),
            accepted == response_accepted(*old(self), *request, response),
            !accepted ==> *final(self) == old(self).with_tracker(
                old(self).tracker_spec().failure_spec(),
            ),
            accepted ==> final(self).tracker_spec() == old(self).tracker_spec().success_spec(),
            accepted && (*old(self)) is LatencyInfoState ==> (*final(self)) is LatencyInfoState
                && (*final(self))->LatencyInfoState_0.recorded_latency_ping_durations_usecs@
                == push_sample_spec(
                (*old(self))->LatencyInfoState_0.recorded_latency_ping_durations_usecs@,
                request_duration_usecs,
                (*old(self))->LatencyInfoState_0.max_num_latency_pings_to_retain,
            ) && (*final(self))->LatencyInfoState_0.latency_ping_counter == (*old(self))->LatencyInfoState_0.latency_ping_counter
                && (*final(self))->LatencyInfoState_0.max_num_latency_pings_to_retain == (*old(self))->LatencyInfoState_0.max_num_latency_pings_to_retain,
            accepted && (*old(self)) is NetworkInfoState ==> *final(self)
                == PeerStateValue::NetworkInfoState(
                NetworkInfoState {
                    latest_network_info_response: Some(response->NetworkInformation_0),
                    request_tracker: old(self).tracker_spec().success_spec(),
                },
            ),
            accepted && (*old(self)) is NodeInfoState ==> *final(self) == PeerStateValue::NodeInfoState(
                NodeInfoState {
                    latest_node_info_response: Some(response->NodeInformation_0),
                    request_tracker: old(self).tracker_spec().success_spec(),
                },
            ),
            accepted && (*old(self)) is ProtocolVersionInfoState ==> *final(self)
                == PeerStateValue::ProtocolVersionInfoState(
                ProtocolVersionInfoState {
                    latest_server_protocol_version: Some(
                        response->ServerProtocolVersion_0.version,
                    ),
                    request_tracker: old(self).tracker_spec().success_spec(),
                },
            ),
    {
        match self {
            PeerStateValue::LatencyInfoState(state) => {
                match (request, &response) {
                    (
                        MonitoringServiceRequest::LatencyPing(ping_request),
                        PeerMonitoringServiceResponse::LatencyPing(ping_response),
                    ) => state.handle_latency_ping_response(
                        ping_request.ping_counter,
                        ping_response,
                        request_duration_usecs,
                    ),
                    _ => {
                        state.handle_request_failure();
                        false
                    },
                }
            },
            PeerStateValue::NetworkInfoState(state) => {
                match response {
                    PeerMonitoringServiceResponse::NetworkInformation(inner) => {
                        state.handle_network_info_response(inner);
                        true
                    },
                    _ => {
                        state.handle_request_failure();
                        false
                    },
                }
            },
            PeerStateValue::NodeInfoState(state) => {
                match response {
                    PeerMonitoringServiceResponse::NodeInformation(inner) => {
                        state.handle_node_info_response(inner);
                        true
                    },
                    _ => {
                        state.handle_request_failure();
                        false
                    },
                }
            },
            PeerStateValue::ProtocolVersionInfoState(state) => {
                match response {
                    PeerMonitoringServiceResponse::ServerProtocolVersion(inner) => {
                        state.handle_protocol_version_response(inner.version);
                        true
                    },
                    _ => {
                        state.handle_request_failure();
                        false
                    },
                }
            },
        }
    }

    /// Routes a transport or validation error into this dimension: the
    /// failure count rises and the accumulated knowledge is untouched.
    pub fn handle_monitoring_service_response_error(&mut self)
        ensures
            *final(self) == old(self).with_tracker(old(self).tracker_spec().failure_spec()),
    {
        match self {
            PeerStateValue::LatencyInfoState(state) => state.handle_request_failure(),
            PeerStateValue::NetworkInfoState(state) => state.handle_request_failure(),
            PeerStateValue::NodeInfoState(state) => state.handle_request_failure(),
            PeerStateValue::ProtocolVersionInfoState(state) => state.handle_request_failure(),
        }
    }
}

} // verus!
