//! The network-information dimension: the latest response received.

use vstd::prelude::*;

use crate::config::PeerMonitoringServiceConfig;
use crate::request_tracker::RequestTracker;
use crate::response::ConnectionMetadata;
use crate::response::NetworkInformationResponse;

verus! {

/// The accumulated network-information knowledge for one peer.
#[derive(Clone, Debug, PartialEq, Eq)]
pub struct NetworkInfoState {
    /// The latest network information response received, if any.
    pub latest_network_info_response: Option<NetworkInformationResponse>,
    /// The request tracker of this dimension.
    pub request_tracker: RequestTracker,
}

impl NetworkInfoState {
    /// Creates the initial network-information state from the configuration.
    pub fn new(config: &PeerMonitoringServiceConfig) -> (state: NetworkInfoState)
        ensures
            state.latest_network_info_response is None,
            state.request_tracker == RequestTracker::new_spec(
                config.network_info_request_timeout_ms,
            ),
    {
        NetworkInfoState {
            latest_network_info_response: None,
            request_tracker: RequestTracker::new(config.network_info_request_timeout_ms),
        }
    }

    /// Stores a network information response as the latest knowledge and
    /// records the success.
    pub fn handle_network_info_response(&mut self, response: NetworkInformationResponse)
        ensures
            *final(self) == (NetworkInfoState {
                latest_network_info_response: Some(response),
                request_tracker: old(self).request_tracker.success_spec(),
            }),
    {
        self.latest_network_info_response = Some(response);
        self.request_tracker.record_success();
    }

    /// Records an error for this dimension: the failure count rises and the
    /// stored response is untouched.
    pub fn handle_request_failure(&mut self)
        ensures
            *final(self) == (NetworkInfoState {
                request_tracker: old(self).request_tracker.failure_spec(),
                ..*old(self)
            }),
    {
        self.request_tracker.record_failure();
    }

    /// The timeout for this dimension's next request.
    pub fn get_request_timeout_ms(&self) -> (timeout_ms: u64)
        ensures
            timeout_ms == self.request_tracker.timeout_for_next_request_spec(),
    {
        self.request_tracker.timeout_for_next_request()
    }

    /// A deep copy whose stored response has the same view.
    pub fn duplicate(&self) -> (copy: NetworkInfoState)
        ensures
            copy.latest_network_info_response is Some <==> self.latest_network_info_response
                is Some,
            copy.latest_network_info_response is Some
                ==> copy.latest_network_info_response->Some_0@
                == self.latest_network_info_response->Some_0@,
            copy.request_tracker == self.request_tracker,
    {
        let latest = match &self.latest_network_info_response {
            None => None,
            Some(response) => Some(duplicate_network_info_response(response)),
        };
        NetworkInfoState {
            latest_network_info_response: latest,
            request_tracker: self.request_tracker,
        }
    }
}

/// A deep copy of a network information response, with the same view.
pub fn duplicate_network_info_response(response: &NetworkInformationResponse) -> (copy:
    NetworkInformationResponse)
    ensures
        copy@ == response@,
{
    let mut connected_peers: Vec<(u64, ConnectionMetadata)> = Vec::new();
    let mut index: usize = 0;
    while index < response.connected_peers.len()
        invariant
            index <= response.connected_peers@.len(),
            connected_peers@.len() == index,
            forall|k: int|
                0 <= k < index ==> (#[trigger] connected_peers@[k]).0
                    == response.connected_peers@[k].0 && connected_peers@[k].1@
                    == response.connected_peers@[k].1@,
        decreases response.connected_peers@.len() - index,
    {
        let entry = &response.connected_peers[index];
        let metadata = ConnectionMetadata {
            network_address: duplicate_bytes(&entry.1.network_address),
            peer_id: duplicate_bytes(&entry.1.peer_id),
            peer_role: entry.1.peer_role,
        };
        connected_peers.push((entry.0, metadata));
        index = index + 1;
    }
    proof {
        let pv = crate::response::peers_view(connected_peers@);
        let tv = crate::response::peers_view(response.connected_peers@);
        assert forall|k: int| 0 <= k < pv.len() implies pv[k] == tv[k] by {
            assert(connected_peers@[k].0 == response.connected_peers@[k].0);
            assert(connected_peers@[k].1@ == response.connected_peers@[k].1@);
        }
        assert(pv =~= tv);
    }
    NetworkInformationResponse {
        connected_peers,
        distance_from_validators: response.distance_from_validators,
    }
}

/// A fresh byte vector with the same contents.
pub fn duplicate_bytes(bytes: &Vec<u8>) -> (copy: Vec<u8>)
    ensures
        copy@ == bytes@,
{
    let mut copy: Vec<u8> = Vec::new();
    let mut index: usize = 0;
    assert(copy@ =~= bytes@.take(0));
    while index < bytes.len()
        invariant
            index <= bytes@.len(),
            copy@ == bytes@.take(index as int),
        decreases bytes@.len() - index,
    {
        copy.push(bytes[index]);
        assert(copy@ =~= bytes@.take(index as int + 1));
        index = index + 1;
    }
    assert(copy@ =~= bytes@);
    copy
}

} // verus!
