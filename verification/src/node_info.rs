//! The node-information dimension: the latest response received.

use vstd::prelude::*;

use crate::config::PeerMonitoringServiceConfig;
use crate::network_info::duplicate_bytes;
use crate::request_tracker::RequestTracker;
use crate::response::NodeInformationResponse;

verus! {

/// The accumulated node-information knowledge for one peer.
#[derive(Clone, Debug, PartialEq, Eq)]
pub struct NodeInfoState {
    /// The latest node information response received, if any.
    pub latest_node_info_response: Option<NodeInformationResponse>,
    /// The request tracker of this dimension.
    pub request_tracker: RequestTracker,
}

impl NodeInfoState {
    /// Creates the initial node-information state from the configuration.
    pub fn new(config: &PeerMonitoringServiceConfig) -> (state: NodeInfoState)
        ensures
            state.latest_node_info_response is None,
            state.request_tracker == RequestTracker::new_spec(config.node_info_request_timeout_ms),
    {
        NodeInfoState {
            latest_node_info_response: None,
            request_tracker: RequestTracker::new(config.node_info_request_timeout_ms),
        }
    }

    /// Stores a node information response as the latest knowledge and
    /// records the success.
    pub fn handle_node_info_response(&mut self, response: NodeInformationResponse)
        ensures
            *final(self) == (NodeInfoState {
                latest_node_info_response: Some(response),
                request_tracker: old(self).request_tracker.success_spec(),
            }),
    {
        self.latest_node_info_response = Some(response);
        self.request_tracker.record_success();
    }

    /// Records an error for this dimension: the failure count rises and the
    /// stored response is untouched.
    pub fn handle_request_failure(&mut self)
        ensures
            *final(self) == (NodeInfoState {
                request_tracker: old(self).request_tracker.failure_spec(),
                ..*old(self)
            }),
    {
        self.request_tracker.record_failure();
    }

    /// The timeout for this dimension's next request.
    pub fn get_request_timeout_ms(&self) -> (timeout_ms: u64)
        ensures
            timeout_ms == self.request_tracker.timeout_for_next_request_spec(),
    {
        self.request_tracker.timeout_for_next_request()
    }

    /// A deep copy whose stored response has the same view.
    pub fn duplicate(&self) -> (copy: NodeInfoState)
        ensures
            copy.latest_node_info_response is Some <==> self.latest_node_info_response is Some,
            copy.latest_node_info_response is Some ==> copy.latest_node_info_response->Some_0@
                == self.latest_node_info_response->Some_0@,
            copy.request_tracker == self.request_tracker,
    {
        let latest = match &self.latest_node_info_response {
            None => None,
            Some(response) => Some(duplicate_node_info_response(response)),
        };
        NodeInfoState { latest_node_info_response: latest, request_tracker: self.request_tracker }
    }
}

/// A deep copy of a node information response, with the same view.
pub fn duplicate_node_info_response(response: &NodeInformationResponse) -> (copy:
    NodeInformationResponse)
    ensures
        copy@ == response@,
{
    let mut build_information: Vec<(Vec<u8>, Vec<u8>)> = Vec::new();
    let mut index: usize = 0;
    while index < response.build_information.len()
        invariant
            index <= response.build_information@.len(),
            build_information@.len() == index,
            forall|k: int|
                0 <= k < index ==> (#[trigger] build_information@[k]).0@
                    == response.build_information@[k].0@ && build_information@[k].1@
                    == response.build_information@[k].1@,
        decreases response.build_information@.len() - index,
    {
        let entry = &response.build_information[index];
        build_information.push((duplicate_bytes(&entry.0), duplicate_bytes(&entry.1)));
        index = index + 1;
    }
    proof {
        let pv = crate::response::build_info_view(build_information@);
        let tv = crate::response::build_info_view(response.build_information@);
        assert forall|k: int| 0 <= k < pv.len() implies pv[k] == tv[k] by {
            assert(build_information@[k].0@ == response.build_information@[k].0@);
            assert(build_information@[k].1@ == response.build_information@[k].1@);
        }
        assert(pv =~= tv);
    }
    NodeInformationResponse {
        build_information,
        highest_synced_epoch: response.highest_synced_epoch,
        highest_synced_version: response.highest_synced_version,
        ledger_timestamp_usecs: response.ledger_timestamp_usecs,
        lowest_available_version: response.lowest_available_version,
        uptime_usecs: response.uptime_usecs,
    }
}

} // verus!
