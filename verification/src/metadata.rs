//! The derived, point-in-time projection of a peer's accumulated health
//! knowledge. It is computed on demand and never cached, so callers always
//! see the current knowledge.

use vstd::prelude::*;

use crate::response::NetworkInformationResponse;
use crate::response::NodeInformationResponse;

verus! {

/// A point-in-time snapshot of a peer's health: the average ping latency
/// and the latest network and node information responses.
#[derive(Clone, Debug, PartialEq, Eq)]
pub struct PeerMonitoringMetadata {
    /// The average of the recorded ping round-trips, in microseconds.
    pub average_ping_latency_usecs: Option<u64>,
    /// The latest network information response received, if any.
    pub latest_network_info_response: Option<NetworkInformationResponse>,
    /// The latest node information response received, if any.
    pub latest_node_info_response: Option<NodeInformationResponse>,
}

impl Default for PeerMonitoringMetadata {
    /// An empty snapshot: no knowledge of the peer yet.
    fn default() -> (metadata: Self)
        ensures
            metadata.average_ping_latency_usecs is None,
            metadata.latest_network_info_response is None,
            metadata.latest_node_info_response is None,
    {
        PeerMonitoringMetadata {
            average_ping_latency_usecs: None,
            latest_network_info_response: None,
            latest_node_info_response: None,
        }
    }
}

} // verus!
