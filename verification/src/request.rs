//! Request wire types: the outbound monitoring requests, one per dimension.

use vstd::prelude::*;

verus! {

/// A peer monitoring service request.
#[derive(Clone, Copy, Debug, PartialEq, Eq, Structural)]
pub enum MonitoringServiceRequest {
    /// A ping carrying the counter the matching response must echo.
    LatencyPing(LatencyPingRequest),
    /// Asks for the peer's network information.
    GetNetworkInformation,
    /// Asks for the peer's node information.
    GetNodeInformation,
    /// Asks for the server's protocol version.
    GetServerProtocolVersion,
}

/// The latency ping request payload.
#[derive(Clone, Copy, Debug, PartialEq, Eq, Structural)]
pub struct LatencyPingRequest {
    /// A monotonically increasing counter used to match responses to pings.
    pub ping_counter: u64,
}

impl MonitoringServiceRequest {
    /// The label of each request kind.
    pub open spec fn label_spec(self) -> Seq<char> {
        match self {
            MonitoringServiceRequest::LatencyPing(_) => "latency_ping"@,
            MonitoringServiceRequest::GetNetworkInformation => "network_information"@,
            MonitoringServiceRequest::GetNodeInformation => "node_information"@,
            MonitoringServiceRequest::GetServerProtocolVersion => "server_protocol_version"@,
        }
    }

    /// Returns a summary label for the request, used to key metrics.
    pub fn get_label(&self) -> (label: &'static str)
        ensures
            label@ == self.label_spec(),
    {
        match self {
            MonitoringServiceRequest::LatencyPing(_) => "latency_ping",
            MonitoringServiceRequest::GetNetworkInformation => "network_information",
            MonitoringServiceRequest::GetNodeInformation => "node_information",
            MonitoringServiceRequest::GetServerProtocolVersion => "server_protocol_version",
        }
    }
}

} // verus!
