//! Response wire types: the tagged union of monitoring response payloads,
//! their mathematical views, the well-formedness of the ordered maps they
//! carry, and the serialized-size accounting used by the size ceiling check.

use vstd::prelude::*;

use crate::codec;
use crate::error::Error;

verus! {

// ---------------------------------------------------------------------------
// Views: the mathematical model of each wire value.
// ---------------------------------------------------------------------------

/// Model of the connection metadata attached to each connected peer.
pub ghost struct ConnectionMetadataView {
    pub network_address: Seq<u8>,
    pub peer_id: Seq<u8>,
    pub peer_role: u8,
}

/// Model of a network information response: the connected peers, keyed by a
/// compact peer network identifier and ordered strictly by key, and the
/// distance of the peer from the validator set.
pub ghost struct NetworkInformationResponseView {
    pub connected_peers: Seq<(u64, ConnectionMetadataView)>,
    pub distance_from_validators: u64,
}

/// Model of a node information response: build information as an ordered
/// key/value map over byte strings, plus the sync-progress counters.
pub ghost struct NodeInformationResponseView {
    pub build_information: Seq<(Seq<u8>, Seq<u8>)>,
    pub highest_synced_epoch: u64,
    pub highest_synced_version: u64,
    pub ledger_timestamp_usecs: u64,
    pub lowest_available_version: u64,
    pub uptime_usecs: u64,
}

/// Model of the full response union.
pub ghost enum PeerMonitoringServiceResponseView {
    LatencyPing(u64),
    NetworkInformation(NetworkInformationResponseView),
    NodeInformation(NodeInformationResponseView),
    ServerProtocolVersion(u64),
}

// ---------------------------------------------------------------------------
// Wire types.
// ---------------------------------------------------------------------------

/// A peer monitoring service response.
#[derive(Clone, Debug, PartialEq, Eq)]
pub enum PeerMonitoringServiceResponse {
    /// A simple message to respond to latency checks (i.e., pings).
    LatencyPing(LatencyPingResponse),
    /// Holds the response for network information.
    NetworkInformation(NetworkInformationResponse),
    /// Holds the response for node information.
    NodeInformation(NodeInformationResponse),
    /// Returns the current server protocol version.
    ServerProtocolVersion(ServerProtocolVersionResponse),
}

/// A response for the latency ping request.
#[derive(Clone, Copy, Debug, PartialEq, Eq, Structural)]
pub struct LatencyPingResponse {
    /// A monotonically increasing counter to verify latency ping responses.
    pub ping_counter: u64,
}

/// A response for the network information request.
#[derive(Clone, Debug, PartialEq, Eq)]
pub struct NetworkInformationResponse {
    /// The connected peers, as an association list strictly ordered by the
    /// peer network identifier key.
    pub connected_peers: Vec<(u64, ConnectionMetadata)>,
    /// The distance of the peer from the validator set.
    pub distance_from_validators: u64,
}

/// Simple connection metadata associated with each peer: its network address
/// and peer identifier as raw byte strings, and its role tag.
#[derive(Clone, Debug, PartialEq, Eq)]
pub struct ConnectionMetadata {
    pub network_address: Vec<u8>,
    pub peer_id: Vec<u8>,
    pub peer_role: u8,
}

/// A response for the server protocol version request.
#[derive(Clone, Copy, Debug, PartialEq, Eq, Structural)]
pub struct ServerProtocolVersionResponse {
    /// The version of the peer monitoring service run by the server.
    pub version: u64,
}

/// A response for the node information request.
#[derive(Clone, Debug, PartialEq, Eq)]
pub struct NodeInformationResponse {
    /// The build information of the node, as an association list of byte
    /// strings strictly ordered by key.
    pub build_information: Vec<(Vec<u8>, Vec<u8>)>,
    /// The highest synced epoch of the node.
    pub highest_synced_epoch: u64,
    /// The highest synced version of the node.
    pub highest_synced_version: u64,
    /// The latest timestamp of the ledger (in microseconds).
    pub ledger_timestamp_usecs: u64,
    /// The lowest stored version of the node (in storage).
    pub lowest_available_version: u64,
    /// The amount of time the peer has been running (in microseconds).
    pub uptime_usecs: u64,
}

/// The error raised when a response of an unexpected union case is
/// extracted, carrying the label of the case that was found.
#[derive(Clone, Debug)]
pub struct UnexpectedResponseError(pub String);

// ---------------------------------------------------------------------------
// View implementations.
// ---------------------------------------------------------------------------

impl View for ConnectionMetadata {
    type V = ConnectionMetadataView;

    open spec fn view(&self) -> ConnectionMetadataView {
        ConnectionMetadataView {
            network_address: self.network_address@,
            peer_id: self.peer_id@,
            peer_role: self.peer_role,
        }
    }
}

/// The view of a connected-peers association list.
pub open spec fn peers_view(entries: Seq<(u64, ConnectionMetadata)>) -> Seq<
    (u64, ConnectionMetadataView),
> {
    entries.map_values(|entry: (u64, ConnectionMetadata)| (entry.0, entry.1@))
}

impl View for NetworkInformationResponse {
    type V = NetworkInformationResponseView;

    open spec fn view(&self) -> NetworkInformationResponseView {
        NetworkInformationResponseView {
            connected_peers: peers_view(self.connected_peers@),
            distance_from_validators: self.distance_from_validators,
        }
    }
}

/// The view of a build-information association list.
pub open spec fn build_info_view(entries: Seq<(Vec<u8>, Vec<u8>)>) -> Seq<(Seq<u8>, Seq<u8>)> {
    entries.map_values(|entry: (Vec<u8>, Vec<u8>)| (entry.0@, entry.1@))
}

impl View for NodeInformationResponse {
    type V = NodeInformationResponseView;

    open spec fn view(&self) -> NodeInformationResponseView {
        NodeInformationResponseView {
            build_information: build_info_view(self.build_information@),
            highest_synced_epoch: self.highest_synced_epoch,
            highest_synced_version: self.highest_synced_version,
            ledger_timestamp_usecs: self.ledger_timestamp_usecs,
            lowest_available_version: self.lowest_available_version,
            uptime_usecs: self.uptime_usecs,
        }
    }
}

impl View for PeerMonitoringServiceResponse {
    type V = PeerMonitoringServiceResponseView;

    open spec fn view(&self) -> PeerMonitoringServiceResponseView {
        match self {
            PeerMonitoringServiceResponse::LatencyPing(inner) => {
                PeerMonitoringServiceResponseView::LatencyPing(inner.ping_counter)
            },
            PeerMonitoringServiceResponse::NetworkInformation(inner) => {
                PeerMonitoringServiceResponseView::NetworkInformation(inner@)
            },
            PeerMonitoringServiceResponse::NodeInformation(inner) => {
                PeerMonitoringServiceResponseView::NodeInformation(inner@)
            },
            PeerMonitoringServiceResponse::ServerProtocolVersion(inner) => {
                PeerMonitoringServiceResponseView::ServerProtocolVersion(inner.version)
            },
        }
    }
}

// ---------------------------------------------------------------------------
// Well-formedness: the maps carried on the wire are strictly ordered by key.
// ---------------------------------------------------------------------------

/// Strict lexicographic order on byte strings.
pub open spec fn lex_lt(a: Seq<u8>, b: Seq<u8>) -> bool
    decreases a.len(),
{
    if a.len() == 0 {
        b.len() > 0
    } else if b.len() == 0 {
        false
    } else if a[0] != b[0] {
        a[0] < b[0]
    } else {
        lex_lt(a.drop_first(), b.drop_first())
    }
}

/// The connected-peers map is strictly ascending by peer key.
pub open spec fn peers_sorted(entries: Seq<(u64, ConnectionMetadataView)>) -> bool {
    forall|k: int|
        0 <= k && k + 1 < entries.len() ==> (#[trigger] entries[k].0) < entries[k + 1].0
}

/// The build-information map is strictly ascending by key, lexicographically.
pub open spec fn build_info_sorted(entries: Seq<(Seq<u8>, Seq<u8>)>) -> bool {
    forall|k: int|
        0 <= k && k + 1 < entries.len() ==> lex_lt(#[trigger] entries[k].0, entries[k + 1].0)
}

impl ConnectionMetadataView {
    /// The byte strings of a wire value fit their 64-bit length fields.
    pub open spec fn wf(self) -> bool {
        &&& self.network_address.len() <= u64::MAX
        &&& self.peer_id.len() <= u64::MAX
    }
}

impl NetworkInformationResponseView {
    /// The invariant of a network information response: the connected-peers
    /// map is strictly ordered by key, and every field fits the wire format.
    pub open spec fn wf(self) -> bool {
        &&& peers_sorted(self.connected_peers)
        &&& self.connected_peers.len() <= u64::MAX
        &&& forall|k: int|
            0 <= k < self.connected_peers.len() ==> (#[trigger] self.connected_peers[k]).1.wf()
    }
}

impl NodeInformationResponseView {
    /// The invariant of a node information response: the build-information
    /// map is strictly ordered by key, and every field fits the wire format.
    pub open spec fn wf(self) -> bool {
        &&& build_info_sorted(self.build_information)
        &&& self.build_information.len() <= u64::MAX
        &&& forall|k: int|
            0 <= k < self.build_information.len() ==> (#[trigger] self.build_information[k]).0.len()
                <= u64::MAX && self.build_information[k].1.len() <= u64::MAX
    }
}

impl PeerMonitoringServiceResponseView {
    /// The invariant of a response: every map it carries is strictly ordered
    /// by key, and every variable-width field fits its 64-bit length field.
    pub open spec fn wf(self) -> bool {
        match self {
            PeerMonitoringServiceResponseView::NetworkInformation(inner) => inner.wf(),
            PeerMonitoringServiceResponseView::NodeInformation(inner) => inner.wf(),
            _ => true,
        }
    }
}

// ---------------------------------------------------------------------------
// Labels, size accounting and union-case extraction.
// ---------------------------------------------------------------------------

impl PeerMonitoringServiceResponse {
    /// Returns a summary label for the response.
    pub fn get_label(&self) -> (label: &'static str)
        ensures
            label@ == self@.label_spec(),
    {
        match self {
            PeerMonitoringServiceResponse::LatencyPing(_) => "latency_ping",
            PeerMonitoringServiceResponse::NetworkInformation(_) => "network_information",
            PeerMonitoringServiceResponse::NodeInformation(_) => "node_information",
            PeerMonitoringServiceResponse::ServerProtocolVersion(_) => "server_protocol_version",
        }
    }

    /// Returns the number of bytes in the serialized response. The
    /// serialization is total and deterministic, so this always succeeds.
    pub fn get_num_bytes(&self) -> (num_bytes: Result<u64, UnexpectedResponseError>)
        ensures
            num_bytes is Ok,
            num_bytes->Ok_0 == codec::senc_response(self@).len(),
    {
        let encoded = codec::encode_response(self);
        Ok(encoded.len() as u64)
    }
}

impl PeerMonitoringServiceResponseView {
    /// The label of each union case.
    pub open spec fn label_spec(self) -> Seq<char> {
        match self {
            PeerMonitoringServiceResponseView::LatencyPing(_) => "latency_ping"@,
            PeerMonitoringServiceResponseView::NetworkInformation(_) => "network_information"@,
            PeerMonitoringServiceResponseView::NodeInformation(_) => "node_information"@,
            PeerMonitoringServiceResponseView::ServerProtocolVersion(
                _,
            ) => "server_protocol_version"@,
        }
    }
}

impl ConnectionMetadata {
    /// Builds the connection metadata record for one peer.
    pub fn new(network_address: Vec<u8>, peer_id: Vec<u8>, peer_role: u8) -> (metadata:
        ConnectionMetadata)
        ensures
            metadata@ == (ConnectionMetadataView {
                network_address: network_address@,
                peer_id: peer_id@,
                peer_role,
            }),
    {
        ConnectionMetadata { network_address, peer_id, peer_role }
    }
}

impl LatencyPingResponse {
    /// Extracts the latency ping case; any other case is an error.
    pub fn try_from(response: PeerMonitoringServiceResponse) -> (result: Result<
        Self,
        UnexpectedResponseError,
    >)
        ensures
            result is Ok <==> response@ is LatencyPing,
            result is Ok ==> response@ == PeerMonitoringServiceResponseView::LatencyPing(
                result->Ok_0.ping_counter,
            ),
    {
        match response {
            PeerMonitoringServiceResponse::LatencyPing(inner) => Ok(inner),
            response => Err(UnexpectedResponseError(unexpected_label(&response))),
        }
    }
}

impl NetworkInformationResponse {
    /// Extracts the network information case; any other case is an error.
    pub fn try_from(response: PeerMonitoringServiceResponse) -> (result: Result<
        Self,
        UnexpectedResponseError,
    >)
        ensures
            result is Ok <==> response@ is NetworkInformation,
            result is Ok ==> response@ == PeerMonitoringServiceResponseView::NetworkInformation(
                result->Ok_0@,
            ),
    {
        match response {
            PeerMonitoringServiceResponse::NetworkInformation(inner) => Ok(inner),
            response => Err(UnexpectedResponseError(unexpected_label(&response))),
        }
    }
}

impl NodeInformationResponse {
    /// Extracts the node information case; any other case is an error.
    pub fn try_from(response: PeerMonitoringServiceResponse) -> (result: Result<
        Self,
        UnexpectedResponseError,
    >)
        ensures
            result is Ok <==> response@ is NodeInformation,
            result is Ok ==> response@ == PeerMonitoringServiceResponseView::NodeInformation(
                result->Ok_0@,
            ),
    {
        match response {
            PeerMonitoringServiceResponse::NodeInformation(inner) => Ok(inner),
            response => Err(UnexpectedResponseError(unexpected_label(&response))),
        }
    }
}

impl ServerProtocolVersionResponse {
    /// Extracts the server protocol version case; any other case is an error.
    pub fn try_from(response: PeerMonitoringServiceResponse) -> (result: Result<
        Self,
        UnexpectedResponseError,
    >)
        ensures
            result is Ok <==> response@ is ServerProtocolVersion,
            result is Ok ==> response@ == PeerMonitoringServiceResponseView::ServerProtocolVersion(
                result->Ok_0.version,
            ),
    {
        match response {
            PeerMonitoringServiceResponse::ServerProtocolVersion(inner) => Ok(inner),
            response => Err(UnexpectedResponseError(unexpected_label(&response))),
        }
    }
}

/// The label of a response that was not of the expected union case.
fn unexpected_label(response: &PeerMonitoringServiceResponse) -> (label: String)
    ensures
        label@ == response@.label_spec(),
{
    String::from_str(response.get_label())
}

/// Sanity checks that the monitoring service response size is valid (i.e.,
/// it respects the max message size).
pub fn sanity_check_response_size(
    max_num_response_bytes: u64,
    monitoring_service_response: &PeerMonitoringServiceResponse,
) -> (result: Result<(), Error>)
    ensures
        result is Ok <==> codec::senc_response(monitoring_service_response@).len()
            <= max_num_response_bytes,
        result is Err ==> result->Err_0 == (Error::SizeLimitExceeded {
            num_response_bytes: codec::senc_response(monitoring_service_response@).len() as u64,
            max_num_response_bytes,
        }),
{
    let num_response_bytes = match monitoring_service_response.get_num_bytes() {
        Ok(num_response_bytes) => num_response_bytes,
        Err(_) => {
            return Err(
                Error::SizeLimitExceeded { num_response_bytes: 0, max_num_response_bytes },
            );
        },
    };
    if num_response_bytes > max_num_response_bytes {
        return Err(
            Error::SizeLimitExceeded { num_response_bytes, max_num_response_bytes },
        );
    }
    Ok(())
}

} // verus!
