//! Tests for the response wire types and the deterministic codec.

use peer_monitoring::codec::decode_response;
use peer_monitoring::codec::encode_response;
use peer_monitoring::error::Error;
use peer_monitoring::response::ConnectionMetadata;
use peer_monitoring::response::LatencyPingResponse;
use peer_monitoring::response::NetworkInformationResponse;
use peer_monitoring::response::NodeInformationResponse;
use peer_monitoring::response::PeerMonitoringServiceResponse;
use peer_monitoring::response::ServerProtocolVersionResponse;

fn sample_network_response() -> PeerMonitoringServiceResponse {
    let peer_one = ConnectionMetadata::new(b"/ip4/10.0.0.1/tcp/6180".to_vec(), vec![0x11; 32], 0);
    let peer_two = ConnectionMetadata::new(b"/ip4/10.0.0.2/tcp/6180".to_vec(), vec![0x22; 32], 3);
    PeerMonitoringServiceResponse::NetworkInformation(NetworkInformationResponse {
        connected_peers: vec![(7, peer_one), (9, peer_two)],
        distance_from_validators: 2,
    })
}

fn sample_node_response() -> PeerMonitoringServiceResponse {
    PeerMonitoringServiceResponse::NodeInformation(NodeInformationResponse {
        build_information: vec![
            (b"branch".to_vec(), b"main".to_vec()),
            (b"commit".to_vec(), b"abc123".to_vec()),
        ],
        highest_synced_epoch: 12,
        highest_synced_version: 3456,
        ledger_timestamp_usecs: 7_000_000,
        lowest_available_version: 100,
        uptime_usecs: 86_400_000_000,
    })
}

#[test]
fn round_trip_latency_ping() {
    let response =
        PeerMonitoringServiceResponse::LatencyPing(LatencyPingResponse { ping_counter: 42 });
    let encoded = encode_response(&response);
    let decoded = decode_response(&encoded).unwrap();
    assert_eq!(decoded, response);
}

#[test]
fn round_trip_network_information() {
    let response = sample_network_response();
    let encoded = encode_response(&response);
    let decoded = decode_response(&encoded).unwrap();
    assert_eq!(decoded, response);
}

#[test]
fn round_trip_node_information() {
    let response = sample_node_response();
    let encoded = encode_response(&response);
    let decoded = decode_response(&encoded).unwrap();
    assert_eq!(decoded, response);
}

#[test]
fn round_trip_server_protocol_version() {
    let response = PeerMonitoringServiceResponse::ServerProtocolVersion(
        ServerProtocolVersionResponse { version: 5 },
    );
    let encoded = encode_response(&response);
    let decoded = decode_response(&encoded).unwrap();
    assert_eq!(decoded, response);
}

#[test]
fn latency_ping_encodes_to_exact_bytes() {
    let response =
        PeerMonitoringServiceResponse::LatencyPing(LatencyPingResponse { ping_counter: 0x0102 });
    let encoded = encode_response(&response);
    assert_eq!(encoded, vec![0u8, 0x02, 0x01, 0, 0, 0, 0, 0, 0]);
}

#[test]
fn get_num_bytes_matches_encoding() {
    let response = sample_node_response();
    let encoded = encode_response(&response);
    assert_eq!(response.get_num_bytes().unwrap(), encoded.len() as u64);

    let ping = PeerMonitoringServiceResponse::LatencyPing(LatencyPingResponse { ping_counter: 1 });
    assert_eq!(ping.get_num_bytes().unwrap(), 9);
}

#[test]
fn decode_rejects_truncated_input() {
    let response = sample_network_response();
    let mut encoded = encode_response(&response);
    encoded.pop();
    assert!(matches!(decode_response(&encoded), Err(Error::SerializationError)));
}

#[test]
fn decode_rejects_trailing_bytes() {
    let response = sample_node_response();
    let mut encoded = encode_response(&response);
    encoded.push(0);
    assert!(matches!(decode_response(&encoded), Err(Error::SerializationError)));
}

#[test]
fn decode_rejects_unknown_tag() {
    let bytes = vec![9u8, 0, 0, 0, 0, 0, 0, 0, 0];
    assert!(matches!(decode_response(&bytes), Err(Error::SerializationError)));
}

#[test]
fn decode_rejects_unsorted_peer_keys() {
    let peer_one = ConnectionMetadata::new(b"a".to_vec(), b"p1".to_vec(), 0);
    let peer_two = ConnectionMetadata::new(b"b".to_vec(), b"p2".to_vec(), 1);
    let unsorted = PeerMonitoringServiceResponse::NetworkInformation(NetworkInformationResponse {
        connected_peers: vec![(9, peer_one), (7, peer_two)],
        distance_from_validators: 1,
    });
    let encoded = encode_response(&unsorted);
    assert!(matches!(decode_response(&encoded), Err(Error::SerializationError)));
}

#[test]
fn decode_rejects_unsorted_build_information() {
    let unsorted = PeerMonitoringServiceResponse::NodeInformation(NodeInformationResponse {
        build_information: vec![
            (b"commit".to_vec(), b"abc123".to_vec()),
            (b"branch".to_vec(), b"main".to_vec()),
        ],
        highest_synced_epoch: 1,
        highest_synced_version: 1,
        ledger_timestamp_usecs: 1,
        lowest_available_version: 1,
        uptime_usecs: 1,
    });
    let encoded = encode_response(&unsorted);
    assert!(matches!(decode_response(&encoded), Err(Error::SerializationError)));
}

#[test]
fn labels_name_each_case() {
    let ping = PeerMonitoringServiceResponse::LatencyPing(LatencyPingResponse { ping_counter: 1 });
    assert_eq!(ping.get_label(), "latency_ping");
    assert_eq!(sample_network_response().get_label(), "network_information");
    assert_eq!(sample_node_response().get_label(), "node_information");
    let version = PeerMonitoringServiceResponse::ServerProtocolVersion(
        ServerProtocolVersionResponse { version: 1 },
    );
    assert_eq!(version.get_label(), "server_protocol_version");
}

#[test]
fn try_from_extracts_matching_case() {
    let ping = PeerMonitoringServiceResponse::LatencyPing(LatencyPingResponse { ping_counter: 8 });
    assert_eq!(LatencyPingResponse::try_from(ping).unwrap().ping_counter, 8);

    let network = NetworkInformationResponse::try_from(sample_network_response()).unwrap();
    assert_eq!(network.distance_from_validators, 2);
    assert_eq!(network.connected_peers.len(), 2);

    let node = NodeInformationResponse::try_from(sample_node_response()).unwrap();
    assert_eq!(node.highest_synced_epoch, 12);

    let version = PeerMonitoringServiceResponse::ServerProtocolVersion(
        ServerProtocolVersionResponse { version: 5 },
    );
    assert_eq!(ServerProtocolVersionResponse::try_from(version).unwrap().version, 5);
}

#[test]
fn try_from_rejects_wrong_case() {
    let ping = PeerMonitoringServiceResponse::LatencyPing(LatencyPingResponse { ping_counter: 8 });
    let error = NetworkInformationResponse::try_from(ping).unwrap_err();
    assert_eq!(error.0, "latency_ping");

    let error = LatencyPingResponse::try_from(sample_node_response()).unwrap_err();
    assert_eq!(error.0, "node_information");

    let error = NodeInformationResponse::try_from(sample_network_response()).unwrap_err();
    assert_eq!(error.0, "network_information");

    let version = PeerMonitoringServiceResponse::ServerProtocolVersion(
        ServerProtocolVersionResponse { version: 5 },
    );
    let error = ServerProtocolVersionResponse::try_from(sample_network_response()).unwrap_err();
    assert_eq!(error.0, "network_information");
    assert!(ServerProtocolVersionResponse::try_from(version).is_ok());
}

#[test]
fn size_check_accepts_and_rejects_around_the_ceiling() {
    let response = sample_network_response();
    let num_bytes = response.get_num_bytes().unwrap();
    assert!(peer_monitoring::response::sanity_check_response_size(num_bytes, &response).is_ok());
    let result = peer_monitoring::response::sanity_check_response_size(num_bytes - 1, &response);
    assert!(matches!(
        result,
        Err(Error::SizeLimitExceeded { num_response_bytes, max_num_response_bytes })
            if num_response_bytes == num_bytes && max_num_response_bytes == num_bytes - 1
    ));
}
