//! Scenario tests for the per-peer state container and the refresh
//! orchestration: construction, mutual exclusion per key, completion in
//! every branch, response validation, and metadata extraction.

use peer_monitoring::config::PeerMonitoringServiceConfig;
use peer_monitoring::error::Error;
use peer_monitoring::error::TransportError;
use peer_monitoring::key_value::PeerStateKey;
use peer_monitoring::peer_state::get_request_jitter_ms;
use peer_monitoring::peer_state::PeerState;
use peer_monitoring::peer_state::RefreshOutcome;
use peer_monitoring::request::MonitoringServiceRequest;
use peer_monitoring::response::LatencyPingResponse;
use peer_monitoring::response::NetworkInformationResponse;
use peer_monitoring::response::NodeInformationResponse;
use peer_monitoring::response::PeerMonitoringServiceResponse;
use peer_monitoring::response::ServerProtocolVersionResponse;

fn test_config() -> PeerMonitoringServiceConfig {
    PeerMonitoringServiceConfig { max_request_jitter_ms: 0, ..Default::default() }
}

fn all_keys() -> Vec<PeerStateKey> {
    PeerStateKey::get_all_keys()
}

#[test]
fn fresh_peer_state_has_one_idle_tracker_per_dimension() {
    let peer_state = PeerState::new(&test_config());
    let keys = all_keys();
    assert_eq!(keys.len(), 4);
    assert_eq!(peer_state.state_entries.len(), keys.len());
    for key in keys {
        let tracker = peer_state.get_request_tracker(&key).unwrap();
        assert!(!tracker.in_flight_request);
        assert_eq!(tracker.last_request_time_ms, None);
        assert_eq!(tracker.num_consecutive_failures, 0);
    }
}

#[test]
fn get_request_tracker_fails_on_a_malformed_container() {
    let peer_state = PeerState { state_entries: Vec::new() };
    let result = peer_state.get_request_tracker(&PeerStateKey::LatencyInfo);
    assert!(matches!(result, Err(Error::NotFound)));
    assert!(matches!(peer_state.get_latency_info_state(), Err(Error::NotFound)));
    assert!(matches!(peer_state.extract_peer_monitoring_metadata(), Err(Error::NotFound)));
}

#[test]
fn refresh_marks_the_key_busy_and_builds_the_request() {
    let config = test_config();
    let mut peer_state = PeerState::new(&config);
    let prepared = peer_state
        .refresh_peer_state_key(&config, PeerStateKey::LatencyInfo, 1_000)
        .unwrap();
    match prepared.request {
        MonitoringServiceRequest::LatencyPing(ping) => assert_eq!(ping.ping_counter, 1),
        other => panic!("expected a latency ping request, got {:?}", other),
    }
    assert_eq!(prepared.request_timeout_ms, config.latency_ping_timeout_ms);
    assert_eq!(prepared.request_jitter_ms, 0);
    let tracker = peer_state.get_request_tracker(&PeerStateKey::LatencyInfo).unwrap();
    assert!(tracker.in_flight_request);
    assert_eq!(tracker.last_request_time_ms, Some(1_000));
}

#[test]
fn second_refresh_of_a_busy_key_is_refused() {
    let config = test_config();
    let mut peer_state = PeerState::new(&config);
    let mut dispatched_requests = 0;
    if peer_state.refresh_peer_state_key(&config, PeerStateKey::LatencyInfo, 1_000).is_ok() {
        dispatched_requests += 1;
    }
    match peer_state.refresh_peer_state_key(&config, PeerStateKey::LatencyInfo, 1_001) {
        Err(Error::RequestAlreadyInFlight) => {},
        other => panic!("expected the busy key to be refused, got {:?}", other),
    }
    assert_eq!(dispatched_requests, 1);
    let tracker = peer_state.get_request_tracker(&PeerStateKey::LatencyInfo).unwrap();
    assert_eq!(tracker.last_request_time_ms, Some(1_000));
}

#[test]
fn independent_keys_refresh_concurrently() {
    let config = test_config();
    let mut peer_state = PeerState::new(&config);
    assert!(peer_state.refresh_peer_state_key(&config, PeerStateKey::LatencyInfo, 1).is_ok());
    assert!(peer_state.refresh_peer_state_key(&config, PeerStateKey::NetworkInfo, 2).is_ok());
    assert!(peer_state.refresh_peer_state_key(&config, PeerStateKey::NodeInfo, 3).is_ok());
    assert!(peer_state.refresh_peer_state_key(&config, PeerStateKey::ProtocolVersion, 4).is_ok());
}

#[test]
fn matching_latency_response_records_a_sample() {
    let config = test_config();
    let mut peer_state = PeerState::new(&config);
    let prepared = peer_state
        .refresh_peer_state_key(&config, PeerStateKey::LatencyInfo, 1_000)
        .unwrap();
    let response =
        PeerMonitoringServiceResponse::LatencyPing(LatencyPingResponse { ping_counter: 1 });
    let outcome = peer_state.handle_refresh_result(
        PeerStateKey::LatencyInfo,
        config.max_num_response_bytes,
        &prepared.request,
        Ok(response),
        250,
    );
    assert_eq!(outcome, RefreshOutcome::ResponseProcessed);
    assert!(outcome.emits_latency_metric());
    let tracker = peer_state.get_request_tracker(&PeerStateKey::LatencyInfo).unwrap();
    assert!(!tracker.in_flight_request);
    assert_eq!(tracker.num_consecutive_failures, 0);
    let metadata = peer_state.extract_peer_monitoring_metadata().unwrap();
    assert_eq!(metadata.average_ping_latency_usecs, Some(250));
}

#[test]
fn mismatched_ping_counter_is_an_error_not_a_sample() {
    let config = test_config();
    let mut peer_state = PeerState::new(&config);
    let prepared = peer_state
        .refresh_peer_state_key(&config, PeerStateKey::LatencyInfo, 1_000)
        .unwrap();
    let response =
        PeerMonitoringServiceResponse::LatencyPing(LatencyPingResponse { ping_counter: 77 });
    let outcome = peer_state.handle_refresh_result(
        PeerStateKey::LatencyInfo,
        config.max_num_response_bytes,
        &prepared.request,
        Ok(response),
        250,
    );
    assert_eq!(outcome, RefreshOutcome::ResponseProcessed);
    let tracker = peer_state.get_request_tracker(&PeerStateKey::LatencyInfo).unwrap();
    assert!(!tracker.in_flight_request);
    assert_eq!(tracker.num_consecutive_failures, 1);
    let metadata = peer_state.extract_peer_monitoring_metadata().unwrap();
    assert_eq!(metadata.average_ping_latency_usecs, None);
}

#[test]
fn wrong_union_case_is_an_error() {
    let config = test_config();
    let mut peer_state = PeerState::new(&config);
    let prepared = peer_state
        .refresh_peer_state_key(&config, PeerStateKey::NetworkInfo, 1_000)
        .unwrap();
    let response = PeerMonitoringServiceResponse::ServerProtocolVersion(
        ServerProtocolVersionResponse { version: 1 },
    );
    let outcome = peer_state.handle_refresh_result(
        PeerStateKey::NetworkInfo,
        config.max_num_response_bytes,
        &prepared.request,
        Ok(response),
        100,
    );
    assert_eq!(outcome, RefreshOutcome::ResponseProcessed);
    let tracker = peer_state.get_request_tracker(&PeerStateKey::NetworkInfo).unwrap();
    assert!(!tracker.in_flight_request);
    assert_eq!(tracker.num_consecutive_failures, 1);
    let metadata = peer_state.extract_peer_monitoring_metadata().unwrap();
    assert!(metadata.latest_network_info_response.is_none());
}

#[test]
fn transport_timeout_leaves_the_tracker_idle_with_one_failure() {
    let config = test_config();
    let mut peer_state = PeerState::new(&config);
    let prepared = peer_state
        .refresh_peer_state_key(&config, PeerStateKey::LatencyInfo, 1_000)
        .unwrap();
    let outcome = peer_state.handle_refresh_result(
        PeerStateKey::LatencyInfo,
        config.max_num_response_bytes,
        &prepared.request,
        Err(TransportError::Timeout),
        0,
    );
    assert_eq!(outcome, RefreshOutcome::TransportFailure);
    assert!(!outcome.emits_latency_metric());
    let tracker = peer_state.get_request_tracker(&PeerStateKey::LatencyInfo).unwrap();
    assert!(!tracker.in_flight_request);
    assert_eq!(tracker.num_consecutive_failures, 1);
    let metadata = peer_state.extract_peer_monitoring_metadata().unwrap();
    assert_eq!(metadata.average_ping_latency_usecs, None);
}

#[test]
fn oversized_response_is_rejected_without_touching_knowledge() {
    let config = test_config();
    let mut peer_state = PeerState::new(&config);
    let prepared = peer_state
        .refresh_peer_state_key(&config, PeerStateKey::LatencyInfo, 1_000)
        .unwrap();
    let response =
        PeerMonitoringServiceResponse::LatencyPing(LatencyPingResponse { ping_counter: 1 });
    let ceiling = response.get_num_bytes().unwrap() - 1;
    let outcome = peer_state.handle_refresh_result(
        PeerStateKey::LatencyInfo,
        ceiling,
        &prepared.request,
        Ok(response),
        250,
    );
    assert_eq!(outcome, RefreshOutcome::ResponseTooLarge);
    assert!(!outcome.emits_latency_metric());
    let tracker = peer_state.get_request_tracker(&PeerStateKey::LatencyInfo).unwrap();
    assert!(!tracker.in_flight_request);
    assert_eq!(tracker.num_consecutive_failures, 1);
    let metadata = peer_state.extract_peer_monitoring_metadata().unwrap();
    assert_eq!(metadata.average_ping_latency_usecs, None);
}

#[test]
fn completed_key_can_be_refreshed_again() {
    let config = test_config();
    let mut peer_state = PeerState::new(&config);
    let prepared = peer_state
        .refresh_peer_state_key(&config, PeerStateKey::LatencyInfo, 1_000)
        .unwrap();
    peer_state.handle_refresh_result(
        PeerStateKey::LatencyInfo,
        config.max_num_response_bytes,
        &prepared.request,
        Err(TransportError::Disconnected),
        0,
    );
    let prepared = peer_state
        .refresh_peer_state_key(&config, PeerStateKey::LatencyInfo, 2_000)
        .unwrap();
    match prepared.request {
        MonitoringServiceRequest::LatencyPing(ping) => assert_eq!(ping.ping_counter, 2),
        other => panic!("expected a latency ping request, got {:?}", other),
    }
    assert_eq!(prepared.request_timeout_ms, 2 * config.latency_ping_timeout_ms);
}

#[test]
fn successful_responses_fill_the_metadata_snapshot() {
    let config = test_config();
    let mut peer_state = PeerState::new(&config);

    let prepared = peer_state
        .refresh_peer_state_key(&config, PeerStateKey::NetworkInfo, 1)
        .unwrap();
    let network = NetworkInformationResponse {
        connected_peers: Vec::new(),
        distance_from_validators: 3,
    };
    peer_state.handle_refresh_result(
        PeerStateKey::NetworkInfo,
        config.max_num_response_bytes,
        &prepared.request,
        Ok(PeerMonitoringServiceResponse::NetworkInformation(network.clone())),
        10,
    );

    let prepared = peer_state.refresh_peer_state_key(&config, PeerStateKey::NodeInfo, 2).unwrap();
    let node = NodeInformationResponse {
        build_information: vec![(b"branch".to_vec(), b"main".to_vec())],
        highest_synced_epoch: 4,
        highest_synced_version: 400,
        ledger_timestamp_usecs: 5,
        lowest_available_version: 1,
        uptime_usecs: 6,
    };
    peer_state.handle_refresh_result(
        PeerStateKey::NodeInfo,
        config.max_num_response_bytes,
        &prepared.request,
        Ok(PeerMonitoringServiceResponse::NodeInformation(node.clone())),
        10,
    );

    let metadata = peer_state.extract_peer_monitoring_metadata().unwrap();
    assert_eq!(metadata.latest_network_info_response, Some(network));
    assert_eq!(metadata.latest_node_info_response, Some(node));
    assert_eq!(metadata.average_ping_latency_usecs, None);
}

#[test]
fn average_latency_covers_the_recorded_window() {
    let config = PeerMonitoringServiceConfig {
        max_request_jitter_ms: 0,
        max_num_latency_pings_to_retain: 2,
        ..Default::default()
    };
    let mut peer_state = PeerState::new(&config);
    for (counter, duration) in [(1u64, 100u64), (2, 200), (3, 600)] {
        let prepared = peer_state
            .refresh_peer_state_key(&config, PeerStateKey::LatencyInfo, counter)
            .unwrap();
        let response = PeerMonitoringServiceResponse::LatencyPing(LatencyPingResponse {
            ping_counter: counter,
        });
        let outcome = peer_state.handle_refresh_result(
            PeerStateKey::LatencyInfo,
            config.max_num_response_bytes,
            &prepared.request,
            Ok(response),
            duration,
        );
        assert_eq!(outcome, RefreshOutcome::ResponseProcessed);
    }
    let latency_state = peer_state.get_latency_info_state().unwrap();
    assert_eq!(latency_state.recorded_latency_ping_durations_usecs, vec![200, 600]);
    let metadata = peer_state.extract_peer_monitoring_metadata().unwrap();
    assert_eq!(metadata.average_ping_latency_usecs, Some(400));
}

#[test]
fn jitter_is_zero_without_a_bound_and_bounded_otherwise() {
    assert_eq!(get_request_jitter_ms(0), 0);
    for _ in 0..32 {
        assert!(get_request_jitter_ms(5) < 5);
    }
}

#[test]
fn protocol_version_response_is_recorded() {
    let config = test_config();
    let mut peer_state = PeerState::new(&config);
    let prepared = peer_state
        .refresh_peer_state_key(&config, PeerStateKey::ProtocolVersion, 1)
        .unwrap();
    assert!(matches!(prepared.request, MonitoringServiceRequest::GetServerProtocolVersion));
    let outcome = peer_state.handle_refresh_result(
        PeerStateKey::ProtocolVersion,
        config.max_num_response_bytes,
        &prepared.request,
        Ok(PeerMonitoringServiceResponse::ServerProtocolVersion(ServerProtocolVersionResponse {
            version: 7,
        })),
        10,
    );
    assert_eq!(outcome, RefreshOutcome::ResponseProcessed);
    let tracker = peer_state.get_request_tracker(&PeerStateKey::ProtocolVersion).unwrap();
    assert!(!tracker.in_flight_request);
    assert_eq!(tracker.num_consecutive_failures, 0);
}
