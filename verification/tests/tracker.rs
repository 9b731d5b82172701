//! Tests for the request tracker state machine.

use peer_monitoring::request_tracker::RequestTracker;

#[test]
fn fresh_tracker_is_idle() {
    let tracker = RequestTracker::new(5_000);
    assert!(!tracker.in_flight_request);
    assert_eq!(tracker.last_request_time_ms, None);
    assert_eq!(tracker.num_consecutive_failures, 0);
    assert_eq!(tracker.base_request_timeout_ms, 5_000);
}

#[test]
fn start_and_complete_toggle_the_flag() {
    let mut tracker = RequestTracker::new(5_000);
    tracker.request_started(1_234);
    assert!(tracker.in_flight_request);
    assert_eq!(tracker.last_request_time_ms, Some(1_234));
    tracker.request_completed();
    assert!(!tracker.in_flight_request);
    assert_eq!(tracker.last_request_time_ms, Some(1_234));
}

#[test]
fn failures_accumulate_and_success_resets() {
    let mut tracker = RequestTracker::new(5_000);
    tracker.record_failure();
    tracker.record_failure();
    assert_eq!(tracker.num_consecutive_failures, 2);
    tracker.record_success();
    assert_eq!(tracker.num_consecutive_failures, 0);
}

#[test]
fn failure_count_saturates() {
    let mut tracker = RequestTracker::new(5_000);
    tracker.num_consecutive_failures = u32::MAX;
    tracker.record_failure();
    assert_eq!(tracker.num_consecutive_failures, u32::MAX);
}

#[test]
fn timeout_scales_with_consecutive_failures() {
    let mut tracker = RequestTracker::new(5_000);
    assert_eq!(tracker.timeout_for_next_request(), 5_000);
    tracker.record_failure();
    assert_eq!(tracker.timeout_for_next_request(), 10_000);
    tracker.record_failure();
    assert_eq!(tracker.timeout_for_next_request(), 15_000);
}

#[test]
fn timeout_saturates_at_the_maximum() {
    let mut tracker = RequestTracker::new(u64::MAX / 2);
    tracker.record_failure();
    tracker.record_failure();
    assert_eq!(tracker.timeout_for_next_request(), u64::MAX);
}
