//! The protocol-version dimension: the latest server version observed.

use vstd::prelude::*;

use crate::config::PeerMonitoringServiceConfig;
use crate::request_tracker::RequestTracker;

verus! {

/// The accumulated protocol-version knowledge for one peer.
#[derive(Clone, Copy, Debug, PartialEq, Eq, Structural)]
pub struct ProtocolVersionInfoState {
    /// The latest server protocol version observed, if any.
    pub latest_server_protocol_version: Option<u64>,
    /// The request tracker of this dimension.
    pub request_tracker: RequestTracker,
}

impl ProtocolVersionInfoState {
    /// Creates the initial protocol-version state from the configuration.
    pub fn new(config: &PeerMonitoringServiceConfig) -> (state: ProtocolVersionInfoState)
        ensures
            state.latest_server_protocol_version is None,
            state.request_tracker == RequestTracker::new_spec(
                config.protocol_version_request_timeout_ms,
            ),
    {
        ProtocolVersionInfoState {
            latest_server_protocol_version: None,
            request_tracker: RequestTracker::new(config.protocol_version_request_timeout_ms),
        }
    }

    /// Stores the server protocol version and records the success.
    pub fn handle_protocol_version_response(&mut self, version: u64)
        ensures
            *final(self) == (ProtocolVersionInfoState {
                latest_server_protocol_version: Some(version),
                request_tracker: old(self).request_tracker.success_spec(),
            }),
    {
        self.latest_server_protocol_version = Some(version);
        self.request_tracker.record_success();
    }

    /// Records an error for this dimension: the failure count rises and the
    /// stored version is untouched.
    pub fn handle_request_failure(&mut self)
        ensures
            *final(self) == (ProtocolVersionInfoState {
                request_tracker: old(self).request_tracker.failure_spec(),
                ..*old(self)
            }),
    {
        self.request_tracker.record_failure();
    }

    /// The timeout for this dimension's next request.
    pub fn get_request_timeout_ms(&self) -> (timeout_ms: u64)
        ensures
            timeout_ms == self.request_tracker.timeout_for_next_request_spec(),
    {
        self.request_tracker.timeout_for_next_request()
    }
}

} // verus!
