//! Configuration surface consumed by the monitoring core.

use vstd::prelude::*;

verus! {

/// The tunables the monitoring core reads: jitter and size ceilings plus the
/// per-dimension base request timeouts and the latency sample window.
#[derive(Clone, Copy, Debug, PartialEq, Eq, Structural)]
pub struct PeerMonitoringServiceConfig {
    /// Upper bound (exclusive, when positive) on the random pre-send delay.
    pub max_request_jitter_ms: u64,
    /// Maximum number of bytes a serialized response may hold.
    pub max_num_response_bytes: u64,
    /// Base timeout for latency ping requests.
    pub latency_ping_timeout_ms: u64,
    /// Base timeout for network information requests.
    pub network_info_request_timeout_ms: u64,
    /// Base timeout for node information requests.
    pub node_info_request_timeout_ms: u64,
    /// Base timeout for protocol version requests.
    pub protocol_version_request_timeout_ms: u64,
    /// How many of the most recent latency samples are retained.
    pub max_num_latency_pings_to_retain: u64,
}

impl Default for PeerMonitoringServiceConfig {
    /// A default configuration with moderate timeouts and ceilings.
    fn default() -> (config: Self)
        ensures
            config.max_request_jitter_ms == 1000,
            config.max_num_response_bytes == 100_000,
            config.latency_ping_timeout_ms == 10_000,
            config.network_info_request_timeout_ms == 10_000,
            config.node_info_request_timeout_ms == 10_000,
            config.protocol_version_request_timeout_ms == 10_000,
            config.max_num_latency_pings_to_retain == 10,
    {
        PeerMonitoringServiceConfig {
            max_request_jitter_ms: 1000,
            max_num_response_bytes: 100_000,
            latency_ping_timeout_ms: 10_000,
            network_info_request_timeout_ms: 10_000,
            node_info_request_timeout_ms: 10_000,
            protocol_version_request_timeout_ms: 10_000,
            max_num_latency_pings_to_retain: 10,
        }
    }
}

} // verus!
