//! Peer-health telemetry core: per-peer monitoring state machines, the
//! request-lifecycle tracker that guarantees at most one outstanding request
//! per (peer, dimension), the response wire format with deterministic
//! byte-size accounting, and the dispatch/response-handling pipeline.

pub mod codec;
pub mod config;
pub mod error;
pub mod key_value;
pub mod latency_info;
pub mod metadata;
pub mod network_info;
pub mod node_info;
pub mod peer_state;
pub mod protocol_version_info;
pub mod request;
pub mod request_tracker;
pub mod response;

