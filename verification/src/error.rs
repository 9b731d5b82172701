//! Error taxonomy of the monitoring core.

use vstd::prelude::*;

verus! {

/// Errors raised by the monitoring core itself.
#[derive(Clone, Copy, Debug, PartialEq, Eq, Structural)]
pub enum Error {
    /// A requested dimension is absent from a peer's state map. This signals
    /// a construction bug: the map is built with the full key set.
    NotFound,
    /// A refresh was requested for a key that already has a request in
    /// flight; the new request is refused so that at most one request per
    /// (peer, dimension) is ever outstanding.
    RequestAlreadyInFlight,
    /// A response did not match the shape the outstanding request expects
    /// (wrong union case, or an embedded counter that disagrees).
    ResponseMismatch,
    /// A serialized response exceeded the configured byte ceiling.
    SizeLimitExceeded { num_response_bytes: u64, max_num_response_bytes: u64 },
    /// A byte string could not be decoded as a response.
    SerializationError,
}

/// Errors reported by the transport collaborator that delivers a request to
/// a remote peer. All of them are recoverable: they are recorded as a
/// tracker failure and never poison shared state.
#[derive(Clone, Copy, Debug, PartialEq, Eq, Structural)]
pub enum TransportError {
    /// The request did not complete within its timeout.
    Timeout,
    /// The connection to the peer was lost.
    Disconnected,
    /// Any other transport or protocol failure.
    Other,
}

} // verus!
