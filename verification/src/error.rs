//! The closed set of errors a connection lifecycle can surface.

use vstd::prelude::*;

verus! {

/// Everything that can go wrong while driving one connection lifecycle.
///
/// Each variant corresponds to one stage of the main flow: endpoint
/// validation, the handshake, writing a frame, reading a frame (reported
/// from inside the read task), and joining the read task.
#[derive(Clone, Copy, Debug, PartialEq, Eq, Structural)]
pub enum ClientError {
    /// The endpoint string is not a valid URL with a `ws` or `wss` scheme.
    MalformedEndpoint,
    /// The handshake failed or the host is unreachable.
    ConnectionError,
    /// Writing a frame (the greeting or the close frame) failed.
    SendError,
    /// A transport-level failure while reading a frame.
    ReceiveError,
    /// The read task did not terminate normally.
    JoinError,
}

impl ClientError {
    /// A short human-readable description of the error.
    pub fn message(&self) -> (r: &'static str)
        ensures
            *self == ClientError::MalformedEndpoint ==> r@ == "malformed endpoint"@,
            *self == ClientError::ConnectionError ==> r@ == "connection failed"@,
            *self == ClientError::SendError ==> r@ == "failed to send a frame"@,
            *self == ClientError::ReceiveError ==> r@ == "failed to receive a frame"@,
            *self == ClientError::JoinError ==> r@ == "read task failed"@,
    {
        match self {
            ClientError::MalformedEndpoint => "malformed endpoint",
            ClientError::ConnectionError => "connection failed",
            ClientError::SendError => "failed to send a frame",
            ClientError::ReceiveError => "failed to receive a frame",
            ClientError::JoinError => "read task failed",
        }
    }
}

} // verus!
