//! How sessions end.

use vstd::prelude::*;

verus! {

/// How a peer broke the protocol.
#[derive(Clone, Copy, Debug, PartialEq, Eq, Structural)]
pub enum ProtocolViolation {
    /// The first frame was not a protocol version.
    VersionExpected,
    /// The client speaks another version than the relay.
    VersionMismatch,
    /// The second frame did not say what the client is.
    IdentityExpected,
    /// A consumer sent something other than a ping.
    PingExpected,
    /// The relay sent a publisher something other than a pong.
    PongExpected,
    /// The relay sent a consumer a frame that is no message.
    Malformed,
}

/// Why a session failed.
#[derive(Clone, Copy, Debug, PartialEq, Eq, Structural)]
pub enum SessionError {
    /// The transport failed, or ended before the handshake was done.
    Transport,
    /// The peer broke the protocol.
    Protocol(ProtocolViolation),
    /// The peer was silent for too long.
    LivenessTimeout,
}

/// How a session came to its end.
#[derive(Clone, Copy, Debug, PartialEq, Eq, Structural)]
pub enum Outcome {
    /// The peer closed the connection, and nothing was wrong.
    Ended,
    Failed(SessionError),
}

} // verus!
