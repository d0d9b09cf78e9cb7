//! The typed outcomes of the three operations that can fail.

use vstd::prelude::*;

verus! {

/// Why no session client could be made.
#[derive(Clone, Copy, Debug, PartialEq, Eq, Structural)]
pub enum ConnectError {
    /// The user identifier or the user name is empty.
    InvalidConfig,
    /// The channel to the host could not be opened.
    Unreachable,
    /// A replay folder is configured and cannot be written to.
    ReplayPathInvalid,
}

/// Why no game was started.
#[derive(Clone, Debug, PartialEq, Eq)]
pub enum StartError {
    /// The server answered and declined, for the reason it gave.
    Rejected(String),
    /// The channel failed, or what it delivered cannot be read as the
    /// grant of a game.
    Transport,
}

/// What went wrong on the channel during a turn.
#[derive(Clone, Copy, Debug, PartialEq, Eq, Structural)]
pub enum TransportCause {
    /// The connection was lost or refused.
    ConnectionReset,
    /// No answer came in time.
    Timeout,
    /// Any other failure of the channel.
    Other,
}

impl TransportCause {
    /// The cause that stands for a status code of the RPC layer: 4, the
    /// deadline was exceeded, is a timeout; 14, the service is unavailable,
    /// is a lost connection; every other code is `Other`.
    pub open spec fn of_status_code(code: i32) -> TransportCause {
        if code == 4 {
            TransportCause::Timeout
        } else if code == 14 {
            TransportCause::ConnectionReset
        } else {
            TransportCause::Other
        }
    }

    /// Classifies a status code of the RPC layer.
    pub fn from_status_code(code: i32) -> (cause: TransportCause)
        ensures
            cause == TransportCause::of_status_code(code),
    {
        if code == 4 {
            TransportCause::Timeout
        } else if code == 14 {
            TransportCause::ConnectionReset
        } else {
            TransportCause::Other
        }
    }
}

/// Why a turn did not go through.
#[derive(Clone, Copy, Debug, PartialEq, Eq, Structural)]
pub enum ActError {
    /// The game is over; no request was made.
    SessionTerminated,
    /// The channel failed; the session keeps its last state.
    Transport(TransportCause),
    /// The rules of the turn exchange were broken: the clock in an answer
    /// went backwards, an answer could not be read, a turn was begun while
    /// another was in flight, or an answer was handed in with no turn in
    /// flight.
    ProtocolViolation,
}

} // verus!
