//! Making a session: from a configuration to a client, from a client to a
//! game.
//!
//! Opening the channel and exchanging the start request are the caller's
//! work. `connect` judges what was found when the channel was opened;
//! `begin_start` hands out the one request that may be sent, and
//! `PendingStart::complete` judges what came back. `start` does both steps
//! around a channel that answers while the caller waits.

use vstd::prelude::*;
use crate::config::{ConfigModel, ConnectionConfig, GameStartRequest};
use crate::error::{ConnectError, StartError};
use crate::session::{GameSession, SessionGrant};

verus! {

/// What was found when the channel was opened and the replay folder tried.
#[derive(Clone, Copy, Debug, PartialEq, Eq, Structural)]
pub struct LinkProbe {
    /// Whether the channel to the host is open.
    pub channel_open: bool,
    /// Whether the replay folder can be written to. It counts only when a
    /// replay folder is configured.
    pub replay_dir_ready: bool,
}

/// The request that starts a game: who asks, and what is pinned.
#[derive(Clone, Debug, PartialEq, Eq)]
pub struct StartRequest {
    pub user_id: String,
    pub user_name: String,
    pub game: GameStartRequest,
}

/// What the channel produced for a start request.
#[derive(Clone, Debug, PartialEq, Eq)]
pub enum StartOutcome {
    /// The server accepted and granted a game.
    Accepted(SessionGrant),
    /// The server declined, for the reason it gave.
    Declined(String),
    /// An answer arrived that is neither a grant nor a refusal.
    Unreadable,
    /// The channel failed before an answer arrived.
    ChannelFailed,
}

/// Why `connect` fails, if it does. An invalid configuration comes first,
/// then a channel that is not open, then a replay folder that is configured
/// and not ready.
pub open spec fn connect_error(config: ConfigModel, probe: LinkProbe) -> Option<ConnectError> {
    if !config.valid() {
        Some(ConnectError::InvalidConfig)
    } else if !probe.channel_open {
        Some(ConnectError::Unreachable)
    } else if config.recording() && !probe.replay_dir_ready {
        Some(ConnectError::ReplayPathInvalid)
    } else {
        None
    }
}

/// Why a start fails, if it does. A refusal of the server is `Rejected`
/// with its reason. A failure of the channel, an answer that cannot be read
/// and a grant that describes no game are all `Transport`.
pub open spec fn start_error(outcome: StartOutcome) -> Option<StartError> {
    match outcome {
        StartOutcome::Accepted(grant) => if grant.usable() {
            None
        } else {
            Some(StartError::Transport)
        },
        StartOutcome::Declined(reason) => Some(StartError::Rejected(reason)),
        StartOutcome::Unreadable => Some(StartError::Transport),
        StartOutcome::ChannelFailed => Some(StartError::Transport),
    }
}

/// A caller with an open channel and a valid configuration, ready to start
/// one game.
#[derive(Debug)]
pub struct SessionClient {
    config: ConnectionConfig,
}

/// A start request that is in flight. It is made by
/// `SessionClient::begin_start` and used up by `complete`.
#[derive(Debug)]
pub struct PendingStart {
    recording: bool,
}

impl SessionClient {
    /// The configuration of the client.
    pub closed spec fn view(&self) -> ConfigModel {
        self.config@
    }

    /// Makes a client from a configuration and from what was found when the
    /// channel was opened. A client is made exactly when `connect_error`
    /// names no error; it holds the configuration, which is then valid.
    pub fn connect(config: ConnectionConfig, probe: LinkProbe) -> (outcome: Result<
        SessionClient,
        ConnectError,
    >)
        ensures
            match outcome {
                Ok(client) => connect_error(config@, probe) is None && client@ == config@,
                Err(error) => connect_error(config@, probe) == Some(error),
            },
    {
        match config.check() {
            Err(error) => {
                return Err(error);
            },
            Ok(_) => {},
        }
        if !probe.channel_open {
            Err(ConnectError::Unreachable)
        } else if config.records_replays() && !probe.replay_dir_ready {
            Err(ConnectError::ReplayPathInvalid)
        } else {
            Ok(SessionClient { config })
        }
    }

    /// The configuration that the client was made from.
    pub fn config(&self) -> (config: &ConnectionConfig)
        ensures
            config@ == self@,
    {
        &self.config
    }

    /// Begins the start of a game: uses the client up and hands out the
    /// request to send, which carries the identity of the caller, the level
    /// and the seed. Because the client is used up, one client sends one
    /// start request.
    pub fn begin_start(self, level: Option<i32>, seed: Option<i32>) -> (started: (
        PendingStart,
        StartRequest,
    ))
        ensures
            started.0.recording() == self@.recording(),
            started.1.user_id@ == self@.user_id,
            started.1.user_name@ == self@.user_name,
            started.1.game == (GameStartRequest { level, seed }),
    {
        let recording = self.config.records_replays();
        let request = StartRequest {
            user_id: self.config.user_id().clone(),
            user_name: self.config.user_name().clone(),
            game: GameStartRequest { level, seed },
        };
        (PendingStart { recording }, request)
    }

    /// Starts a game over a channel that answers while the caller waits:
    /// hands the one start request to `exchange` and judges its answer as
    /// `PendingStart::complete` does. `exchange` is called exactly once;
    /// nothing is tried again.
    pub fn start<F: FnOnce(StartRequest) -> StartOutcome>(
        self,
        level: Option<i32>,
        seed: Option<i32>,
        exchange: F,
    ) -> (result: Result<GameSession, StartError>)
        requires
            forall|request: StartRequest|
                {
                    &&& request.user_id@ == self@.user_id
                    &&& request.user_name@ == self@.user_name
                    &&& request.game == (GameStartRequest { level, seed })
                } ==> call_requires(exchange, (request,)),
        ensures
            exists|request: StartRequest, outcome: StartOutcome|
                {
                    &&& request.user_id@ == self@.user_id
                    &&& request.user_name@ == self@.user_name
                    &&& request.game == (GameStartRequest { level, seed })
                    &&& call_ensures(exchange, (request,), outcome)
                    &&& match result {
                        Ok(session) => {
                            &&& outcome matches StartOutcome::Accepted(grant)
                            &&& grant.usable()
                            &&& session@ == grant.opened(self@.recording())
                            &&& session@.wf()
                        },
                        Err(error) => start_error(outcome) == Some(error),
                    }
                },
    {
        let (pending, request) = self.begin_start(level, seed);
        let outcome = exchange(request);
        pending.complete(outcome)
    }
}

impl PendingStart {
    /// Whether the game, once started, records a replay.
    pub closed spec fn recording(&self) -> bool {
        self.recording
    }

    /// Judges what came back for the start request. A usable grant opens the
    /// session it describes; the seed of the session is the seed in the
    /// grant. Otherwise the error is the one that `start_error` names.
    pub fn complete(self, outcome: StartOutcome) -> (result: Result<GameSession, StartError>)
        ensures
            match result {
                Ok(session) => {
                    &&& outcome matches StartOutcome::Accepted(grant)
                    &&& grant.usable()
                    &&& session@ == grant.opened(self.recording())
                    &&& session@.wf()
                },
                Err(error) => start_error(outcome) == Some(error),
            },
    {
        match outcome {
            StartOutcome::Accepted(grant) => {
                if grant.is_usable() {
                    Ok(GameSession::open(grant, self.recording))
                } else {
                    Err(StartError::Transport)
                }
            },
            StartOutcome::Declined(reason) => Err(StartError::Rejected(reason)),
            StartOutcome::Unreadable => Err(StartError::Transport),
            StartOutcome::ChannelFailed => Err(StartError::Transport),
        }
    }
}

} // verus!
