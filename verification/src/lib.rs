//! Client side of a turn-based, server-authoritative game session.
//!
//! A caller connects, starts one game, and then plays it turn by turn: it
//! sends one directed action, waits for the snapshot that the server
//! answers with, and goes on until a snapshot carries a terminal status.
//!
//! The library holds everything of this that is a decision and nothing that
//! is input or output. Each exchange with the server is cut in two: one
//! function decides whether a request goes out and makes it, another takes
//! what came back and settles the matter. Whoever owns the channel sends the
//! request between the two. For a channel that answers while the caller
//! waits, `SessionClient::start` and `GameSession::act` do both halves
//! around one call.
//!
//! - [`config`]: what a caller supplies.
//! - [`client`]: from a configuration to a client, from a client to a game.
//! - [`session`]: one game, and the exchange of one turn at a time.
//! - [`replay`]: the record of the turns of a game, and its way to storage.
//! - [`codec`]: the stored form of that record.
//! - [`answer`]: reading what arrives on the channel.
//! - [`trace`]: what holds of a session over any sequence of calls.
//! - [`action`], [`status`], [`state`], [`error`]: the vocabulary.
//! - [`settings`], [`pilot`]: integer settings from text, and a simple
//!   player.

pub mod action;
pub mod answer;
pub mod client;
pub mod codec;
pub mod config;
pub mod error;
pub mod pilot;
pub mod replay;
pub mod session;
pub mod settings;
pub mod state;
pub mod status;
pub mod trace;
