//! What a caller supplies to reach a server and to start a game.

use vstd::prelude::*;
use vstd::string::StringExecFns;
use crate::error::ConnectError;

verus! {

/// The mathematical content of a `ConnectionConfig`.
pub struct ConfigModel {
    pub user_id: Seq<char>,
    pub user_name: Seq<char>,
    pub host: Seq<char>,
    pub replays_folder: Option<Seq<char>>,
}

impl ConfigModel {
    /// A configuration is valid when both identity fields are non-empty.
    pub open spec fn valid(self) -> bool {
        self.user_id.len() > 0 && self.user_name.len() > 0
    }

    /// The address that the channel is opened to.
    pub open spec fn endpoint(self) -> Seq<char> {
        "http://"@ + self.host
    }

    /// Recording is enabled exactly when a replay folder is configured.
    pub open spec fn recording(self) -> bool {
        self.replays_folder is Some
    }
}

/// The view of an optional string.
pub open spec fn optional_text(text: Option<String>) -> Option<Seq<char>> {
    match text {
        Some(s) => Some(s@),
        None => None,
    }
}

/// Identity of the caller, address of the server and, optionally, the folder
/// that replays go to. Nothing changes it once it is made.
#[derive(Clone, Debug, PartialEq, Eq)]
pub struct ConnectionConfig {
    user_id: String,
    user_name: String,
    host: String,
    replays_folder: Option<String>,
}

impl ConnectionConfig {
    /// The content of the configuration.
    pub closed spec fn view(&self) -> ConfigModel {
        ConfigModel {
            user_id: self.user_id@,
            user_name: self.user_name@,
            host: self.host@,
            replays_folder: optional_text(self.replays_folder),
        }
    }

    /// Collects the four settings as they are given.
    pub fn new(
        user_id: String,
        user_name: String,
        host: String,
        replays_folder: Option<String>,
    ) -> (config: ConnectionConfig)
        ensures
            config@ == (ConfigModel {
                user_id: user_id@,
                user_name: user_name@,
                host: host@,
                replays_folder: optional_text(replays_folder),
            }),
    {
        ConnectionConfig { user_id, user_name, host, replays_folder }
    }

    /// Fails with `InvalidConfig` exactly when an identity field is empty.
    pub fn check(&self) -> (outcome: Result<(), ConnectError>)
        ensures
            outcome == (if self@.valid() {
                Ok::<(), ConnectError>(())
            } else {
                Err(ConnectError::InvalidConfig)
            }),
    {
        if self.user_id.as_str().is_empty() || self.user_name.as_str().is_empty() {
            Err(ConnectError::InvalidConfig)
        } else {
            Ok(())
        }
    }

    /// The identifier of the user.
    pub fn user_id(&self) -> (text: &String)
        ensures
            text@ == self@.user_id,
    {
        &self.user_id
    }

    /// The display name of the user.
    pub fn user_name(&self) -> (text: &String)
        ensures
            text@ == self@.user_name,
    {
        &self.user_name
    }

    /// The address of the server.
    pub fn host(&self) -> (text: &String)
        ensures
            text@ == self@.host,
    {
        &self.host
    }

    /// The address that the channel is opened to: the host, as a plain
    /// `http` address.
    pub fn endpoint(&self) -> (address: String)
        ensures
            address@ == self@.endpoint(),
    {
        String::from_str("http://").concat(self.host.as_str())
    }

    /// The folder that replays go to, if recording is wanted.
    pub fn replays_folder(&self) -> (folder: &Option<String>)
        ensures
            optional_text(*folder) == self@.replays_folder,
    {
        &self.replays_folder
    }

    /// Whether recording is wanted.
    pub fn records_replays(&self) -> (wanted: bool)
        ensures
            wanted == self@.recording(),
    {
        self.replays_folder.is_some()
    }
}

/// What a caller may pin when it starts a game. An absent level lets the
/// server follow its own progression; an absent seed lets it choose one.
#[derive(Clone, Copy, Debug, PartialEq, Eq, Structural)]
pub struct GameStartRequest {
    pub level: Option<i32>,
    pub seed: Option<i32>,
}

} // verus!
