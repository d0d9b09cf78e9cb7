// Making a client and starting a game.

use swoq_client::client::{LinkProbe, SessionClient, StartOutcome, StartRequest};
use swoq_client::config::{ConnectionConfig, GameStartRequest};
use swoq_client::error::{ConnectError, StartError};
use swoq_client::session::SessionGrant;
use swoq_client::state::GameState;
use swoq_client::status::GameStatus;

fn config(user_id: &str, user_name: &str, folder: Option<&str>) -> ConnectionConfig {
    ConnectionConfig::new(
        user_id.to_string(),
        user_name.to_string(),
        "game.example:5009".to_string(),
        folder.map(|f| f.to_string()),
    )
}

fn probe(channel_open: bool, replay_dir_ready: bool) -> LinkProbe {
    LinkProbe { channel_open, replay_dir_ready }
}

fn error_of(config: ConnectionConfig, probe: LinkProbe) -> Option<ConnectError> {
    SessionClient::connect(config, probe).err()
}

fn grant(map_height: i32, map_width: i32, visibility_range: i32) -> SessionGrant {
    SessionGrant {
        game_id: "g-9".to_string(),
        seed: 99,
        map_height,
        map_width,
        visibility_range,
        state: GameState { tick: 0, status: GameStatus::Active },
    }
}

fn pending() -> swoq_client::client::PendingStart {
    SessionClient::connect(config("u", "n", None), probe(true, false)).unwrap().begin_start(None, None).0
}

#[test]
fn config_keeps_what_it_is_given() {
    let c = config("user-1", "Ada", Some("/var/replays"));
    assert_eq!(c.user_id(), "user-1");
    assert_eq!(c.user_name(), "Ada");
    assert_eq!(c.host(), "game.example:5009");
    assert_eq!(c.endpoint(), "http://game.example:5009");
    assert_eq!(c.replays_folder(), &Some("/var/replays".to_string()));
    assert!(c.records_replays());
    assert_eq!(c.check(), Ok(()));

    let plain = config("user-1", "Ada", None);
    assert_eq!(plain.replays_folder(), &None);
    assert!(!plain.records_replays());
}

#[test]
fn empty_identity_is_an_invalid_config() {
    assert_eq!(config("", "Ada", None).check(), Err(ConnectError::InvalidConfig));
    assert_eq!(config("user-1", "", None).check(), Err(ConnectError::InvalidConfig));
    assert_eq!(config("", "", None).check(), Err(ConnectError::InvalidConfig));
    assert_eq!(error_of(config("", "Ada", None), probe(true, true)), Some(ConnectError::InvalidConfig));
    assert_eq!(error_of(config("user-1", "", None), probe(true, true)), Some(ConnectError::InvalidConfig));
    // An invalid configuration comes before anything the probe says.
    assert_eq!(
        error_of(config("", "Ada", Some("/r")), probe(false, false)),
        Some(ConnectError::InvalidConfig)
    );
}

#[test]
fn closed_channel_is_unreachable() {
    assert_eq!(error_of(config("u", "n", None), probe(false, true)), Some(ConnectError::Unreachable));
    assert_eq!(
        error_of(config("u", "n", Some("/r")), probe(false, false)),
        Some(ConnectError::Unreachable)
    );
}

#[test]
fn unready_replay_folder_is_an_invalid_replay_path() {
    assert_eq!(
        error_of(config("u", "n", Some("/r")), probe(true, false)),
        Some(ConnectError::ReplayPathInvalid)
    );
}

#[test]
fn replay_folder_counts_only_when_configured() {
    assert_eq!(error_of(config("u", "n", None), probe(true, false)), None);
    assert_eq!(error_of(config("u", "n", Some("/r")), probe(true, true)), None);
}

#[test]
fn client_holds_its_config() {
    let client = SessionClient::connect(config("u", "n", Some("/r")), probe(true, true)).unwrap();
    assert_eq!(client.config(), &config("u", "n", Some("/r")));
}

#[test]
fn start_request_carries_identity_level_and_seed() {
    let client = SessionClient::connect(config("user-1", "Ada", None), probe(true, false)).unwrap();
    let (_pending, request) = client.begin_start(Some(5), Some(-3));
    assert_eq!(
        request,
        StartRequest {
            user_id: "user-1".to_string(),
            user_name: "Ada".to_string(),
            game: GameStartRequest { level: Some(5), seed: Some(-3) },
        }
    );

    let client = SessionClient::connect(config("user-1", "Ada", None), probe(true, false)).unwrap();
    let (_pending, request) = client.begin_start(None, None);
    assert_eq!(request.game, GameStartRequest { level: None, seed: None });
}

#[test]
fn declined_start_is_rejected_with_the_reason() {
    let result = pending().complete(StartOutcome::Declined("unknown level".to_string()));
    assert_eq!(result.err(), Some(StartError::Rejected("unknown level".to_string())));
}

#[test]
fn failed_channel_is_a_transport_error() {
    let result = pending().complete(StartOutcome::ChannelFailed);
    assert_eq!(result.err(), Some(StartError::Transport));
}

#[test]
fn grant_without_a_map_is_a_transport_error() {
    for bad in [grant(0, 5, 1), grant(5, 0, 1), grant(-1, 5, 1), grant(5, 5, -1)] {
        assert!(!bad.is_usable());
        let result = pending().complete(StartOutcome::Accepted(bad));
        assert_eq!(result.err(), Some(StartError::Transport));
    }
}

#[test]
fn smallest_usable_grant_opens_a_session() {
    let smallest = grant(1, 1, 0);
    assert!(smallest.is_usable());
    let session = pending().complete(StartOutcome::Accepted(smallest)).unwrap();
    assert_eq!(session.map_height(), 1);
    assert_eq!(session.map_width(), 1);
    assert_eq!(session.visibility_range(), 0);
    assert_eq!(session.seed(), 99);
    assert_eq!(session.game_id(), "g-9");
    assert_eq!(session.replay_file_name(), "g-9.replay");
    assert_eq!(session.pending_action(), None);
    assert!(session.is_active());
}

#[test]
fn recording_follows_the_config() {
    let with = SessionClient::connect(config("u", "n", Some("/r")), probe(true, true))
        .unwrap()
        .begin_start(None, None)
        .0
        .complete(StartOutcome::Accepted(grant(2, 2, 1)))
        .unwrap();
    assert!(with.replay().is_enabled());
    let without = pending().complete(StartOutcome::Accepted(grant(2, 2, 1))).unwrap();
    assert!(!without.replay().is_enabled());
}
