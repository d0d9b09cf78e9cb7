// Reading what arrives on the channel.

use swoq_client::answer::{
    read_start_answer, read_state, read_status, read_turn_answer, StartAnswer, StateAnswer,
};
use swoq_client::client::{LinkProbe, SessionClient, StartOutcome};
use swoq_client::config::ConnectionConfig;
use swoq_client::error::StartError;
use swoq_client::session::{SessionGrant, TurnOutcome};
use swoq_client::state::GameState;
use swoq_client::status::GameStatus;

fn full_answer() -> StartAnswer {
    StartAnswer {
        declined: None,
        game_id: Some("g-5".to_string()),
        seed: Some(42),
        map_height: Some(10),
        map_width: Some(20),
        visibility_range: Some(4),
        state: Some(StateAnswer { tick: 0, status: 0 }),
    }
}

fn full_grant() -> SessionGrant {
    SessionGrant {
        game_id: "g-5".to_string(),
        seed: 42,
        map_height: 10,
        map_width: 20,
        visibility_range: 4,
        state: GameState { tick: 0, status: GameStatus::Active },
    }
}

#[test]
fn status_numbers_are_the_status_codes() {
    assert_eq!(read_status(0), Some(GameStatus::Active));
    assert_eq!(read_status(1), Some(GameStatus::Finished));
    assert_eq!(read_status(2), Some(GameStatus::Won));
    assert_eq!(read_status(3), Some(GameStatus::Lost));
    assert_eq!(read_status(4), Some(GameStatus::Error));
    for number in [-1, 5, 6, 255, 256, 257, 260, i32::MAX, i32::MIN] {
        assert_eq!(read_status(number), None);
    }
}

#[test]
fn snapshot_is_read_when_its_status_is_one() {
    assert_eq!(
        read_state(StateAnswer { tick: -7, status: 3 }),
        Some(GameState { tick: -7, status: GameStatus::Lost })
    );
    assert_eq!(read_state(StateAnswer { tick: 1, status: 5 }), None);
    assert_eq!(read_state(StateAnswer { tick: 1, status: 256 }), None);
}

#[test]
fn turn_answer_is_a_reply_or_unreadable() {
    assert_eq!(
        read_turn_answer(Some(StateAnswer { tick: 12, status: 2 })),
        TurnOutcome::Reply(GameState { tick: 12, status: GameStatus::Won })
    );
    assert_eq!(read_turn_answer(Some(StateAnswer { tick: 12, status: 9 })), TurnOutcome::Unreadable);
    assert_eq!(read_turn_answer(Some(StateAnswer { tick: 12, status: -1 })), TurnOutcome::Unreadable);
    assert_eq!(read_turn_answer(None), TurnOutcome::Unreadable);
}

#[test]
fn complete_start_answer_is_a_grant() {
    assert_eq!(read_start_answer(full_answer()), StartOutcome::Accepted(full_grant()));
}

#[test]
fn reason_for_declining_makes_a_refusal() {
    let declined = StartAnswer { declined: Some("busy".to_string()), ..full_answer() };
    assert_eq!(read_start_answer(declined), StartOutcome::Declined("busy".to_string()));
    let bare = StartAnswer {
        declined: Some("".to_string()),
        game_id: None,
        seed: None,
        map_height: None,
        map_width: None,
        visibility_range: None,
        state: None,
    };
    assert_eq!(read_start_answer(bare), StartOutcome::Declined("".to_string()));
}

#[test]
fn start_answer_with_a_gap_is_unreadable() {
    let gaps = [
        StartAnswer { game_id: None, ..full_answer() },
        StartAnswer { seed: None, ..full_answer() },
        StartAnswer { map_height: None, ..full_answer() },
        StartAnswer { map_width: None, ..full_answer() },
        StartAnswer { visibility_range: None, ..full_answer() },
        StartAnswer { state: None, ..full_answer() },
        StartAnswer { state: Some(StateAnswer { tick: 0, status: 77 }), ..full_answer() },
    ];
    for answer in gaps {
        assert_eq!(read_start_answer(answer), StartOutcome::Unreadable);
    }
}

#[test]
fn unreadable_start_is_a_transport_error() {
    let config = ConnectionConfig::new("u".to_string(), "n".to_string(), "h".to_string(), None);
    let client =
        SessionClient::connect(config, LinkProbe { channel_open: true, replay_dir_ready: false })
            .unwrap();
    let (pending, _request) = client.begin_start(None, None);
    let outcome = read_start_answer(StartAnswer { seed: None, ..full_answer() });
    assert_eq!(pending.complete(outcome).err(), Some(StartError::Transport));
}

#[test]
fn grant_read_from_an_answer_opens_the_session_it_describes() {
    let config = ConnectionConfig::new("u".to_string(), "n".to_string(), "h".to_string(), None);
    let client =
        SessionClient::connect(config, LinkProbe { channel_open: true, replay_dir_ready: false })
            .unwrap();
    let (pending, _request) = client.begin_start(None, Some(42));
    let session = pending.complete(read_start_answer(full_answer())).unwrap();
    assert_eq!(session.seed(), 42);
    assert_eq!(session.game_id(), "g-5");
    assert_eq!(session.map_height(), 10);
    assert_eq!(session.map_width(), 20);
    assert_eq!(session.visibility_range(), 4);
    assert_eq!(session.state(), GameState { tick: 0, status: GameStatus::Active });
}
