// Names for logs, integer settings, and the staircase walker.

use swoq_client::action::DirectedAction;
use swoq_client::pilot::Pilot;
use swoq_client::settings::parse_i32;
use swoq_client::state::GameState;
use swoq_client::status::GameStatus;

#[test]
fn actions_have_their_canonical_names() {
    assert_eq!(DirectedAction::MoveNorth.as_str_name(), "MOVE_NORTH");
    assert_eq!(DirectedAction::MoveEast.as_str_name(), "MOVE_EAST");
    assert_eq!(DirectedAction::MoveSouth.as_str_name(), "MOVE_SOUTH");
    assert_eq!(DirectedAction::MoveWest.as_str_name(), "MOVE_WEST");
    assert_eq!(DirectedAction::UseNorth.as_str_name(), "USE_NORTH");
    assert_eq!(DirectedAction::UseEast.as_str_name(), "USE_EAST");
    assert_eq!(DirectedAction::UseSouth.as_str_name(), "USE_SOUTH");
    assert_eq!(DirectedAction::UseWest.as_str_name(), "USE_WEST");
}

#[test]
fn statuses_have_their_canonical_names() {
    assert_eq!(GameStatus::Active.as_str_name(), "ACTIVE");
    assert_eq!(GameStatus::Finished.as_str_name(), "FINISHED");
    assert_eq!(GameStatus::Won.as_str_name(), "WON");
    assert_eq!(GameStatus::Lost.as_str_name(), "LOST");
    assert_eq!(GameStatus::Error.as_str_name(), "ERROR");
}

#[test]
fn only_active_is_active() {
    assert!(GameStatus::Active.is_active());
    for status in [GameStatus::Finished, GameStatus::Won, GameStatus::Lost, GameStatus::Error] {
        assert!(!status.is_active());
    }
}

#[test]
fn snapshot_accepts_a_clock_that_is_not_behind() {
    let now = GameState { tick: 10, status: GameStatus::Active };
    assert!(now.accepts_successor(&GameState { tick: 10, status: GameStatus::Active }));
    assert!(now.accepts_successor(&GameState { tick: 11, status: GameStatus::Lost }));
    assert!(!now.accepts_successor(&GameState { tick: 9, status: GameStatus::Active }));
    let first = GameState { tick: i32::MIN, status: GameStatus::Active };
    assert!(first.accepts_successor(&GameState { tick: i32::MIN, status: GameStatus::Active }));
    assert!(!GameState { tick: i32::MAX, status: GameStatus::Active }.accepts_successor(&first));
}

#[test]
fn parse_i32_reads_decimal_integers() {
    assert_eq!(parse_i32("0"), Some(0));
    assert_eq!(parse_i32("42"), Some(42));
    assert_eq!(parse_i32("+42"), Some(42));
    assert_eq!(parse_i32("-42"), Some(-42));
    assert_eq!(parse_i32("-0"), Some(0));
    assert_eq!(parse_i32("007"), Some(7));
    assert_eq!(parse_i32("2147483647"), Some(i32::MAX));
    assert_eq!(parse_i32("-2147483648"), Some(i32::MIN));
    assert_eq!(parse_i32("+0000000000000000000000002147483647"), Some(i32::MAX));
}

#[test]
fn parse_i32_refuses_everything_else() {
    for text in [
        "", "+", "-", "+-1", "--1", "1-", " 1", "1 ", "1_000", "0x10", "1.0", "1e3", "٣", "１",
        "2147483648", "-2147483649", "99999999999999999999999999", "-99999999999999999999999999",
        "12a", "a12", "\n5", "5\n",
    ] {
        assert_eq!(parse_i32(text), None, "{:?}", text);
    }
}

#[test]
fn parse_i32_agrees_with_the_standard_parser() {
    let samples = [
        "0", "1", "-1", "+1", "10", "-10", "0010", "-0010", "2147483646", "2147483647",
        "2147483648", "2147483649", "-2147483647", "-2147483648", "-2147483649", "4294967296",
        "", "+", "-", "++1", "-+1", "1+", "1-1", " ", " 7", "7 ", "\t7", "7a", "a7", "٣", "७",
        "9223372036854775807", "-9223372036854775808", "00000000000", "-00000000000",
        "+2147483647", "+2147483648", "1,5", "1.5", "١٢٣", "12\u{0}",
    ];
    for text in samples.iter() {
        assert_eq!(parse_i32(text), text.parse::<i32>().ok(), "{:?}", text);
    }
    for value in [-100_000, -12345, -101, -11, -9, 9, 11, 101, 12345, 100_000, 1 << 30, -(1 << 30)] {
        let text = format!("{}", value);
        assert_eq!(parse_i32(&text), Some(value));
    }
}

#[test]
fn pilot_walks_east_then_south_in_turn() {
    let mut pilot = Pilot::new();
    assert!(pilot.move_east);
    assert_eq!(pilot.peek(), DirectedAction::MoveEast);
    assert_eq!(pilot.advance(), DirectedAction::MoveEast);
    assert!(!pilot.move_east);
    assert_eq!(pilot.peek(), DirectedAction::MoveSouth);
    assert_eq!(pilot.advance(), DirectedAction::MoveSouth);
    assert_eq!(pilot.advance(), DirectedAction::MoveEast);
    assert_eq!(pilot.advance(), DirectedAction::MoveSouth);
    assert!(pilot.move_east);
}
