// The stored form of replay entries.

use swoq_client::action::DirectedAction;
use swoq_client::codec::{decode_entry, decode_log, encode_entry, encode_log, write_entry, RECORD_LEN};
use swoq_client::replay::ReplayEntry;
use swoq_client::state::GameState;
use swoq_client::status::GameStatus;

const ACTIONS: [DirectedAction; 8] = [
    DirectedAction::MoveNorth,
    DirectedAction::MoveEast,
    DirectedAction::MoveSouth,
    DirectedAction::MoveWest,
    DirectedAction::UseNorth,
    DirectedAction::UseEast,
    DirectedAction::UseSouth,
    DirectedAction::UseWest,
];

const STATUSES: [GameStatus; 5] = [
    GameStatus::Active,
    GameStatus::Finished,
    GameStatus::Won,
    GameStatus::Lost,
    GameStatus::Error,
];

fn entry(tick: i32, action: DirectedAction, state_tick: i32, status: GameStatus) -> ReplayEntry {
    ReplayEntry { tick, action, state: GameState { tick: state_tick, status } }
}

#[test]
fn record_has_the_documented_bytes() {
    let e = entry(0x0102_0304, DirectedAction::MoveSouth, 258, GameStatus::Won);
    assert_eq!(encode_entry(&e), vec![1, 2, 3, 4, 2, 0, 0, 1, 2, 2]);
    assert_eq!(RECORD_LEN, 10);
}

#[test]
fn negative_clocks_are_twos_complement() {
    let e = entry(-1, DirectedAction::MoveNorth, -2, GameStatus::Active);
    assert_eq!(encode_entry(&e), vec![255, 255, 255, 255, 0, 255, 255, 255, 254, 0]);
    let e = entry(i32::MIN, DirectedAction::UseWest, i32::MAX, GameStatus::Error);
    assert_eq!(encode_entry(&e), vec![128, 0, 0, 0, 7, 127, 255, 255, 255, 4]);
    assert_eq!(encode_entry(&e), [
        i32::MIN.to_be_bytes().to_vec(),
        vec![7],
        i32::MAX.to_be_bytes().to_vec(),
        vec![4],
    ].concat());
}

#[test]
fn action_and_status_codes_are_their_positions() {
    for (i, action) in ACTIONS.iter().enumerate() {
        assert_eq!(action.code() as usize, i);
        assert_eq!(DirectedAction::from_code(i as u8), Some(*action));
    }
    for (i, status) in STATUSES.iter().enumerate() {
        assert_eq!(status.code() as usize, i);
        assert_eq!(GameStatus::from_code(i as u8), Some(*status));
    }
    for code in 8..=255u8 {
        assert_eq!(DirectedAction::from_code(code), None);
    }
    for code in 5..=255u8 {
        assert_eq!(GameStatus::from_code(code), None);
    }
}

#[test]
fn decoding_gives_back_what_was_encoded() {
    let ticks = [0, 1, -1, 255, 256, 65535, 65536, 16777216, -16777217, i32::MAX, i32::MIN, 123456789];
    for &tick in ticks.iter() {
        for &state_tick in ticks.iter() {
            for &action in ACTIONS.iter() {
                for &status in STATUSES.iter() {
                    let e = entry(tick, action, state_tick, status);
                    let bytes = encode_entry(&e);
                    assert_eq!(bytes.len(), RECORD_LEN);
                    assert_eq!(decode_entry(&bytes), Some(e));
                }
            }
        }
    }
}

#[test]
fn encoding_gives_back_what_was_decoded() {
    let records: [[u8; 10]; 3] = [
        [0, 0, 0, 0, 0, 0, 0, 0, 0, 0],
        [200, 1, 2, 3, 7, 9, 8, 7, 6, 4],
        [127, 255, 255, 255, 3, 128, 0, 0, 0, 1],
    ];
    for record in records.iter() {
        let e = decode_entry(record).unwrap();
        assert_eq!(encode_entry(&e), record.to_vec());
    }
    assert_eq!(
        decode_entry(&records[2]),
        Some(entry(i32::MAX, DirectedAction::MoveWest, i32::MIN, GameStatus::Finished))
    );
}

#[test]
fn bytes_that_are_no_record_are_refused() {
    assert_eq!(decode_entry(&[]), None);
    assert_eq!(decode_entry(&[0; 9]), None);
    assert_eq!(decode_entry(&[0; 11]), None);
    // No action has code 8, and no status has code 5.
    assert_eq!(decode_entry(&[0, 0, 0, 0, 8, 0, 0, 0, 0, 0]), None);
    assert_eq!(decode_entry(&[0, 0, 0, 0, 0, 0, 0, 0, 0, 5]), None);
    assert_eq!(decode_entry(&[0, 0, 0, 0, 255, 0, 0, 0, 0, 255]), None);
}

#[test]
fn write_entry_appends_a_record() {
    let first = entry(1, DirectedAction::MoveEast, 1, GameStatus::Active);
    let second = entry(2, DirectedAction::MoveSouth, 2, GameStatus::Lost);
    let mut out = vec![9u8];
    write_entry(&mut out, &first);
    write_entry(&mut out, &second);
    assert_eq!(out, vec![9, 0, 0, 0, 1, 1, 0, 0, 0, 1, 0, 0, 0, 0, 2, 2, 0, 0, 0, 2, 3]);
}

#[test]
fn log_is_its_records_in_order() {
    let entries = vec![
        entry(1, DirectedAction::MoveEast, 1, GameStatus::Active),
        entry(2, DirectedAction::MoveSouth, 2, GameStatus::Active),
        entry(3, DirectedAction::UseEast, 3, GameStatus::Won),
    ];
    let bytes = encode_log(&entries);
    assert_eq!(bytes.len(), 30);
    let mut expected = Vec::new();
    for e in entries.iter() {
        expected.extend_from_slice(&encode_entry(e));
    }
    assert_eq!(bytes, expected);
    assert_eq!(decode_log(&bytes), Some(entries));
}

#[test]
fn empty_log_is_no_bytes() {
    assert_eq!(encode_log(&Vec::new()), Vec::<u8>::new());
    assert_eq!(decode_log(&[]), Some(Vec::new()));
}

#[test]
fn damaged_logs_are_refused() {
    let entries = vec![
        entry(1, DirectedAction::MoveEast, 1, GameStatus::Active),
        entry(2, DirectedAction::MoveSouth, 2, GameStatus::Active),
    ];
    let bytes = encode_log(&entries);
    // Cut short.
    assert_eq!(decode_log(&bytes[..19]), None);
    assert_eq!(decode_log(&bytes[..1]), None);
    // A whole number of records reads up to there.
    assert_eq!(decode_log(&bytes[..10]), Some(entries[..1].to_vec()));
    // A bad action in the first record, a bad status in the second.
    let mut bad = bytes.clone();
    bad[4] = 8;
    assert_eq!(decode_log(&bad), None);
    let mut bad = bytes.clone();
    bad[19] = 200;
    assert_eq!(decode_log(&bad), None);
}
