//! What arrives on the channel, field by field, and how it is read.
//!
//! A channel delivers messages in which any field may be missing and in
//! which a status is a number. The types here hold such a message as plain
//! values; the functions read it as the outcome that the session and the
//! client judge.

use vstd::prelude::*;
use crate::client::StartOutcome;
use crate::session::{SessionGrant, TurnOutcome};
use crate::state::GameState;
use crate::status::{status_of_code, GameStatus};

verus! {

/// A snapshot as it arrives: the clock, and the status as its code.
#[derive(Clone, Copy, Debug, PartialEq, Eq, Structural)]
pub struct StateAnswer {
    pub tick: i32,
    pub status: i32,
}

/// The answer to a start request as it arrives.
#[derive(Clone, Debug, PartialEq, Eq)]
pub struct StartAnswer {
    /// The reason of the server for declining, if it declined.
    pub declined: Option<String>,
    pub game_id: Option<String>,
    pub seed: Option<i32>,
    pub map_height: Option<i32>,
    pub map_width: Option<i32>,
    pub visibility_range: Option<i32>,
    pub state: Option<StateAnswer>,
}

/// The status that a number on the channel stands for: the status with that
/// code, if the number is the code of one.
pub open spec fn status_of_number(number: i32) -> Option<GameStatus> {
    if 0 <= number <= u8::MAX {
        status_of_code(number as u8)
    } else {
        None
    }
}

/// The snapshot that an answer holds, if its status is one.
pub open spec fn state_of(answer: StateAnswer) -> Option<GameState> {
    match status_of_number(answer.status) {
        Some(status) => Some(GameState { tick: answer.tick, status }),
        None => None,
    }
}

/// The outcome of a turn that was answered: the snapshot if the answer
/// holds one that can be read, and `Unreadable` if it does not.
pub open spec fn turn_outcome_of(answer: Option<StateAnswer>) -> TurnOutcome {
    match answer {
        Some(raw) => match state_of(raw) {
            Some(state) => TurnOutcome::Reply(state),
            None => TurnOutcome::Unreadable,
        },
        None => TurnOutcome::Unreadable,
    }
}

/// The outcome of a start that was answered. A reason for declining makes
/// the answer a refusal, whatever else it holds. Without one, the answer is
/// a grant when every field is there and the snapshot can be read, and
/// unreadable when not.
pub open spec fn start_outcome_of(answer: StartAnswer) -> StartOutcome {
    match answer.declined {
        Some(reason) => StartOutcome::Declined(reason),
        None => match (
            answer.game_id,
            answer.seed,
            answer.map_height,
            answer.map_width,
            answer.visibility_range,
            answer.state,
        ) {
            (
                Some(game_id),
                Some(seed),
                Some(map_height),
                Some(map_width),
                Some(visibility_range),
                Some(raw),
            ) => match state_of(raw) {
                Some(state) => StartOutcome::Accepted(
                    SessionGrant { game_id, seed, map_height, map_width, visibility_range, state },
                ),
                None => StartOutcome::Unreadable,
            },
            _ => StartOutcome::Unreadable,
        },
    }
}

/// Reads a number on the channel as a status.
pub fn read_status(number: i32) -> (status: Option<GameStatus>)
    ensures
        status == status_of_number(number),
{
    if 0 <= number && number <= 255 {
        GameStatus::from_code(number as u8)
    } else {
        None
    }
}

/// Reads a snapshot as it arrived.
pub fn read_state(answer: StateAnswer) -> (state: Option<GameState>)
    ensures
        state == state_of(answer),
{
    match read_status(answer.status) {
        Some(status) => Some(GameState { tick: answer.tick, status }),
        None => None,
    }
}

/// Reads the answer to a turn.
pub fn read_turn_answer(answer: Option<StateAnswer>) -> (outcome: TurnOutcome)
    ensures
        outcome == turn_outcome_of(answer),
{
    match answer {
        Some(raw) => match read_state(raw) {
            Some(state) => TurnOutcome::Reply(state),
            None => TurnOutcome::Unreadable,
        },
        None => TurnOutcome::Unreadable,
    }
}

/// Reads the answer to a start request.
pub fn read_start_answer(answer: StartAnswer) -> (outcome: StartOutcome)
    ensures
        outcome == start_outcome_of(answer),
{
    match answer.declined {
        Some(reason) => StartOutcome::Declined(reason),
        None => match (
            answer.game_id,
            answer.seed,
            answer.map_height,
            answer.map_width,
            answer.visibility_range,
            answer.state,
        ) {
            (
                Some(game_id),
                Some(seed),
                Some(map_height),
                Some(map_width),
                Some(visibility_range),
                Some(raw),
            ) => match read_state(raw) {
                Some(state) => StartOutcome::Accepted(
                    SessionGrant { game_id, seed, map_height, map_width, visibility_range, state },
                ),
                None => StartOutcome::Unreadable,
            },
            _ => StartOutcome::Unreadable,
        },
    }
}

} // verus!
