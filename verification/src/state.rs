//! The authoritative snapshot of a game that the server sends after a turn.

use vstd::prelude::*;
use crate::status::GameStatus;

verus! {

/// One snapshot of a running game: the server's logical clock and the status
/// of the game at that instant.
#[derive(Clone, Copy, Debug, PartialEq, Eq, Structural)]
pub struct GameState {
    pub tick: i32,
    pub status: GameStatus,
}

impl GameState {
    /// A snapshot may follow `self` when the clock has not gone backwards.
    pub open spec fn may_precede(self, next: GameState) -> bool {
        self.tick <= next.tick
    }

    /// Whether `next` is an acceptable successor of this snapshot.
    pub fn accepts_successor(&self, next: &GameState) -> (ok: bool)
        ensures
            ok == self.may_precede(*next),
    {
        self.tick <= next.tick
    }
}

} // verus!
