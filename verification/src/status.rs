//! The status a game instance reports with every state snapshot.

use vstd::prelude::*;

verus! {

/// Where a game instance stands. `Active` is the only status in which turns
/// are played; every other value is terminal.
#[derive(Clone, Copy, Debug, PartialEq, Eq, Structural)]
pub enum GameStatus {
    Active,
    Finished,
    Won,
    Lost,
    Error,
}

/// The byte that stands for a status.
pub open spec fn status_code(status: GameStatus) -> u8 {
    match status {
        GameStatus::Active => 0,
        GameStatus::Finished => 1,
        GameStatus::Won => 2,
        GameStatus::Lost => 3,
        GameStatus::Error => 4,
    }
}

/// The status that a byte stands for, if it stands for one.
pub open spec fn status_of_code(code: u8) -> Option<GameStatus> {
    if code == 0 {
        Some(GameStatus::Active)
    } else if code == 1 {
        Some(GameStatus::Finished)
    } else if code == 2 {
        Some(GameStatus::Won)
    } else if code == 3 {
        Some(GameStatus::Lost)
    } else if code == 4 {
        Some(GameStatus::Error)
    } else {
        None
    }
}

impl GameStatus {
    /// A status is terminal exactly when it is not `Active`.
    pub open spec fn is_terminal(self) -> bool {
        self != GameStatus::Active
    }

    /// The canonical name of the status, as a sequence of characters.
    pub open spec fn name(self) -> Seq<char> {
        match self {
            GameStatus::Active => "ACTIVE"@,
            GameStatus::Finished => "FINISHED"@,
            GameStatus::Won => "WON"@,
            GameStatus::Lost => "LOST"@,
            GameStatus::Error => "ERROR"@,
        }
    }

    /// The canonical name of the status, for logs.
    pub fn as_str_name(&self) -> (text: &'static str)
        ensures
            text@ == self.name(),
    {
        match self {
            GameStatus::Active => "ACTIVE",
            GameStatus::Finished => "FINISHED",
            GameStatus::Won => "WON",
            GameStatus::Lost => "LOST",
            GameStatus::Error => "ERROR",
        }
    }

    /// The byte that stands for the status in a record.
    pub fn code(&self) -> (code: u8)
        ensures
            code == status_code(*self),
    {
        match self {
            GameStatus::Active => 0,
            GameStatus::Finished => 1,
            GameStatus::Won => 2,
            GameStatus::Lost => 3,
            GameStatus::Error => 4,
        }
    }

    /// The status that `code` stands for, if it stands for one.
    pub fn from_code(code: u8) -> (status: Option<GameStatus>)
        ensures
            status == status_of_code(code),
    {
        match code {
            0 => Some(GameStatus::Active),
            1 => Some(GameStatus::Finished),
            2 => Some(GameStatus::Won),
            3 => Some(GameStatus::Lost),
            4 => Some(GameStatus::Error),
            _ => None,
        }
    }

    /// Every status is the status of its code, and every byte that stands
    /// for a status is the code of that status.
    pub proof fn lemma_code_identifies(status: GameStatus, code: u8)
        ensures
            status_of_code(status_code(status)) == Some(status),
            status_of_code(code) matches Some(found) ==> status_code(found) == code,
    {
    }

    /// Canonical names identify statuses: two statuses with the same name
    /// are the same status.
    pub proof fn lemma_name_identifies(a: GameStatus, b: GameStatus)
        requires
            a.name() == b.name(),
        ensures
            a == b,
    {
        reveal_strlit("ACTIVE");
        reveal_strlit("FINISHED");
        reveal_strlit("WON");
        reveal_strlit("LOST");
        reveal_strlit("ERROR");
        if a != b {
            let x = a.name();
            let y = b.name();
            assert(x.len() == y.len());
            assert(x[0] == y[0]);
        }
    }

    /// Whether turns may still be played under this status.
    pub fn is_active(&self) -> (active: bool)
        ensures
            active == !self.is_terminal(),
    {
        match self {
            GameStatus::Active => true,
            _ => false,
        }
    }
}

} // verus!
