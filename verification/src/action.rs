//! The commands a player may issue, one per turn.

use vstd::prelude::*;

verus! {

/// A command aimed in one of the four compass directions. The set is closed:
/// the game accepts these and nothing else.
#[derive(Clone, Copy, Debug, PartialEq, Eq, Structural)]
pub enum DirectedAction {
    MoveNorth,
    MoveEast,
    MoveSouth,
    MoveWest,
    UseNorth,
    UseEast,
    UseSouth,
    UseWest,
}

/// The byte that stands for an action.
pub open spec fn action_code(action: DirectedAction) -> u8 {
    match action {
        DirectedAction::MoveNorth => 0,
        DirectedAction::MoveEast => 1,
        DirectedAction::MoveSouth => 2,
        DirectedAction::MoveWest => 3,
        DirectedAction::UseNorth => 4,
        DirectedAction::UseEast => 5,
        DirectedAction::UseSouth => 6,
        DirectedAction::UseWest => 7,
    }
}

/// The action that a byte stands for, if it stands for one.
pub open spec fn action_of_code(code: u8) -> Option<DirectedAction> {
    if code == 0 {
        Some(DirectedAction::MoveNorth)
    } else if code == 1 {
        Some(DirectedAction::MoveEast)
    } else if code == 2 {
        Some(DirectedAction::MoveSouth)
    } else if code == 3 {
        Some(DirectedAction::MoveWest)
    } else if code == 4 {
        Some(DirectedAction::UseNorth)
    } else if code == 5 {
        Some(DirectedAction::UseEast)
    } else if code == 6 {
        Some(DirectedAction::UseSouth)
    } else if code == 7 {
        Some(DirectedAction::UseWest)
    } else {
        None
    }
}

impl DirectedAction {
    /// The canonical name of the action, as a sequence of characters.
    pub open spec fn name(self) -> Seq<char> {
        match self {
            DirectedAction::MoveNorth => "MOVE_NORTH"@,
            DirectedAction::MoveEast => "MOVE_EAST"@,
            DirectedAction::MoveSouth => "MOVE_SOUTH"@,
            DirectedAction::MoveWest => "MOVE_WEST"@,
            DirectedAction::UseNorth => "USE_NORTH"@,
            DirectedAction::UseEast => "USE_EAST"@,
            DirectedAction::UseSouth => "USE_SOUTH"@,
            DirectedAction::UseWest => "USE_WEST"@,
        }
    }

    /// The canonical name of the action, for logs.
    pub fn as_str_name(&self) -> (text: &'static str)
        ensures
            text@ == self.name(),
    {
        match self {
            DirectedAction::MoveNorth => "MOVE_NORTH",
            DirectedAction::MoveEast => "MOVE_EAST",
            DirectedAction::MoveSouth => "MOVE_SOUTH",
            DirectedAction::MoveWest => "MOVE_WEST",
            DirectedAction::UseNorth => "USE_NORTH",
            DirectedAction::UseEast => "USE_EAST",
            DirectedAction::UseSouth => "USE_SOUTH",
            DirectedAction::UseWest => "USE_WEST",
        }
    }

    /// The byte that stands for the action in a record.
    pub fn code(&self) -> (code: u8)
        ensures
            code == action_code(*self),
    {
        match self {
            DirectedAction::MoveNorth => 0,
            DirectedAction::MoveEast => 1,
            DirectedAction::MoveSouth => 2,
            DirectedAction::MoveWest => 3,
            DirectedAction::UseNorth => 4,
            DirectedAction::UseEast => 5,
            DirectedAction::UseSouth => 6,
            DirectedAction::UseWest => 7,
        }
    }

    /// The action that `code` stands for, if it stands for one.
    pub fn from_code(code: u8) -> (action: Option<DirectedAction>)
        ensures
            action == action_of_code(code),
    {
        match code {
            0 => Some(DirectedAction::MoveNorth),
            1 => Some(DirectedAction::MoveEast),
            2 => Some(DirectedAction::MoveSouth),
            3 => Some(DirectedAction::MoveWest),
            4 => Some(DirectedAction::UseNorth),
            5 => Some(DirectedAction::UseEast),
            6 => Some(DirectedAction::UseSouth),
            7 => Some(DirectedAction::UseWest),
            _ => None,
        }
    }

    /// Every action is the action of its code, and every byte that stands
    /// for an action is the code of that action.
    pub proof fn lemma_code_identifies(action: DirectedAction, code: u8)
        ensures
            action_of_code(action_code(action)) == Some(action),
            action_of_code(code) matches Some(found) ==> action_code(found) == code,
    {
    }

    /// Canonical names identify actions: two actions with the same name are
    /// the same action.
    pub proof fn lemma_name_identifies(a: DirectedAction, b: DirectedAction)
        requires
            a.name() == b.name(),
        ensures
            a == b,
    {
        reveal_strlit("MOVE_NORTH");
        reveal_strlit("MOVE_EAST");
        reveal_strlit("MOVE_SOUTH");
        reveal_strlit("MOVE_WEST");
        reveal_strlit("USE_NORTH");
        reveal_strlit("USE_EAST");
        reveal_strlit("USE_SOUTH");
        reveal_strlit("USE_WEST");
        if a != b {
            let x = a.name();
            let y = b.name();
            assert(x.len() == y.len());
            assert(x[0] == y[0]);
            assert(x[4] == y[4]);
            assert(x[5] == y[5]);
        }
    }
}

} // verus!
