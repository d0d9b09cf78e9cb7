//! A player that walks a staircase: east, south, east, south, and so on.

use vstd::prelude::*;
use crate::action::DirectedAction;

verus! {

/// The action of a staircase walker whose next step is east or not.
pub open spec fn step_of(move_east: bool) -> DirectedAction {
    if move_east {
        DirectedAction::MoveEast
    } else {
        DirectedAction::MoveSouth
    }
}

/// Remembers which way the next step goes.
#[derive(Clone, Copy, Debug, PartialEq, Eq, Structural)]
pub struct Pilot {
    pub move_east: bool,
}

impl Pilot {
    /// A pilot whose first step goes east.
    pub fn new() -> (pilot: Pilot)
        ensures
            pilot == (Pilot { move_east: true }),
    {
        Pilot { move_east: true }
    }

    /// The action that the next call of `advance` returns.
    pub fn peek(&self) -> (action: DirectedAction)
        ensures
            action == step_of(self.move_east),
    {
        if self.move_east {
            DirectedAction::MoveEast
        } else {
            DirectedAction::MoveSouth
        }
    }

    /// Returns the next step and turns the pilot for the one after it: east
    /// is followed by south, south by east.
    pub fn advance(&mut self) -> (action: DirectedAction)
        ensures
            action == step_of(old(self).move_east),
            final(self).move_east == !old(self).move_east,
    {
        let action = self.peek();
        self.move_east = !self.move_east;
        action
    }
}

} // verus!
