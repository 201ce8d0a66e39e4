use vstd::prelude::*;
use crate::random::random_below;

verus! {

/// Number of distinct actions the agent can emit.
pub const NUM_ACTIONS: usize = 4;

/// One of the four directional commands the agent sends to the game.
#[derive(Clone, Copy, Debug, PartialEq, Eq, Hash, Structural)]
pub enum Action {
    Up,
    Down,
    Left,
    Right,
}

/// Position of an action in the network's output vector.
pub open spec fn action_index(a: Action) -> nat {
    match a {
        Action::Up => 0,
        Action::Down => 1,
        Action::Left => 2,
        Action::Right => 3,
    }
}

impl Action {
    /// Index of this action among the Q-values (Up, Down, Left, Right).
    pub fn index(&self) -> (r: usize)
        ensures
            r == action_index(*self),
            r < NUM_ACTIONS,
    {
        match self {
            Action::Up => 0,
            Action::Down => 1,
            Action::Left => 2,
            Action::Right => 3,
        }
    }

    /// The action at position `i` of the Q-value vector.
    pub fn from_index(i: usize) -> (r: Action)
        requires
            i < NUM_ACTIONS,
        ensures
            action_index(r) == i,
    {
        if i == 0 {
            Action::Up
        } else if i == 1 {
            Action::Down
        } else if i == 2 {
            Action::Left
        } else {
            Action::Right
        }
    }

    /// Human-readable name of the action.
    pub fn name(&self) -> (r: &'static str)
        ensures
            *self == Action::Up ==> r@ == "Up"@,
            *self == Action::Down ==> r@ == "Down"@,
            *self == Action::Left ==> r@ == "Left"@,
            *self == Action::Right ==> r@ == "Right"@,
    {
        match self {
            Action::Up => "Up",
            Action::Down => "Down",
            Action::Left => "Left",
            Action::Right => "Right",
        }
    }
}

/// An action drawn uniformly from the four, as used while exploring.
pub fn random_action() -> Action {
    let i = random_below(NUM_ACTIONS);
    Action::from_index(i)
}

} // verus!
