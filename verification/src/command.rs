use vstd::prelude::*;
use crate::direction::Direction;

verus! {

/// A player input, consumed once per poll: either quit the game or steer the
/// snake toward a heading.
#[derive(Clone, Copy, Debug, PartialEq, Eq, Structural)]
pub enum Command {
    Quit,
    Turn(Direction),
}

} // verus!
