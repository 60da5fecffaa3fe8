use vstd::prelude::*;
use crate::direction::Direction;

verus! {

/// A grid cell, addressed by an unsigned column `x` and row `y`.
/// Construction does no range checking: staying inside the grid is the
/// caller's responsibility.
#[derive(Clone, Copy, Debug, PartialEq, Eq, Structural)]
pub struct Point {
    pub x: u16,
    pub y: u16,
}

/// Whether moving `p` by `distance` cells along `direction` stays within the
/// unsigned coordinate range: no step below zero, none past `u16::MAX`.
pub open spec fn can_transform(p: Point, direction: Direction, distance: u16) -> bool {
    match direction {
        Direction::Up => p.y >= distance,
        Direction::Right => p.x + distance <= u16::MAX,
        Direction::Down => p.y + distance <= u16::MAX,
        Direction::Left => p.x >= distance,
    }
}

/// The point `distance` cells from `p` along `direction`: Up decreases `y`,
/// Down increases `y`, Right increases `x`, Left decreases `x`.
pub open spec fn transformed(p: Point, direction: Direction, distance: u16) -> Point {
    match direction {
        Direction::Up => Point { x: p.x, y: (p.y - distance) as u16 },
        Direction::Right => Point { x: (p.x + distance) as u16, y: p.y },
        Direction::Down => Point { x: p.x, y: (p.y + distance) as u16 },
        Direction::Left => Point { x: (p.x - distance) as u16, y: p.y },
    }
}

impl Point {
    pub fn new(x: u16, y: u16) -> (r: Point)
        ensures
            r.x == x,
            r.y == y,
    {
        Point { x, y }
    }

    /// A new point `distance` cells away along `direction`; the caller must
    /// ensure the result stays within the coordinate range.
    pub fn transform(&self, direction: Direction, distance: u16) -> (r: Point)
        requires
            can_transform(*self, direction, distance),
        ensures
            r == transformed(*self, direction, distance),
    {
        match direction {
            Direction::Up => Point { x: self.x, y: self.y - distance },
            Direction::Right => Point { x: self.x + distance, y: self.y },
            Direction::Down => Point { x: self.x, y: self.y + distance },
            Direction::Left => Point { x: self.x - distance, y: self.y },
        }
    }
}

} // verus!
