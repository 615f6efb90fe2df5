//! The four headings a snake can travel in, and the reversal relation used
//! to filter queued direction intents.

use vstd::prelude::*;

verus! {

/// A heading on the grid.
#[derive(Copy, Clone, PartialEq, Eq, Structural, Debug)]
pub enum Direction {
    Left,
    Right,
    Up,
    Down,
}

impl Direction {
    /// The heading pointing the opposite way.
    pub open spec fn spec_opposite(self) -> Direction {
        match self {
            Direction::Left => Direction::Right,
            Direction::Right => Direction::Left,
            Direction::Up => Direction::Down,
            Direction::Down => Direction::Up,
        }
    }

    pub fn opposite(self) -> (r: Direction)
        ensures
            r == self.spec_opposite(),
    {
        match self {
            Direction::Left => Direction::Right,
            Direction::Right => Direction::Left,
            Direction::Up => Direction::Down,
            Direction::Down => Direction::Up,
        }
    }
}

/// A queued intent is accepted as the new heading only if it actually turns
/// the snake: it must differ from the current heading and must not reverse
/// straight into the segment behind the head.
pub open spec fn acceptable(intent: Direction, heading: Direction) -> bool {
    intent != heading && intent != heading.spec_opposite()
}

} // verus!
