//! Headings and the rule that a snake cannot reverse onto itself.

use vstd::prelude::*;

verus! {

/// The direction in which a snake's head moves on its next tick.
#[derive(Clone, Copy, Debug, PartialEq, Eq, Structural)]
pub enum Dir {
    Right,
    Left,
    Up,
    Down,
}

impl Dir {
    /// The heading that points the other way.
    pub open spec fn opposite(self) -> Dir {
        match self {
            Dir::Right => Dir::Left,
            Dir::Left => Dir::Right,
            Dir::Up => Dir::Down,
            Dir::Down => Dir::Up,
        }
    }

    /// The heading a snake has after a turn is requested of it: the request,
    /// unless there was none or it is the reverse of the current heading.
    pub open spec fn turned(self, request: Option<Dir>) -> Dir {
        match request {
            Some(d) => if d == self.opposite() { self } else { d },
            None => self,
        }
    }
}

} // verus!
