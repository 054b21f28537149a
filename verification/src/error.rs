//! What can be wrong with a round's set-up or with its board.

use vstd::prelude::*;

verus! {

/// Why a snake could not be made or an egg could not be placed.
#[derive(Clone, Copy, Debug, PartialEq, Eq, Structural)]
pub enum GameError {
    /// The four numbers given for the board do not describe one.
    BadBoard,
    /// The player slot is neither 0 nor 1.
    BadSlot,
    /// A snake needs at least one segment.
    EmptyBody,
    /// A segment lies outside the board.
    OutsideBoard,
    /// The two snakes cannot start a round together: they are on different
    /// boards, in the wrong player slots, or on a common cell.
    SpawnClash,
    /// Every cell of the board is taken, so that no egg can be placed.
    BoardFull,
}

} // verus!
