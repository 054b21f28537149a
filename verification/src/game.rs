//! One tick of a round: both snakes turn and move, then what their heads
//! have met decides how the tick ends.

use crate::board::Block;
use crate::egg::occupied;
use crate::error::GameError;
use crate::input::Input;
use crate::snake::Collision;
use crate::snake::Snake;
use crate::snake::SnakeView;
use vstd::prelude::*;

verus! {

/// What follows from the two snakes' reports after a move.
#[derive(Clone, Copy, Debug, PartialEq, Eq, Structural)]
pub enum Resolution {
    /// Both players lose.
    BothLost,
    /// The first player loses.
    FirstLost,
    /// The second player loses.
    SecondLost,
    /// The first player eats the egg.
    FirstEats,
    /// The second player eats the egg.
    SecondEats,
    /// The round goes on unchanged.
    Nothing,
}

/// What follows from the report `col1` of the first snake and the report
/// `col2` of the second. A loss goes before the egg, and where both heads
/// lie on the egg the first player eats it.
pub open spec fn resolution(col1: Collision, col2: Collision) -> Resolution {
    if col1 == Collision::Player1 && col2 == Collision::Player2 {
        Resolution::BothLost
    } else if col1 == Collision::Player1 {
        Resolution::FirstLost
    } else if col2 == Collision::Player2 {
        Resolution::SecondLost
    } else if col1 == Collision::Egg {
        Resolution::FirstEats
    } else if col2 == Collision::Egg {
        Resolution::SecondEats
    } else {
        Resolution::Nothing
    }
}

/// Whether the two snakes cover every cell of their board.
pub open spec fn board_full(a: SnakeView, b: SnakeView) -> bool {
    forall|cell: Block| a.board.contains(cell) ==> occupied(a, b, cell)
}

/// The snake of the player in slot `player` after it has turned as `input`
/// asks and has moved.
pub open spec fn moved(snake: SnakeView, input: Input, player: i8) -> SnakeView {
    snake.turned(input.requested(player)).advanced()
}

/// Whether a tick that starts with the snakes `a0` and `b0` and the egg at
/// `egg0` can end with the snakes `a1` and `b1`, the egg at `egg1` and the
/// result `outcome`.
///
/// Both snakes turn and move before either head is looked at. On a loss the
/// tick ends there. Else the snake that eats is marked to grow and the egg
/// goes to a cell that neither snake covers; where no such cell is left the
/// board is reported as full, and neither the egg nor a mark changes.
pub open spec fn ticked(
    a0: SnakeView,
    b0: SnakeView,
    egg0: Block,
    input: Input,
    a1: SnakeView,
    b1: SnakeView,
    egg1: Block,
    outcome: Result<Collision, GameError>,
) -> bool {
    let a = moved(a0, input, 0);
    let b = moved(b0, input, 1);
    match resolution(a.collision(egg0, b), b.collision(egg0, a)) {
        Resolution::BothLost => a1 == a && b1 == b && egg1 == egg0 && outcome == Ok::<
            Collision,
            GameError,
        >(Collision::Both),
        Resolution::FirstLost => a1 == a && b1 == b && egg1 == egg0 && outcome == Ok::<
            Collision,
            GameError,
        >(Collision::Player1),
        Resolution::SecondLost => a1 == a && b1 == b && egg1 == egg0 && outcome == Ok::<
            Collision,
            GameError,
        >(Collision::Player2),
        Resolution::Nothing => a1 == a && b1 == b && egg1 == egg0 && outcome == Ok::<
            Collision,
            GameError,
        >(Collision::Null),
        Resolution::FirstEats => if board_full(a, b) {
            a1 == a && b1 == b && egg1 == egg0 && outcome == Err::<Collision, GameError>(
                GameError::BoardFull,
            )
        } else {
            a1 == a.fed() && b1 == b && a.board.contains(egg1) && !occupied(a, b, egg1) && outcome
                == Ok::<Collision, GameError>(Collision::Null)
        },
        Resolution::SecondEats => if board_full(a, b) {
            a1 == a && b1 == b && egg1 == egg0 && outcome == Err::<Collision, GameError>(
                GameError::BoardFull,
            )
        } else {
            a1 == a && b1 == b.fed() && a.board.contains(egg1) && !occupied(a, b, egg1) && outcome
                == Ok::<Collision, GameError>(Collision::Null)
        },
    }
}

/// Decides what follows from the two snakes' reports.
pub fn resolve(col1: Collision, col2: Collision) -> (decided: Resolution)
    ensures
        decided == resolution(col1, col2),
{
    match (col1, col2) {
        (Collision::Player1, Collision::Player2) => Resolution::BothLost,
        (Collision::Player1, _) => Resolution::FirstLost,
        (_, Collision::Player2) => Resolution::SecondLost,
        (Collision::Egg, _) => Resolution::FirstEats,
        (_, Collision::Egg) => Resolution::SecondEats,
        _ => Resolution::Nothing,
    }
}

/// Runs one tick: both snakes turn as `input` asks, both move, and then the
/// heads are looked at. The result names the loser or losers, or is
/// `Collision::Null` while the round goes on.
pub fn update(input: &Input, player1: &mut Snake, player2: &mut Snake, egg: &mut Block) -> (outcome:
    Result<Collision, GameError>)
    requires
        old(player1)@.wf(),
        old(player2)@.wf(),
        old(player1)@.board == old(player2)@.board,
        old(player1)@.id == 0,
        old(player2)@.id == 1,
    ensures
        ticked(
            old(player1)@,
            old(player2)@,
            *old(egg),
            *input,
            final(player1)@,
            final(player2)@,
            *final(egg),
            outcome,
        ),
        final(player1)@.wf(),
        final(player2)@.wf(),
        final(player1)@.board == old(player1)@.board,
        final(player2)@.board == old(player2)@.board,
        final(player1)@.id == 0,
        final(player2)@.id == 1,
{
    player1.update_dir(input, 0);
    player2.update_dir(input, 1);

    player1.update_pos();
    player2.update_pos();

    let col1 = player1.check_collision(egg, player2);
    let col2 = player2.check_collision(egg, player1);

    match resolve(col1, col2) {
        Resolution::BothLost => Ok(Collision::Both),
        Resolution::FirstLost => Ok(Collision::Player1),
        Resolution::SecondLost => Ok(Collision::Player2),
        Resolution::FirstEats => {
            match egg.regenerate(player1, player2) {
                Ok(()) => {
                    player1.mark_growth();
                    Ok(Collision::Null)
                },
                Err(full) => Err(full),
            }
        },
        Resolution::SecondEats => {
            match egg.regenerate(player1, player2) {
                Ok(()) => {
                    player2.mark_growth();
                    Ok(Collision::Null)
                },
                Err(full) => Err(full),
            }
        },
        Resolution::Nothing => Ok(Collision::Null),
    }
}

/// Where the first player loses and the second does not, the first player
/// alone has lost, whatever else the second snake has met; and likewise
/// with the players exchanged. In neither case is the egg eaten.
pub proof fn lemma_loss_precedes_egg(col1: Collision, col2: Collision)
    ensures
        col1 == Collision::Player1 && col2 != Collision::Player2 ==> resolution(col1, col2)
            == Resolution::FirstLost,
        col1 != Collision::Player1 && col2 == Collision::Player2 ==> resolution(col1, col2)
            == Resolution::SecondLost,
        col1 == Collision::Player1 && col2 == Collision::Player2 ==> resolution(col1, col2)
            == Resolution::BothLost,
{
}

/// Where the first snake reports the egg and nobody loses, the first player
/// eats it, whether or not the second snake reports the egg as well: one
/// egg is eaten once.
pub proof fn lemma_first_player_eats_first(col2: Collision)
    requires
        col2 != Collision::Player2,
    ensures
        resolution(Collision::Egg, col2) == Resolution::FirstEats,
{
}

/// A tick in which the first player eats marks only the first snake to
/// grow and moves the egg once, to a cell that no snake covers.
pub proof fn lemma_eating_marks_one_snake(
    a0: SnakeView,
    b0: SnakeView,
    egg0: Block,
    input: Input,
    a1: SnakeView,
    b1: SnakeView,
    egg1: Block,
    outcome: Result<Collision, GameError>,
)
    requires
        a0.wf(),
        b0.wf(),
        a0.board == b0.board,
        ticked(a0, b0, egg0, input, a1, b1, egg1, outcome),
        resolution(
            moved(a0, input, 0).collision(egg0, moved(b0, input, 1)),
            moved(b0, input, 1).collision(egg0, moved(a0, input, 0)),
        ) == Resolution::FirstEats,
        outcome is Ok,
    ensures
        a1.grow,
        !b1.grow,
        a1.body == moved(a0, input, 0).body,
        b1 == moved(b0, input, 1),
        !a1.occupies(egg1),
        !b1.occupies(egg1),
        egg1 != egg0,
{
    let a = moved(a0, input, 0);
    let b = moved(b0, input, 1);
    assert(a.body[0] == egg0);
    assert(a.body.contains(egg0));
}

/// A tick in which the first player's head lands on a snake and the second
/// player's does not ends with the first player's loss, also where the
/// second snake's head lies on the egg: the egg stays where it is and no
/// snake is marked to grow.
pub proof fn lemma_loss_beats_meal(
    a0: SnakeView,
    b0: SnakeView,
    egg0: Block,
    input: Input,
    a1: SnakeView,
    b1: SnakeView,
    egg1: Block,
    outcome: Result<Collision, GameError>,
)
    requires
        a0.wf(),
        b0.wf(),
        a0.id == 0,
        b0.id == 1,
        ticked(a0, b0, egg0, input, a1, b1, egg1, outcome),
        moved(a0, input, 0).crashed(moved(b0, input, 1)),
        !moved(b0, input, 1).crashed(moved(a0, input, 0)),
    ensures
        outcome == Ok::<Collision, GameError>(Collision::Player1),
        egg1 == egg0,
        a1 == moved(a0, input, 0),
        b1 == moved(b0, input, 1),
        !a1.grow,
        !b1.grow,
{
}

/// Two heads on one cell are a loss for both snakes, so that both players
/// lose, wherever the egg is.
pub proof fn lemma_heads_on_one_cell_both_lose(a: SnakeView, b: SnakeView, egg: Block)
    requires
        a.wf(),
        b.wf(),
        a.id == 0,
        b.id == 1,
        a.head() == b.head(),
    ensures
        a.crashed(b),
        b.crashed(a),
        resolution(a.collision(egg, b), b.collision(egg, a)) == Resolution::BothLost,
{
    assert(b.body[0] == a.body[0]);
    assert(a.runs_into(b));
    assert(a.body[0] == b.body[0]);
    assert(b.runs_into(a));
}

} // verus!
