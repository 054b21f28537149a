//! Placing the egg: a cell drawn at random among those that no snake
//! covers.
//!
//! The cells of the board are counted row by row. The positions that the
//! snakes cover are listed in ascending order, a number below the count of
//! free cells is drawn, and the cell that many free cells after the first
//! free one is taken. Every free cell answers to exactly one draw, so a
//! uniform draw gives a uniform choice among the free cells.

use crate::board::Block;
use crate::board::Board;
use crate::error::GameError;
use crate::snake::Snake;
use crate::snake::SnakeView;
use vstd::prelude::*;

verus! {

/// Whether a segment of either snake lies on `cell`.
pub open spec fn occupied(a: SnakeView, b: SnakeView, cell: Block) -> bool {
    a.occupies(cell) || b.occupies(cell)
}

/// The positions, counted row by row on `board`, of the cells that the two
/// snakes cover.
pub open spec fn taken(board: Board, a: SnakeView, b: SnakeView) -> Set<int> {
    Set::new(|pos: int| 0 <= pos < board.capacity() && occupied(a, b, board.cell_at(pos)))
}

/// The positions that a list names.
pub open spec fn positions(list: Seq<i32>) -> Set<int> {
    Set::new(|pos: int| exists|i: int| 0 <= i < list.len() && #[trigger] list[i] == pos)
}

/// Whether each entry of the list is larger than the one before it.
pub open spec fn ascending(list: Seq<i32>) -> bool {
    forall|i: int, j: int| 0 <= i < j < list.len() ==> list[i] < list[j]
}

/// Whether each entry of the list is a position below `capacity`.
pub open spec fn within(list: Seq<i32>, capacity: int) -> bool {
    forall|i: int| 0 <= i < list.len() ==> 0 <= #[trigger] list[i] < capacity
}

/// The number of positions below `pos` that are not taken.
pub open spec fn free_below(taken: Set<int>, pos: int) -> int
    decreases pos,
{
    if pos <= 0 {
        0
    } else {
        free_below(taken, pos - 1) + if taken.contains(pos - 1) {
            0int
        } else {
            1int
        }
    }
}

/// Whether `pos` is the free position with exactly `rank` free positions
/// before it.
pub open spec fn is_nth_free(taken: Set<int>, capacity: int, rank: int, pos: int) -> bool {
    &&& 0 <= pos < capacity
    &&& !taken.contains(pos)
    &&& free_below(taken, pos) == rank
}

/// The count of free positions never falls as the bound rises, and it rises
/// past a free position.
pub proof fn lemma_free_below_grows(taken: Set<int>, low: int, high: int)
    requires
        low <= high,
    ensures
        free_below(taken, low) <= free_below(taken, high),
        low < high && 0 <= low && !taken.contains(low) ==> free_below(taken, low) < free_below(
            taken,
            high,
        ),
    decreases high - low,
{
    if low < high {
        lemma_free_below_grows(taken, low, high - 1);
    }
}

/// At most one position has a given rank among the free ones: the draw
/// decides the cell.
pub proof fn lemma_nth_free_unique(taken: Set<int>, capacity: int, rank: int, p: int, q: int)
    requires
        is_nth_free(taken, capacity, rank, p),
        is_nth_free(taken, capacity, rank, q),
    ensures
        p == q,
{
    if p < q {
        lemma_free_below_grows(taken, p, q);
    } else if q < p {
        lemma_free_below_grows(taken, q, p);
    }
}

/// Every free position has a rank below the number of free positions: each
/// free cell can be drawn.
pub proof fn lemma_free_position_has_rank(taken: Set<int>, capacity: int, pos: int)
    requires
        0 <= pos < capacity,
        !taken.contains(pos),
    ensures
        0 <= free_below(taken, pos) < free_below(taken, capacity),
        is_nth_free(taken, capacity, free_below(taken, pos), pos),
{
    lemma_free_below_grows(taken, 0, pos);
    lemma_free_below_grows(taken, pos, capacity);
}

/// In an ascending list of positions below `capacity`, the entry at `i` is
/// at least `i`, and far enough below `capacity` to leave room for those
/// after it.
pub proof fn lemma_ascending_bounds(list: Seq<i32>, capacity: int, i: int)
    requires
        ascending(list),
        within(list, capacity),
        0 <= i < list.len(),
    ensures
        i <= list[i] <= capacity - list.len() + i,
{
    lemma_ascending_floor(list, capacity, i);
    lemma_ascending_ceiling(list, capacity, i);
}

proof fn lemma_ascending_floor(list: Seq<i32>, capacity: int, i: int)
    requires
        ascending(list),
        within(list, capacity),
        0 <= i < list.len(),
    ensures
        i <= list[i],
    decreases i,
{
    if i > 0 {
        lemma_ascending_floor(list, capacity, i - 1);
    }
}

proof fn lemma_ascending_ceiling(list: Seq<i32>, capacity: int, i: int)
    requires
        ascending(list),
        within(list, capacity),
        0 <= i < list.len(),
    ensures
        list[i] <= capacity - list.len() + i,
    decreases list.len() - i,
{
    if i < list.len() - 1 {
        lemma_ascending_ceiling(list, capacity, i + 1);
    }
}

/// An ascending list of positions below `capacity` names as many positions
/// as it is long, so that the free positions are the rest.
pub proof fn lemma_free_count(list: Seq<i32>, capacity: int)
    requires
        ascending(list),
        within(list, capacity),
        0 <= capacity,
    ensures
        list.len() <= capacity,
        free_below(positions(list), capacity) == capacity - list.len(),
{
    if list.len() > 0 {
        lemma_ascending_bounds(list, capacity, list.len() - 1);
    }
    lemma_free_count_upto(list, capacity, capacity, list.len() as int);
}

/// Below a bound that splits an ascending list at `idx`, the taken positions
/// are the first `idx` entries.
proof fn lemma_free_count_upto(list: Seq<i32>, capacity: int, bound: int, idx: int)
    requires
        ascending(list),
        within(list, capacity),
        0 <= bound,
        0 <= idx <= list.len(),
        forall|j: int| 0 <= j < idx ==> #[trigger] list[j] < bound,
        forall|j: int| idx <= j < list.len() ==> #[trigger] list[j] >= bound,
    ensures
        free_below(positions(list), bound) == bound - idx,
    decreases bound,
{
    if bound > 0 {
        if idx > 0 && list[idx - 1] == bound - 1 {
            lemma_free_count_upto(list, capacity, bound - 1, idx - 1);
        } else {
            assert(!positions(list).contains(bound - 1)) by {
                if positions(list).contains(bound - 1) {
                    let k = choose|k: int| 0 <= k < list.len() && #[trigger] list[k] == bound - 1;
                    if k < idx - 1 {
                        assert(list[k] < list[idx - 1]);
                    }
                }
            }
            assert forall|j: int| 0 <= j < idx implies #[trigger] list[j] < bound - 1 by {
                if j < idx - 1 {
                    assert(list[j] < list[idx - 1]);
                }
            }
            lemma_free_count_upto(list, capacity, bound - 1, idx);
        }
    } else {
        if idx > 0 {
            assert(list[0] < bound);
        }
    }
}

/// Draws a number at random, at least 0 and below `bound`.
///
/// This calls `rand::Rng::gen_range` on the generator of the current thread,
/// `rand::thread_rng()`, with the bounds 0 and `bound`. The crate documents
/// the value as lying in the half-open range between its two bounds, and it
/// panics on an empty range, which the precondition leaves out. The contract
/// claims the range and nothing else: which value comes is left open, and
/// two draws with one bound may differ. The generator itself gives up where
/// the operating system hands it no seed.
#[verifier::external_body]
fn draw_below(bound: i32) -> (drawn: i32)
    requires
        0 < bound,
    ensures
        0 <= drawn < bound,
{
    rand::Rng::gen_range(&mut rand::thread_rng(), 0, bound)
}

/// Puts `x` into an ascending list, unless it is there already.
pub fn insert_sorted(list: &mut Vec<i32>, x: i32)
    requires
        ascending(old(list)@),
    ensures
        ascending(final(list)@),
        forall|y: i32| final(list)@.contains(y) <==> old(list)@.contains(y) || y == x,
        final(list)@.len() == old(list)@.len() + if old(list)@.contains(x) {
            0int
        } else {
            1int
        },
{
    let ghost before = list@;
    let mut i: usize = 0;
    while i < list.len() && list[i] < x
        invariant
            list@ == before,
            ascending(before),
            i <= list.len(),
            forall|j: int| 0 <= j < i ==> #[trigger] before[j] < x,
        decreases list.len() - i,
    {
        i += 1;
    }
    if i < list.len() && list[i] == x {
        return ;
    }
    list.insert(i, x);
    proof {
        let after = list@;
        assert forall|y: i32| after.contains(y) <==> before.contains(y) || y == x by {
            if before.contains(y) {
                let k = choose|k: int| 0 <= k < before.len() && before[k] == y;
                if k < i {
                    assert(after[k] == y);
                } else {
                    assert(after[k + 1] == y);
                }
            }
            if y == x {
                assert(after[i as int] == y);
            }
        }
    }
}

/// Whether one of the first `upto` cells of `body` lies at position `pos`
/// of `board`.
pub open spec fn among(board: Board, body: Seq<Block>, upto: int, pos: int) -> bool {
    exists|j: int| 0 <= j < upto && j < body.len() && board.linear(#[trigger] body[j]) == pos
}

/// Adds to an ascending list the positions of the cells that `snake`
/// covers.
fn add_cells(list: &mut Vec<i32>, snake: &Snake)
    requires
        snake@.wf(),
        ascending(old(list)@),
        within(old(list)@, snake@.board.capacity()),
    ensures
        ascending(final(list)@),
        within(final(list)@, snake@.board.capacity()),
        forall|y: i32|
            #![trigger final(list)@.contains(y)]
            final(list)@.contains(y) <==> old(list)@.contains(y) || among(
                snake@.board,
                snake@.body,
                snake@.body.len() as int,
                y as int,
            ),
{
    let ghost before = list@;
    let ghost body = snake@.body;
    let board = snake.board();
    let n: usize = snake.len();
    let mut i: usize = 0;
    while i < n
        invariant
            snake@.wf(),
            board == snake@.board,
            body == snake@.body,
            n == body.len(),
            i <= n,
            ascending(list@),
            within(list@, board.capacity()),
            forall|y: i32|
                #![trigger list@.contains(y)]
                list@.contains(y) <==> before.contains(y) || among(board, body, i as int, y as int),
        decreases n - i,
    {
        let cell = snake.segment(i);
        let ghost earlier = list@;
        let index: i32 = cell.to_i32(&board);
        insert_sorted(list, index);
        proof {
            assert forall|k: int| 0 <= k < list@.len() implies 0 <= #[trigger] list@[k]
                < board.capacity() by {
                assert(list@.contains(list@[k]));
            }
            assert forall|y: i32| #![trigger list@.contains(y)]
                list@.contains(y) <==> before.contains(y) || among(
                    board,
                    body,
                    i + 1,
                    y as int,
                ) by {
                assert(earlier.contains(y) <==> before.contains(y) || among(
                    board,
                    body,
                    i as int,
                    y as int,
                ));
                assert(among(board, body, i + 1, y as int) <==> among(
                    board,
                    body,
                    i as int,
                    y as int,
                ) || y == index) by {
                    assert(board.linear(body[i as int]) == index);
                }
            }
        }
        i += 1;
    }
}

/// Lists, in ascending order and each once, the positions of the cells that
/// the two snakes cover.
pub fn occupied_indices(player1: &Snake, player2: &Snake) -> (list: Vec<i32>)
    requires
        player1@.wf(),
        player2@.wf(),
        player1@.board == player2@.board,
    ensures
        ascending(list@),
        within(list@, player1@.board.capacity()),
        positions(list@) == taken(player1@.board, player1@, player2@),
{
    let mut list: Vec<i32> = Vec::new();
    add_cells(&mut list, player1);
    add_cells(&mut list, player2);
    proof {
        let board = player1@.board;
        let a = player1@;
        let b = player2@;
        assert forall|pos: int| positions(list@).contains(pos) implies taken(board, a, b).contains(
            pos,
        ) by {
            let k = choose|k: int| 0 <= k < list@.len() && #[trigger] list@[k] == pos;
            assert(list@.contains(list@[k]));
            if among(board, b.body, b.body.len() as int, pos) {
                let j = choose|j: int|
                    0 <= j < b.body.len() && board.linear(#[trigger] b.body[j]) == pos;
                board.lemma_linear_cell_at(b.body[j]);
            } else {
                let j = choose|j: int|
                    0 <= j < a.body.len() && board.linear(#[trigger] a.body[j]) == pos;
                board.lemma_linear_cell_at(a.body[j]);
            }
        }
        assert forall|pos: int| taken(board, a, b).contains(pos) implies positions(list@).contains(
            pos,
        ) by {
            let cell = board.cell_at(pos);
            board.lemma_cell_at_linear(pos);
            if a.occupies(cell) {
                let j = choose|j: int| 0 <= j < a.body.len() && a.body[j] == cell;
                assert(among(board, a.body, a.body.len() as int, pos));
            } else {
                let j = choose|j: int| 0 <= j < b.body.len() && b.body[j] == cell;
                assert(among(board, b.body, b.body.len() as int, pos));
            }
            assert(list@.contains(pos as i32));
        }
        assert(positions(list@) =~= taken(board, a, b));
    }
    list
}

/// Finds the free position with `rank` free positions before it, by walking
/// up from position 0 along the ascending list of taken positions.
pub fn nth_free(list: &Vec<i32>, capacity: i32, rank: i32) -> (pos: i32)
    requires
        ascending(list@),
        within(list@, capacity as int),
        0 <= rank < capacity - list@.len(),
    ensures
        is_nth_free(positions(list@), capacity as int, rank as int, pos as int),
{
    let len: usize = list.len();
    let ghost set = positions(list@);
    let mut rand_num: i32 = rank;
    let mut pos: i32 = 0;
    let mut idx: usize = 0;
    while rand_num > -1
        invariant
            ascending(list@),
            within(list@, capacity as int),
            set == positions(list@),
            len == list@.len(),
            0 <= rank < capacity - len,
            idx <= len,
            -1 <= rand_num <= rank,
            0 <= pos,
            pos - idx == rank - rand_num,
            free_below(set, pos as int) == pos - idx,
            forall|j: int| 0 <= j < idx ==> #[trigger] list@[j] < pos,
            forall|j: int| idx <= j < len ==> #[trigger] list@[j] >= pos,
            rand_num == -1 ==> pos >= 1 && !set.contains(pos - 1),
        decreases capacity - pos,
    {
        proof {
            // The position is taken just when the next entry of the list names it.
            assert(set.contains(pos as int) <==> idx < len && list@[idx as int] == pos) by {
                if set.contains(pos as int) {
                    let k = choose|k: int| 0 <= k < list@.len() && #[trigger] list@[k] == pos;
                    if k > idx {
                        assert(list@[idx as int] < list@[k]);
                    }
                }
            }
            assert forall|j: int| idx + 1 <= j < len implies #[trigger] list@[j] >= pos + 1 by {
                assert(list@[idx as int] < list@[j]);
            }
        }
        if idx < len && pos == list[idx] {
            idx += 1;
            pos += 1;
        } else {
            pos += 1;
            rand_num -= 1;
        }
    }
    pos -= 1;
    pos
}

impl Block {
    /// Moves the egg to a cell drawn at random among those that neither
    /// snake covers. Where the snakes cover the whole board the egg stays
    /// and the board is reported as full.
    ///
    /// A number below the count of free cells is drawn, and `nth_free` says
    /// which cell answers to it. Which number is drawn is left open, so the
    /// contract names no cell: it holds of every free cell that can come.
    pub fn regenerate(&mut self, player1: &Snake, player2: &Snake) -> (placed: Result<
        (),
        GameError,
    >)
        requires
            player1@.wf(),
            player2@.wf(),
            player1@.board == player2@.board,
        ensures
            placed is Err <==> forall|cell: Block|
                player1@.board.contains(cell) ==> occupied(player1@, player2@, cell),
            placed is Err ==> placed == Err::<(), GameError>(GameError::BoardFull) && *final(self)
                == *old(self),
            placed is Ok ==> player1@.board.contains(*final(self)) && !occupied(
                player1@,
                player2@,
                *final(self),
            ),
    {
        let board = player1.board();
        let capacity: i32 = board.area();
        let occupied_pos = occupied_indices(player1, player2);
        let len: usize = occupied_pos.len();
        proof {
            lemma_free_count(occupied_pos@, capacity as int);
        }
        let free: i32 = capacity - (len as i32);
        if free == 0 {
            proof {
                assert forall|cell: Block| board.contains(cell) implies occupied(
                    player1@,
                    player2@,
                    cell,
                ) by {
                    let pos = board.linear(cell);
                    board.lemma_linear_in_range(cell);
                    board.lemma_linear_cell_at(cell);
                    lemma_ascending_bounds(occupied_pos@, capacity as int, pos);
                    assert(occupied_pos@[pos] == pos);
                    assert(taken(board, player1@, player2@).contains(pos));
                }
            }
            return Err(GameError::BoardFull);
        }
        let rand_num: i32 = draw_below(free);
        let pos: i32 = nth_free(&occupied_pos, capacity, rand_num);
        let cell = board.cell(pos);
        assert(!taken(board, player1@, player2@).contains(pos as int));
        *self = cell;
        Ok(())
    }
}

} // verus!
