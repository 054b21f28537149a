//! A snake: its segments from head to tail, its heading, and whether it
//! grows at its next move.

use crate::board::Block;
use crate::board::Board;
use crate::board::GAME_HEIGHT;
use crate::board::GAME_WIDTH;
use crate::error::GameError;
use crate::heading::Dir;
use crate::input::Input;
use vstd::prelude::*;

verus! {

/// What a snake's head has met after a move, and how a tick ends.
#[derive(Clone, Copy, Debug, PartialEq, Eq, Structural)]
pub enum Collision {
    /// The first player ran into a snake and loses.
    Player1,
    /// The second player ran into a snake and loses.
    Player2,
    /// Both players ran into a snake and lose.
    Both,
    /// The head lies on the egg.
    Egg,
    /// Nothing was met.
    Null,
}

/// A snake of one of the two players.
#[derive(Debug)]
pub struct Snake {
    body: Vec<Block>,
    grow: bool,
    dir: Dir,
    id: i8,
    board: Board,
}

/// A snake as contracts see it.
pub struct SnakeView {
    /// The segments, head first.
    pub body: Seq<Block>,
    /// Whether the snake gains a segment at its next move.
    pub grow: bool,
    /// Where the head moves next.
    pub dir: Dir,
    /// The player slot: 0 for the first player, 1 for the second.
    pub id: i8,
    /// The board on which the snake moves.
    pub board: Board,
}

impl SnakeView {
    /// A snake has a head, lies on its board, and belongs to one of the two
    /// players.
    pub open spec fn wf(self) -> bool {
        &&& self.board.wf()
        &&& self.body.len() >= 1
        &&& forall|i: int| 0 <= i < self.body.len() ==> self.board.contains(#[trigger] self.body[i])
        &&& (self.id == 0 || self.id == 1)
    }

    /// The first segment.
    pub open spec fn head(self) -> Block {
        self.body[0]
    }

    /// Whether a segment lies on `cell`.
    pub open spec fn occupies(self, cell: Block) -> bool {
        self.body.contains(cell)
    }

    /// The snake after it was asked to turn: it takes the heading asked for,
    /// unless none was asked for or the request points back along its
    /// heading.
    pub open spec fn turned(self, request: Option<Dir>) -> SnakeView {
        SnakeView { dir: self.dir.turned(request), ..self }
    }

    /// The snake after one move. The head goes one step along the heading;
    /// every other segment takes the place of the one before it; a snake
    /// that was to grow keeps its old tail cell as a new last segment.
    pub open spec fn advanced(self) -> SnakeView {
        SnakeView {
            body: seq![self.board.stepped(self.body[0], self.dir)] + if self.grow {
                self.body
            } else {
                self.body.drop_last()
            },
            grow: false,
            ..self
        }
    }

    /// The snake with its growth marked for the next move.
    pub open spec fn fed(self) -> SnakeView {
        SnakeView { grow: true, ..self }
    }

    /// Whether some cell is covered by this snake and by `other`.
    pub open spec fn shares_cell(self, other: SnakeView) -> bool {
        exists|i: int| 0 <= i < self.body.len() && other.occupies(#[trigger] self.body[i])
    }

    /// Whether the head lies on another segment of this snake.
    pub open spec fn bites_itself(self) -> bool {
        exists|i: int| 1 <= i < self.body.len() && #[trigger] self.body[i] == self.body[0]
    }

    /// Whether the head lies on a segment of `other`, its head included.
    pub open spec fn runs_into(self, other: SnakeView) -> bool {
        exists|i: int| 0 <= i < other.body.len() && #[trigger] other.body[i] == self.body[0]
    }

    /// Whether the snake has lost against `other`.
    pub open spec fn crashed(self, other: SnakeView) -> bool {
        self.bites_itself() || self.runs_into(other)
    }

    /// What the head has met. Running into a snake goes before the egg: a
    /// snake that does both at once has lost.
    pub open spec fn collision(self, egg: Block, other: SnakeView) -> Collision {
        if self.crashed(other) {
            if self.id == 0 {
                Collision::Player1
            } else {
                Collision::Player2
            }
        } else if self.body[0] == egg {
            Collision::Egg
        } else {
            Collision::Null
        }
    }
}

impl View for Snake {
    type V = SnakeView;

    closed spec fn view(&self) -> SnakeView {
        SnakeView {
            body: self.body@,
            grow: self.grow,
            dir: self.dir,
            id: self.id,
            board: self.board,
        }
    }
}

impl Snake {
    /// The snake with which a player starts on the standard board: one
    /// segment in a corner, heading for the opposite side. The first player
    /// starts in the first corner and heads right, the second in the last
    /// corner and heads left.
    pub fn new(id: i8) -> (snake: Snake)
        requires
            id == 0 || id == 1,
        ensures
            snake@.wf(),
            snake@.board == (Board { x_min: 0, y_min: 0, width: GAME_WIDTH, height: GAME_HEIGHT }),
            snake@.id == id,
            !snake@.grow,
            id == 0 ==> snake@.body == seq![Block { x: 0, y: 0 }] && snake@.dir == Dir::Right,
            id == 1 ==> snake@.body == seq![Block { x: 39, y: 21 }] && snake@.dir == Dir::Left,
    {
        let mut snake = Snake {
            body: Vec::new(),
            grow: false,
            dir: Dir::Right,
            id: id,
            board: Board::standard(),
        };
        if id == 0 {
            let block = Block { x: 0, y: 0 };
            snake.body.push(block);
        } else {
            let block = Block { x: GAME_WIDTH - 1, y: GAME_HEIGHT - 1 };
            snake.dir = Dir::Left;
            snake.body.push(block);
        }
        snake
    }

    /// A snake with the given segments, head first, that does not grow yet.
    /// The set-up is refused if `board` is no board, if `id` is no player
    /// slot, if there is no segment, or if a segment lies outside the board;
    /// the first of these that holds names the error.
    pub fn with_body(board: Board, id: i8, dir: Dir, cells: Vec<Block>) -> (made: Result<
        Snake,
        GameError,
    >)
        ensures
            !board.wf() ==> made == Err::<Snake, GameError>(GameError::BadBoard),
            board.wf() && id != 0 && id != 1 ==> made == Err::<Snake, GameError>(
                GameError::BadSlot,
            ),
            board.wf() && (id == 0 || id == 1) && cells@.len() == 0 ==> made == Err::<
                Snake,
                GameError,
            >(GameError::EmptyBody),
            board.wf() && (id == 0 || id == 1) && cells@.len() > 0 && (exists|i: int|
                0 <= i < cells@.len() && !board.contains(#[trigger] cells@[i])) ==> made == Err::<
                Snake,
                GameError,
            >(GameError::OutsideBoard),
            board.wf() && (id == 0 || id == 1) && cells@.len() > 0 && (forall|i: int|
                0 <= i < cells@.len() ==> board.contains(#[trigger] cells@[i])) ==> made is Ok
                && made->Ok_0@ == (SnakeView { body: cells@, grow: false, dir, id, board }),
            made is Ok ==> made->Ok_0@.wf(),
    {
        if !board.is_valid() {
            return Err(GameError::BadBoard);
        }
        if id != 0 && id != 1 {
            return Err(GameError::BadSlot);
        }
        if cells.len() == 0 {
            return Err(GameError::EmptyBody);
        }
        let mut i: usize = 0;
        while i < cells.len()
            invariant
                board.wf(),
                id == 0 || id == 1,
                0 < cells.len(),
                i <= cells.len(),
                forall|j: int| 0 <= j < i ==> board.contains(#[trigger] cells@[j]),
            decreases cells.len() - i,
        {
            if !board.holds(&cells[i]) {
                return Err(GameError::OutsideBoard);
            }
            i += 1;
        }
        Ok(Snake { body: cells, grow: false, dir, id, board })
    }

    /// Tells what the head has met after a move: a snake, the egg, or
    /// nothing. Only the head is looked at.
    pub fn check_collision(&self, egg: &Block, other: &Snake) -> (met: Collision)
        requires
            self@.wf(),
        ensures
            met == self@.collision(*egg, other@),
    {
        let head = self.body[0];
        let mut i: usize = 1;
        while i < self.body.len()
            invariant
                self@.wf(),
                1 <= i <= self.body.len(),
                head == self.body@[0],
                forall|j: int| 1 <= j < i ==> self.body@[j] != head,
            decreases self.body.len() - i,
        {
            let block = self.body[i];
            if head.x == block.x && head.y == block.y {
                if self.id == 0 {
                    return Collision::Player1;
                } else {
                    return Collision::Player2;
                }
            }
            i += 1;
        }
        let mut k: usize = 0;
        while k < other.body.len()
            invariant
                self@.wf(),
                k <= other.body.len(),
                head == self.body@[0],
                !self@.bites_itself(),
                forall|j: int| 0 <= j < k ==> other.body@[j] != head,
            decreases other.body.len() - k,
        {
            let block = other.body[k];
            if head.x == block.x && head.y == block.y {
                assert(other@.body[k as int] == self@.body[0]);
                if self.id == 0 {
                    return Collision::Player1;
                } else {
                    return Collision::Player2;
                }
            }
            k += 1;
        }
        if head.x == egg.x && head.y == egg.y {
            Collision::Egg
        } else {
            Collision::Null
        }
    }

    /// Turns the snake as the player in slot `player` asked. A request that
    /// points back along the snake's heading is ignored, and so is the
    /// absence of one.
    pub fn update_dir(&mut self, input: &Input, player: i8)
        ensures
            final(self)@ == old(self)@.turned(input.requested(player)),
            old(self)@.wf() ==> final(self)@.wf(),
    {
        match input.request(player) {
            Some(Dir::Left) => {
                if self.dir != Dir::Right {
                    self.dir = Dir::Left;
                }
            },
            Some(Dir::Right) => {
                if self.dir != Dir::Left {
                    self.dir = Dir::Right;
                }
            },
            Some(Dir::Up) => {
                if self.dir != Dir::Down {
                    self.dir = Dir::Up;
                }
            },
            Some(Dir::Down) => {
                if self.dir != Dir::Up {
                    self.dir = Dir::Down;
                }
            },
            None => {},
        }
    }

    /// Moves the snake by one cell along its heading, around the edge of
    /// the board where it is at one, and lets it grow if it was to.
    pub fn update_pos(&mut self)
        requires
            old(self)@.wf(),
        ensures
            final(self)@ == old(self)@.advanced(),
            final(self)@.wf(),
    {
        let ghost before = self@;
        let n: usize = self.body.len();
        let head = self.body[0];
        let mut prev_pos = head;
        let next = self.board.step(head, self.dir);
        self.body.set(0, next);
        let mut i: usize = 1;
        while i < n
            invariant
                before.wf(),
                1 <= i <= n,
                n == self.body@.len(),
                n == before.body.len(),
                self.grow == before.grow,
                self.dir == before.dir,
                self.id == before.id,
                self.board == before.board,
                self.body@[0] == next,
                prev_pos == before.body[i - 1],
                forall|j: int| 1 <= j < i ==> self.body@[j] == before.body[j - 1],
                forall|j: int| i <= j < n ==> self.body@[j] == before.body[j],
            decreases n - i,
        {
            let temp_pos = self.body[i];
            self.body.set(i, prev_pos);
            prev_pos = temp_pos;
            i += 1;
        }
        if self.grow {
            self.body.push(prev_pos);
            self.grow = false;
        }
        proof {
            assert(self.body@ =~= before.advanced().body);
            assert forall|j: int| 0 <= j < self.body@.len() implies before.board.contains(
                #[trigger] self.body@[j],
            ) by {
                if j > 0 {
                    assert(self.body@[j] == before.body[j - 1]);
                }
            }
        }
    }

    /// Marks the snake to grow by one segment at its next move.
    pub fn mark_growth(&mut self)
        ensures
            final(self)@ == old(self)@.fed(),
            old(self)@.wf() ==> final(self)@.wf(),
    {
        self.grow = true;
    }

    /// Tells whether a segment lies on `cell`.
    pub fn covers(&self, cell: &Block) -> (found: bool)
        ensures
            found == self@.occupies(*cell),
    {
        let mut i: usize = 0;
        while i < self.body.len()
            invariant
                i <= self.body.len(),
                forall|j: int| 0 <= j < i ==> self.body@[j] != *cell,
            decreases self.body.len() - i,
        {
            let block = self.body[i];
            if block.x == cell.x && block.y == cell.y {
                return true;
            }
            i += 1;
        }
        false
    }

    /// Tells whether some cell is covered by this snake and by `other`.
    pub fn overlaps(&self, other: &Snake) -> (found: bool)
        ensures
            found == self@.shares_cell(other@),
    {
        let mut i: usize = 0;
        while i < self.body.len()
            invariant
                i <= self.body.len(),
                forall|j: int| 0 <= j < i ==> !other@.occupies(#[trigger] self.body@[j]),
            decreases self.body.len() - i,
        {
            if other.covers(&self.body[i]) {
                assert(other@.occupies(self@.body[i as int]));
                return true;
            }
            i += 1;
        }
        false
    }

    /// The cell of the head.
    pub fn head(&self) -> (cell: Block)
        requires
            self@.wf(),
        ensures
            cell == self@.head(),
    {
        self.body[0]
    }

    /// The number of segments.
    pub fn len(&self) -> (count: usize)
        ensures
            count == self@.body.len(),
    {
        self.body.len()
    }

    /// The cell of the segment at `index`, counted from the head.
    pub fn segment(&self, index: usize) -> (cell: Block)
        requires
            index < self@.body.len(),
        ensures
            cell == self@.body[index as int],
    {
        self.body[index]
    }

    /// The heading.
    pub fn heading(&self) -> (dir: Dir)
        ensures
            dir == self@.dir,
    {
        self.dir
    }

    /// Whether the snake grows at its next move.
    pub fn grows(&self) -> (pending: bool)
        ensures
            pending == self@.grow,
    {
        self.grow
    }

    /// The player slot.
    pub fn id(&self) -> (slot: i8)
        ensures
            slot == self@.id,
    {
        self.id
    }

    /// The board on which the snake moves.
    pub fn board(&self) -> (board: Board)
        ensures
            board == self@.board,
    {
        self.board
    }
}

/// A move never takes a snake off its board: every segment still lies on
/// it, whatever the heading and wherever the head was.
pub proof fn lemma_move_stays_on_board(snake: SnakeView, request: Option<Dir>)
    requires
        snake.wf(),
    ensures
        snake.turned(request).advanced().wf(),
        snake.board.contains(snake.turned(request).advanced().head()),
{
    let t = snake.turned(request);
    let m = t.advanced();
    assert forall|i: int| 0 <= i < m.body.len() implies m.board.contains(#[trigger] m.body[i]) by {
        if i > 0 {
            assert(m.body[i] == t.body[i - 1]);
        }
    }
}

/// Growth comes one move late. Marking a snake to grow adds no segment:
/// after the move in which it ate, the snake is as long as that move left
/// it. Its next move adds exactly one segment and takes the mark off, and
/// without the mark that move adds none.
pub proof fn lemma_growth_comes_one_move_late(
    snake: SnakeView,
    first: Option<Dir>,
    second: Option<Dir>,
)
    requires
        snake.wf(),
    ensures
        snake.turned(first).advanced().body.len() == snake.body.len() + if snake.grow {
            1int
        } else {
            0int
        },
        snake.turned(first).advanced().fed().body.len() == snake.turned(
            first,
        ).advanced().body.len(),
        snake.turned(first).advanced().fed().turned(second).advanced().body.len() == snake.turned(
            first,
        ).advanced().body.len() + 1,
        !snake.turned(first).advanced().fed().turned(second).advanced().grow,
        snake.turned(first).advanced().turned(second).advanced().body.len() == snake.turned(
            first,
        ).advanced().body.len(),
{
}

/// A snake that is asked to turn back along its heading keeps its heading,
/// whichever of the four it is.
pub proof fn lemma_reversal_is_ignored(snake: SnakeView)
    ensures
        snake.turned(Some(snake.dir.opposite())) == snake,
        snake.turned(None) == snake,
{
}

/// A loss goes before the egg: a snake whose head lies on a snake has lost,
/// even where the egg lies under its head as well.
pub proof fn lemma_crash_hides_egg(snake: SnakeView, egg: Block, other: SnakeView)
    requires
        snake.crashed(other),
    ensures
        snake.collision(egg, other) != Collision::Egg,
        snake.collision(egg, other) != Collision::Null,
{
}

} // verus!
