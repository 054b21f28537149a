//! The board: a rectangle of cells whose opposite edges are joined, so that a
//! step past one edge arrives at the other.

use crate::heading::Dir;
use vstd::arithmetic::div_mod::lemma_fundamental_div_mod;
use vstd::arithmetic::div_mod::lemma_fundamental_div_mod_converse;
use vstd::prelude::*;

verus! {

/// Rows of the whole screen, borders included.
pub const MAIN_HEIGHT: i32 = 24;

/// Columns of the whole screen, borders included.
pub const MAIN_WIDTH: i32 = 70;

/// Rows of the playing field of the standard layout.
pub const GAME_HEIGHT: i32 = MAIN_HEIGHT - 2;

/// Columns of the playing field of the standard layout.
pub const GAME_WIDTH: i32 = 40;

/// Rows of the information panel beside the playing field.
pub const INFO_HEIGHT: i32 = MAIN_HEIGHT - 2;

/// Columns of the information panel beside the playing field.
pub const INFO_WIDTH: i32 = MAIN_WIDTH - GAME_WIDTH - 3;

/// One cell of the board: a snake segment or the egg.
#[derive(Clone, Copy, Debug, PartialEq, Eq, Structural)]
pub struct Block {
    pub x: i32,
    pub y: i32,
}

/// The playing field: `width` columns starting at `x_min` and `height` rows
/// starting at `y_min`.
#[derive(Clone, Copy, Debug, PartialEq, Eq, Structural)]
pub struct Board {
    pub x_min: i32,
    pub y_min: i32,
    pub width: i32,
    pub height: i32,
}

impl Block {
    /// The cell in the corner of the screen, where an egg lies before it is
    /// first placed.
    pub fn new() -> (block: Block)
        ensures
            block == (Block { x: 0, y: 0 }),
    {
        Block { x: 0, y: 0 }
    }

    /// The position of this cell when the cells of `board` are counted row by
    /// row from its first corner.
    pub fn to_i32(&self, board: &Board) -> (index: i32)
        requires
            board.wf(),
            board.contains(*self),
        ensures
            index == board.linear(*self),
            0 <= index < board.capacity(),
    {
        let row: i32 = self.y - board.y_min;
        let column: i32 = self.x - board.x_min;
        proof {
            board.lemma_linear_in_range(*self);
        }
        row * board.width + column
    }
}

impl Board {
    /// A board has at least one cell, lies at non-negative coordinates, and
    /// neither its far edges nor its number of cells overflow an `i32`.
    pub open spec fn wf(&self) -> bool {
        &&& 0 <= self.x_min
        &&& 0 <= self.y_min
        &&& 1 <= self.width
        &&& 1 <= self.height
        &&& self.x_min + self.width <= i32::MAX
        &&& self.y_min + self.height <= i32::MAX
        &&& self.width * self.height <= i32::MAX
    }

    /// The number of cells.
    pub open spec fn capacity(&self) -> int {
        self.width * self.height
    }

    /// Whether `cell` lies on the board.
    pub open spec fn contains(&self, cell: Block) -> bool {
        &&& self.x_min <= cell.x < self.x_min + self.width
        &&& self.y_min <= cell.y < self.y_min + self.height
    }

    /// The position of `cell` when the cells are counted row by row.
    pub open spec fn linear(&self, cell: Block) -> int {
        (cell.y - self.y_min) * self.width + (cell.x - self.x_min)
    }

    /// The cell at position `pos` when the cells are counted row by row.
    pub open spec fn cell_at(&self, pos: int) -> Block {
        Block {
            x: (self.x_min + pos % (self.width as int)) as i32,
            y: (self.y_min + pos / (self.width as int)) as i32,
        }
    }

    /// The cell one step from `cell` in direction `dir`, where a step past an
    /// edge arrives at the opposite edge.
    pub open spec fn stepped(&self, cell: Block, dir: Dir) -> Block {
        match dir {
            Dir::Left => Block {
                x: if cell.x == self.x_min {
                    (self.x_min + self.width - 1) as i32
                } else {
                    (cell.x - 1) as i32
                },
                y: cell.y,
            },
            Dir::Right => Block {
                x: if cell.x == self.x_min + self.width - 1 {
                    self.x_min
                } else {
                    (cell.x + 1) as i32
                },
                y: cell.y,
            },
            Dir::Up => Block {
                x: cell.x,
                y: if cell.y == self.y_min {
                    (self.y_min + self.height - 1) as i32
                } else {
                    (cell.y - 1) as i32
                },
            },
            Dir::Down => Block {
                x: cell.x,
                y: if cell.y == self.y_min + self.height - 1 {
                    self.y_min
                } else {
                    (cell.y + 1) as i32
                },
            },
        }
    }

    /// The playing field of the standard layout, with its first cell in the
    /// corner of its window.
    pub fn standard() -> (board: Board)
        ensures
            board == (Board { x_min: 0, y_min: 0, width: GAME_WIDTH, height: GAME_HEIGHT }),
            board.wf(),
    {
        Board { x_min: 0, y_min: 0, width: GAME_WIDTH, height: GAME_HEIGHT }
    }

    /// Tells whether the four numbers describe a board.
    pub fn is_valid(&self) -> (valid: bool)
        ensures
            valid == self.wf(),
    {
        if self.x_min < 0 || self.y_min < 0 || self.width < 1 || self.height < 1 {
            return false;
        }
        if self.width > i32::MAX - self.x_min || self.height > i32::MAX - self.y_min {
            return false;
        }
        let fits: bool = self.height <= i32::MAX / self.width;
        proof {
            let w: int = self.width as int;
            let h: int = self.height as int;
            let q: int = i32::MAX as int / w;
            lemma_fundamental_div_mod(i32::MAX as int, w);
            if h <= q {
                assert(w * h <= w * q) by (nonlinear_arith)
                    requires
                        0 < w,
                        h <= q,
                ;
            } else {
                assert(w * h >= w * (q + 1)) by (nonlinear_arith)
                    requires
                        0 < w,
                        h >= q + 1,
                ;
                assert(w * (q + 1) == w * q + w) by (nonlinear_arith);
            }
        }
        fits
    }

    /// The number of cells.
    pub fn area(&self) -> (cells: i32)
        requires
            self.wf(),
        ensures
            cells == self.capacity(),
            cells >= 1,
    {
        proof {
            let w: int = self.width as int;
            let h: int = self.height as int;
            assert(w * h >= 1) by (nonlinear_arith)
                requires
                    w >= 1,
                    h >= 1,
            ;
        }
        self.width * self.height
    }

    /// Tells whether `cell` lies on the board.
    pub fn holds(&self, cell: &Block) -> (inside: bool)
        requires
            self.wf(),
        ensures
            inside == self.contains(*cell),
    {
        self.x_min <= cell.x && cell.x - self.x_min < self.width && self.y_min <= cell.y && cell.y
            - self.y_min < self.height
    }

    /// The cell at position `pos` when the cells are counted row by row.
    pub fn cell(&self, pos: i32) -> (cell: Block)
        requires
            self.wf(),
            0 <= pos < self.capacity(),
        ensures
            cell == self.cell_at(pos as int),
            self.contains(cell),
            self.linear(cell) == pos,
    {
        proof {
            self.lemma_cell_at_linear(pos as int);
        }
        Block { x: self.x_min + pos % self.width, y: self.y_min + pos / self.width }
    }

    /// Moves one step from `cell` in direction `dir`, wrapping at the edges.
    pub fn step(&self, cell: Block, dir: Dir) -> (next: Block)
        requires
            self.wf(),
            self.contains(cell),
        ensures
            next == self.stepped(cell, dir),
            self.contains(next),
    {
        match dir {
            Dir::Left => Block {
                x: if cell.x == self.x_min {
                    self.x_min + (self.width - 1)
                } else {
                    cell.x - 1
                },
                y: cell.y,
            },
            Dir::Right => Block {
                x: if cell.x - self.x_min == self.width - 1 {
                    self.x_min
                } else {
                    cell.x + 1
                },
                y: cell.y,
            },
            Dir::Up => Block {
                x: cell.x,
                y: if cell.y == self.y_min {
                    self.y_min + (self.height - 1)
                } else {
                    cell.y - 1
                },
            },
            Dir::Down => Block {
                x: cell.x,
                y: if cell.y - self.y_min == self.height - 1 {
                    self.y_min
                } else {
                    cell.y + 1
                },
            },
        }
    }

    /// A step from a cell of the board, in any direction, arrives at a cell
    /// of the board.
    pub proof fn lemma_step_stays_on_board(&self, cell: Block, dir: Dir)
        requires
            self.wf(),
            self.contains(cell),
        ensures
            self.contains(self.stepped(cell, dir)),
    {
    }

    /// The position of a cell of the board is below the number of cells.
    pub proof fn lemma_linear_in_range(&self, cell: Block)
        requires
            self.wf(),
            self.contains(cell),
        ensures
            0 <= (cell.y - self.y_min) * self.width,
            (cell.y - self.y_min) * self.width <= self.capacity() - self.width,
            0 <= self.linear(cell) < self.capacity(),
    {
        let w: int = self.width as int;
        let h: int = self.height as int;
        let row: int = cell.y - self.y_min;
        assert(0 <= row * w) by (nonlinear_arith)
            requires
                0 <= row,
                0 < w,
        ;
        assert(row * w <= w * h - w) by (nonlinear_arith)
            requires
                row <= h - 1,
                0 < w,
        ;
    }

    /// Counting to a cell and then looking up the position counted gives the
    /// cell back.
    pub proof fn lemma_linear_cell_at(&self, cell: Block)
        requires
            self.wf(),
            self.contains(cell),
        ensures
            self.cell_at(self.linear(cell)) == cell,
    {
        let w: int = self.width as int;
        lemma_fundamental_div_mod_converse(
            self.linear(cell),
            w,
            cell.y - self.y_min,
            cell.x - self.x_min,
        );
    }

    /// Every position below the number of cells is that of one cell of the
    /// board.
    pub proof fn lemma_cell_at_linear(&self, pos: int)
        requires
            self.wf(),
            0 <= pos < self.capacity(),
        ensures
            0 <= pos % (self.width as int) < self.width,
            0 <= pos / (self.width as int) < self.height,
            self.contains(self.cell_at(pos)),
            self.linear(self.cell_at(pos)) == pos,
    {
        let w: int = self.width as int;
        let h: int = self.height as int;
        let q: int = pos / w;
        let r: int = pos % w;
        lemma_fundamental_div_mod(pos, w);
        assert(0 <= r < w);
        assert(0 <= q < h) by (nonlinear_arith)
            requires
                pos == w * q + r,
                0 <= r < w,
                0 <= pos < w * h,
                0 < w,
        ;
        assert(q * w == w * q) by (nonlinear_arith);
    }
}

} // verus!
