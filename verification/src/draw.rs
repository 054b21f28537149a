//! What to draw: the characters that show the snakes and the egg, cell by
//! cell, and the blanks that wipe them out again.

use crate::board::Block;
use crate::snake::Snake;
use vstd::prelude::*;

verus! {

/// The character that shows the egg: a plus sign.
pub const EGG: u64 = 43;

/// The character that shows the first player's head: a capital `X`.
pub const HEAD_1: u64 = 88;

/// The character that shows the first player's other segments: a small `x`.
pub const BODY_1: u64 = 120;

/// The character that shows the second player's head: a capital `O`.
pub const HEAD_2: u64 = 79;

/// The character that shows the second player's other segments: a small `o`.
pub const BODY_2: u64 = 111;

/// The character that wipes a cell out: a space.
pub const BLANK: u64 = 32;

/// A character to put on the screen, with the column and the row of its
/// cell.
#[derive(Clone, Copy, Debug, PartialEq, Eq, Structural)]
pub struct Glyph {
    pub x: i32,
    pub y: i32,
    pub ch: u64,
}

/// The character `ch` at the cell `cell`.
pub open spec fn glyph_at(cell: Block, ch: u64) -> Glyph {
    Glyph { x: cell.x, y: cell.y, ch }
}

/// A snake's segments from head to tail, the head shown as `head` and the
/// others as `rest`.
pub open spec fn snake_glyphs(body: Seq<Block>, head: u64, rest: u64) -> Seq<Glyph> {
    Seq::new(
        body.len(),
        |i: int|
            glyph_at(
                body[i],
                if i == 0 {
                    head
                } else {
                    rest
                },
            ),
    )
}

/// A blank at each of a snake's segments, from head to tail.
pub open spec fn snake_blanks(body: Seq<Block>) -> Seq<Glyph> {
    Seq::new(body.len(), |i: int| glyph_at(body[i], BLANK))
}

/// The whole picture: the first snake, then the second, then the egg.
pub open spec fn picture(first: Seq<Block>, second: Seq<Block>, egg: Block) -> Seq<Glyph> {
    snake_glyphs(first, HEAD_1, BODY_1) + snake_glyphs(second, HEAD_2, BODY_2) + seq![
        glyph_at(egg, EGG),
    ]
}

/// The blanks that wipe out both snakes: the first snake's, then the
/// second's.
pub open spec fn blanks(first: Seq<Block>, second: Seq<Block>) -> Seq<Glyph> {
    snake_blanks(first) + snake_blanks(second)
}

impl Block {
    /// The character `ch` at this cell.
    pub fn print(&self, ch: u64) -> (glyph: Glyph)
        ensures
            glyph == glyph_at(*self, ch),
    {
        Glyph { x: self.x, y: self.y, ch }
    }
}

impl Snake {
    /// Adds to `out` the characters that show this snake, head first.
    fn print_into(&self, head: u64, body: u64, out: &mut Vec<Glyph>)
        ensures
            final(out)@ == old(out)@ + snake_glyphs(self@.body, head, body),
    {
        let ghost before = out@;
        let n: usize = self.len();
        let mut i: usize = 0;
        while i < n
            invariant
                n == self@.body.len(),
                i <= n,
                out@ == before + snake_glyphs(self@.body, head, body).take(i as int),
            decreases n - i,
        {
            let ch: u64 = if i == 0 {
                head
            } else {
                body
            };
            out.push(self.segment(i).print(ch));
            proof {
                let all = snake_glyphs(self@.body, head, body);
                assert(all.take(i + 1) == all.take(i as int).push(all[i as int]));
            }
            i += 1;
        }
        proof {
            let all = snake_glyphs(self@.body, head, body);
            assert(all.take(n as int) == all);
        }
    }

    /// The characters that show this snake, head first: `head` for the
    /// head, `body` for every other segment.
    pub fn print(&self, head: u64, body: u64) -> (glyphs: Vec<Glyph>)
        ensures
            glyphs@ == snake_glyphs(self@.body, head, body),
    {
        let mut glyphs: Vec<Glyph> = Vec::new();
        self.print_into(head, body, &mut glyphs);
        glyphs
    }

    /// The blanks that wipe this snake out, head first.
    pub fn unprint(&self) -> (glyphs: Vec<Glyph>)
        ensures
            glyphs@ == snake_blanks(self@.body),
    {
        let mut glyphs: Vec<Glyph> = Vec::new();
        self.print_into(BLANK, BLANK, &mut glyphs);
        assert(snake_glyphs(self@.body, BLANK, BLANK) == snake_blanks(self@.body));
        glyphs
    }
}

/// The characters that show the round: the first snake, then the second,
/// then the egg.
pub fn print(player1: &Snake, player2: &Snake, egg: &Block) -> (glyphs: Vec<Glyph>)
    ensures
        glyphs@ == picture(player1@.body, player2@.body, *egg),
{
    let mut glyphs: Vec<Glyph> = Vec::new();
    player1.print_into(HEAD_1, BODY_1, &mut glyphs);
    player2.print_into(HEAD_2, BODY_2, &mut glyphs);
    glyphs.push(egg.print(EGG));
    glyphs
}

/// The blanks that wipe both snakes out: the first snake's, then the
/// second's. The egg stays.
pub fn unprint(player1: &Snake, player2: &Snake) -> (glyphs: Vec<Glyph>)
    ensures
        glyphs@ == blanks(player1@.body, player2@.body),
{
    let mut glyphs: Vec<Glyph> = Vec::new();
    player1.print_into(BLANK, BLANK, &mut glyphs);
    player2.print_into(BLANK, BLANK, &mut glyphs);
    assert(snake_glyphs(player1@.body, BLANK, BLANK) == snake_blanks(player1@.body));
    assert(snake_glyphs(player2@.body, BLANK, BLANK) == snake_blanks(player2@.body));
    glyphs
}

} // verus!
