//! A round, run step by step by a loop that polls a keyboard and a clock.
//!
//! The loop hands each key and the time since the last tick to the round.
//! The round notes the key, runs a tick when one is due, and answers with
//! what to draw or with how the round has ended. Keys that arrive between
//! two ticks are gathered: the snakes move at the pace of the ticks, however
//! often the loop polls.

use crate::board::Block;
use crate::board::MAIN_HEIGHT;
use crate::board::MAIN_WIDTH;
use crate::draw::blanks;
use crate::draw::picture;
use crate::draw::print;
use crate::draw::unprint;
use crate::draw::Glyph;
use crate::egg::occupied;
use crate::error::GameError;
use crate::game::board_full;
use crate::game::moved;
use crate::game::resolution;
use crate::game::ticked;
use crate::game::update;
use crate::game::Resolution;
use crate::input::Input;
use crate::input::KeyMap;
use crate::snake::Collision;
use crate::snake::Snake;
use crate::snake::SnakeView;
use vstd::prelude::*;

verus! {

/// The time between two ticks, in milliseconds.
pub const TICK_MILLIS: u64 = 100;

/// What the keyboard hands over when no key is waiting.
pub const NO_KEY: i32 = -1;

/// How a round has ended.
#[derive(Clone, Copy, Debug, PartialEq, Eq, Structural)]
pub enum Ending {
    /// One player or both have lost: `Collision::Player1`,
    /// `Collision::Player2` or `Collision::Both`.
    Lost(Collision),
    /// The snakes cover the whole board, so that no egg can be placed.
    Full,
    /// The players asked to stop.
    Quit,
}

/// What one turn of the loop has brought.
#[derive(Clone, Debug, PartialEq, Eq)]
pub enum Step {
    /// No tick was due.
    Idle,
    /// A tick has run and the round goes on: first put the characters of
    /// `clear` on the screen, then those of `draw`, and start the clock
    /// anew.
    Moved { clear: Vec<Glyph>, draw: Vec<Glyph> },
    /// The round is over.
    Ended(Ending),
}

/// A round of two players.
#[derive(Debug)]
pub struct Round {
    player1: Snake,
    player2: Snake,
    egg: Block,
    input: Input,
    end: Option<Ending>,
}

/// A round as contracts see it.
pub struct RoundView {
    /// The first player's snake.
    pub first: SnakeView,
    /// The second player's snake.
    pub second: SnakeView,
    /// The cell of the egg.
    pub egg: Block,
    /// The keys noted since the last tick.
    pub input: Input,
    /// How the round has ended, if it has.
    pub end: Option<Ending>,
}

/// Whether two snakes cannot start a round together: they are on different
/// boards, they are not those of the first and the second player in this
/// order, or they share a cell.
pub open spec fn clash(first: SnakeView, second: SnakeView) -> bool {
    ||| first.board != second.board
    ||| first.id != 0
    ||| second.id != 1
    ||| first.shares_cell(second)
}

/// The keys noted once `key` has come from the keyboard.
pub open spec fn noted(input: Input, key: i32) -> Input {
    if key == NO_KEY {
        input
    } else {
        input.recorded(key)
    }
}

/// The keys noted once a tick has used the headings asked for.
pub open spec fn cleared(input: Input) -> Input {
    Input { dir_1: None, dir_2: None, ..input }
}

/// Whether one turn of the loop, with the key `key` and `elapsed`
/// milliseconds on the clock, can take the round `before` to the round
/// `after` and answer with `step`.
pub open spec fn polled(before: RoundView, key: i32, elapsed: u64, after: RoundView, step: Step) -> bool {
    if let Some(ending) = before.end {
        after == before && step == Step::Ended(ending)
    } else if before.input.quit {
        after == (RoundView { end: Some(Ending::Quit), ..before }) && step == Step::Ended(
            Ending::Quit,
        )
    } else if elapsed < TICK_MILLIS {
        after == (RoundView { input: noted(before.input, key), ..before }) && step == Step::Idle
    } else {
        &&& ticked(
            before.first,
            before.second,
            before.egg,
            noted(before.input, key),
            after.first,
            after.second,
            after.egg,
            step.outcome(),
        )
        &&& match step {
            Step::Idle => false,
            Step::Moved { clear, draw } => {
                &&& after.end is None
                &&& after.input == cleared(noted(before.input, key))
                &&& clear@ == blanks(before.first.body, before.second.body)
                &&& draw@ == picture(after.first.body, after.second.body, after.egg)
            },
            Step::Ended(ending) => {
                &&& ending != Ending::Quit
                &&& ending != Ending::Lost(Collision::Null)
                &&& after.end == Some(ending)
                &&& after.input == noted(before.input, key)
            },
        }
    }
}

impl Step {
    /// The result of the tick that a step reports.
    pub open spec fn outcome(self) -> Result<Collision, GameError> {
        match self {
            Step::Ended(Ending::Lost(lost)) => Ok(lost),
            Step::Ended(Ending::Full) => Err(GameError::BoardFull),
            _ => Ok(Collision::Null),
        }
    }
}

impl RoundView {
    /// Both snakes are on one board, the first player's in front. While the
    /// round runs, the egg lies on the board and on no snake. A round that
    /// was lost names its loser or losers.
    pub open spec fn wf(self) -> bool {
        &&& self.first.wf()
        &&& self.second.wf()
        &&& self.first.board == self.second.board
        &&& self.first.id == 0
        &&& self.second.id == 1
        &&& self.end is None ==> self.first.board.contains(self.egg) && !occupied(
            self.first,
            self.second,
            self.egg,
        )
        &&& self.end matches Some(Ending::Lost(lost)) ==> lost == Collision::Player1 || lost
            == Collision::Player2 || lost == Collision::Both
    }
}

impl View for Round {
    type V = RoundView;

    closed spec fn view(&self) -> RoundView {
        RoundView {
            first: self.player1@,
            second: self.player2@,
            egg: self.egg,
            input: self.input,
            end: self.end,
        }
    }
}

/// Tells whether a screen of `max_y` rows and `max_x` columns holds the
/// standard layout.
pub fn screen_fits(max_y: i32, max_x: i32) -> (fits: bool)
    ensures
        fits == (max_y >= MAIN_HEIGHT && max_x >= MAIN_WIDTH),
{
    !(max_y < MAIN_HEIGHT || max_x < MAIN_WIDTH)
}

/// The whole milliseconds in a wait of `secs` seconds and `subsec_nanos`
/// billionths of a second.
pub open spec fn millis(secs: u64, subsec_nanos: u32) -> int {
    secs * 1000 + subsec_nanos / 1_000_000
}

/// Counts the whole milliseconds in a wait of `secs` seconds and
/// `subsec_nanos` billionths of a second. A count that does not fit is
/// given as the largest number there is.
pub fn elapsed_millis(secs: u64, subsec_nanos: u32) -> (elapsed: u64)
    ensures
        millis(secs, subsec_nanos) <= u64::MAX ==> elapsed == millis(secs, subsec_nanos),
        millis(secs, subsec_nanos) > u64::MAX ==> elapsed == u64::MAX,
{
    let extra: u64 = (subsec_nanos / 1_000_000) as u64;
    if secs > (u64::MAX - extra) / 1000 {
        u64::MAX
    } else {
        secs * 1000 + extra
    }
}

impl Round {
    /// Starts a round with the two snakes given, the egg on a cell drawn at
    /// random among the free ones, and no key noted. The snakes are refused
    /// if they clash, and if they leave no cell for the egg.
    pub fn start(player1: Snake, player2: Snake, keys: KeyMap) -> (made: Result<Round, GameError>)
        requires
            player1@.wf(),
            player2@.wf(),
        ensures
            clash(player1@, player2@) ==> made == Err::<Round, GameError>(GameError::SpawnClash),
            !clash(player1@, player2@) && board_full(player1@, player2@) ==> made == Err::<
                Round,
                GameError,
            >(GameError::BoardFull),
            !clash(player1@, player2@) && !board_full(player1@, player2@) ==> made is Ok,
            made matches Ok(round) ==> round@.wf() && round@.first == player1@ && round@.second
                == player2@ && round@.input == (Input {
                dir_1: None,
                dir_2: None,
                quit: false,
                keys,
            }) && round@.end is None,
    {
        if player1.board() != player2.board() || player1.id() != 0 || player2.id() != 1 {
            return Err(GameError::SpawnClash);
        }
        if player1.overlaps(&player2) {
            return Err(GameError::SpawnClash);
        }
        let mut egg = Block::new();
        match egg.regenerate(&player1, &player2) {
            Ok(()) => Ok(Round { player1, player2, egg, input: Input::with_keys(keys), end: None }),
            Err(full) => Err(full),
        }
    }

    /// Takes one turn of the loop: `key` is what the keyboard handed over,
    /// `elapsed` the milliseconds since the last tick or since the start.
    ///
    /// A round that is over answers with its ending and changes nothing. A
    /// request to stop that was noted in an earlier turn ends the round
    /// before anything else is done. Otherwise the key is noted, and if
    /// `elapsed` has reached the time between two ticks, a tick runs with
    /// the headings noted, which are then forgotten.
    pub fn poll(&mut self, key: i32, elapsed: u64) -> (step: Step)
        requires
            old(self)@.wf(),
        ensures
            final(self)@.wf(),
            polled(old(self)@, key, elapsed, final(self)@, step),
    {
        if let Some(ending) = self.end {
            return Step::Ended(ending);
        }
        if self.input.quit {
            self.end = Some(Ending::Quit);
            return Step::Ended(Ending::Quit);
        }
        if key != NO_KEY {
            self.input.handle_ch(key);
        }
        if elapsed < TICK_MILLIS {
            return Step::Idle;
        }
        let ghost a0 = self.player1@;
        let ghost b0 = self.player2@;
        let ghost egg0 = self.egg;
        let clear = unprint(&self.player1, &self.player2);
        let outcome = update(&self.input, &mut self.player1, &mut self.player2, &mut self.egg);
        proof {
            lemma_egg_stays_free(a0, b0, egg0, self.input);
        }
        match outcome {
            Ok(met) => {
                if met == Collision::Null {
                    self.input.reset();
                    let draw = print(&self.player1, &self.player2, &self.egg);
                    Step::Moved { clear, draw }
                } else {
                    self.end = Some(Ending::Lost(met));
                    Step::Ended(Ending::Lost(met))
                }
            },
            Err(_) => {
                self.end = Some(Ending::Full);
                Step::Ended(Ending::Full)
            },
        }
    }

    /// The characters that show the round as it stands.
    pub fn print(&self) -> (glyphs: Vec<Glyph>)
        ensures
            glyphs@ == picture(self@.first.body, self@.second.body, self@.egg),
    {
        print(&self.player1, &self.player2, &self.egg)
    }

    /// The first player's snake.
    pub fn player1(&self) -> (snake: &Snake)
        ensures
            snake@ == self@.first,
    {
        &self.player1
    }

    /// The second player's snake.
    pub fn player2(&self) -> (snake: &Snake)
        ensures
            snake@ == self@.second,
    {
        &self.player2
    }

    /// The cell of the egg.
    pub fn egg(&self) -> (cell: Block)
        ensures
            cell == self@.egg,
    {
        self.egg
    }

    /// The keys noted since the last tick.
    pub fn input(&self) -> (input: Input)
        ensures
            input == self@.input,
    {
        self.input
    }

    /// How the round has ended, if it has.
    pub fn ending(&self) -> (end: Option<Ending>)
        ensures
            end == self@.end,
    {
        self.end
    }
}

/// The egg lies on no snake for as long as a round runs: where it lay on a
/// free cell before a tick, and the tick brought neither a loss nor a meal,
/// the snakes have not moved onto it.
pub proof fn lemma_egg_stays_free(a0: SnakeView, b0: SnakeView, egg: Block, input: Input)
    requires
        a0.wf(),
        b0.wf(),
        a0.id == 0,
        b0.id == 1,
        !occupied(a0, b0, egg),
    ensures
        resolution(
            moved(a0, input, 0).collision(egg, moved(b0, input, 1)),
            moved(b0, input, 1).collision(egg, moved(a0, input, 0)),
        ) == Resolution::Nothing ==> !occupied(moved(a0, input, 0), moved(b0, input, 1), egg),
{
    let a = moved(a0, input, 0);
    let b = moved(b0, input, 1);
    if resolution(a.collision(egg, b), b.collision(egg, a)) == Resolution::Nothing {
        if a.occupies(egg) {
            lemma_tail_was_covered(a0.turned(input.requested(0)), egg);
        }
        if b.occupies(egg) {
            lemma_tail_was_covered(b0.turned(input.requested(1)), egg);
        }
    }
}

/// Behind its head, a snake that has moved covers only cells that it
/// covered before.
proof fn lemma_tail_was_covered(snake: SnakeView, cell: Block)
    requires
        snake.body.len() >= 1,
        snake.advanced().occupies(cell),
        snake.advanced().head() != cell,
    ensures
        snake.occupies(cell),
{
    let after = snake.advanced();
    let i = choose|i: int| 0 <= i < after.body.len() && after.body[i] == cell;
    assert(i > 0);
    assert(after.body[i] == snake.body[i - 1]);
}

} // verus!
