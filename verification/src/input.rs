//! Key presses gathered between two ticks: the latest heading asked of each
//! player, and whether the players asked to stop.

use crate::heading::Dir;
use vstd::prelude::*;

verus! {

/// The key that turns the second player up: the letter `z`.
pub const KEY_UP_2: i32 = 122;

/// The key that turns the second player down: the letter `s`.
pub const KEY_DOWN_2: i32 = 115;

/// The key that turns the second player right: the letter `d`.
pub const KEY_RIGHT_2: i32 = 100;

/// The key that turns the second player left: the letter `q`.
pub const KEY_LEFT_2: i32 = 113;

/// The key that ends the round: the exclamation mark.
pub const QUIT: i32 = 33;

/// The key codes that the players use.
#[derive(Clone, Copy, Debug, PartialEq, Eq, Structural)]
pub struct KeyMap {
    pub left_1: i32,
    pub right_1: i32,
    pub up_1: i32,
    pub down_1: i32,
    pub left_2: i32,
    pub right_2: i32,
    pub up_2: i32,
    pub down_2: i32,
    pub quit: i32,
}

/// What a key press asks for.
#[derive(Clone, Copy, Debug, PartialEq, Eq, Structural)]
pub enum KeyAction {
    /// The first player asks for a heading.
    Turn1(Dir),
    /// The second player asks for a heading.
    Turn2(Dir),
    /// The players ask to stop.
    Quit,
    /// The key means nothing.
    Ignore,
}

/// The requests that have arrived since the last tick.
#[derive(Clone, Copy, Debug, PartialEq, Eq, Structural)]
pub struct Input {
    /// The heading that the first player asked for last, if any.
    pub dir_1: Option<Dir>,
    /// The heading that the second player asked for last, if any.
    pub dir_2: Option<Dir>,
    /// Whether the players asked to stop.
    pub quit: bool,
    /// The key codes in use.
    pub keys: KeyMap,
}

/// The codes that the terminal library gives the four arrow keys, in the
/// order left, right, up, down.
///
/// This reads the constants `KEY_LEFT`, `KEY_RIGHT`, `KEY_UP` and `KEY_DOWN`
/// of the `ncurses` crate. The contract states the numbers that the crate's
/// table of key codes holds for them: 0x104, 0x105, 0x103 and 0x102.
#[verifier::external_body]
fn arrow_codes() -> (codes: (i32, i32, i32, i32))
    ensures
        codes == (260i32, 261i32, 259i32, 258i32),
{
    (ncurses::KEY_LEFT, ncurses::KEY_RIGHT, ncurses::KEY_UP, ncurses::KEY_DOWN)
}

impl KeyMap {
    /// The usual keys: the arrow keys for the first player, the letters
    /// `q`, `d`, `z` and `s` for the second, and `!` to stop.
    pub open spec fn usual() -> KeyMap {
        KeyMap {
            left_1: 260,
            right_1: 261,
            up_1: 259,
            down_1: 258,
            left_2: KEY_LEFT_2,
            right_2: KEY_RIGHT_2,
            up_2: KEY_UP_2,
            down_2: KEY_DOWN_2,
            quit: QUIT,
        }
    }

    /// The usual keys, with the arrow keys as the terminal library numbers
    /// them.
    pub fn standard() -> (keys: KeyMap)
        ensures
            keys == KeyMap::usual(),
    {
        let (left, right, up, down) = arrow_codes();
        KeyMap::with_arrows(left, right, up, down)
    }

    /// What the key `ch` asks for. Where one code stands for several keys,
    /// the first player's keys go before the second's, and those before the
    /// key that stops; among one player's keys the order is left, right, up,
    /// down.
    pub open spec fn action(&self, ch: i32) -> KeyAction {
        if ch == self.left_1 {
            KeyAction::Turn1(Dir::Left)
        } else if ch == self.right_1 {
            KeyAction::Turn1(Dir::Right)
        } else if ch == self.up_1 {
            KeyAction::Turn1(Dir::Up)
        } else if ch == self.down_1 {
            KeyAction::Turn1(Dir::Down)
        } else if ch == self.left_2 {
            KeyAction::Turn2(Dir::Left)
        } else if ch == self.right_2 {
            KeyAction::Turn2(Dir::Right)
        } else if ch == self.up_2 {
            KeyAction::Turn2(Dir::Up)
        } else if ch == self.down_2 {
            KeyAction::Turn2(Dir::Down)
        } else if ch == self.quit {
            KeyAction::Quit
        } else {
            KeyAction::Ignore
        }
    }

    /// The key map in which the first player steers with the four given
    /// keys, the second with `q`, `d`, `z` and `s`, and `!` stops the round.
    pub fn with_arrows(left: i32, right: i32, up: i32, down: i32) -> (keys: KeyMap)
        ensures
            keys == (KeyMap {
                left_1: left,
                right_1: right,
                up_1: up,
                down_1: down,
                left_2: KEY_LEFT_2,
                right_2: KEY_RIGHT_2,
                up_2: KEY_UP_2,
                down_2: KEY_DOWN_2,
                quit: QUIT,
            }),
    {
        KeyMap {
            left_1: left,
            right_1: right,
            up_1: up,
            down_1: down,
            left_2: KEY_LEFT_2,
            right_2: KEY_RIGHT_2,
            up_2: KEY_UP_2,
            down_2: KEY_DOWN_2,
            quit: QUIT,
        }
    }

    /// Looks up what the key `ch` asks for.
    pub fn decode(&self, ch: i32) -> (action: KeyAction)
        ensures
            action == self.action(ch),
    {
        if ch == self.left_1 {
            KeyAction::Turn1(Dir::Left)
        } else if ch == self.right_1 {
            KeyAction::Turn1(Dir::Right)
        } else if ch == self.up_1 {
            KeyAction::Turn1(Dir::Up)
        } else if ch == self.down_1 {
            KeyAction::Turn1(Dir::Down)
        } else if ch == self.left_2 {
            KeyAction::Turn2(Dir::Left)
        } else if ch == self.right_2 {
            KeyAction::Turn2(Dir::Right)
        } else if ch == self.up_2 {
            KeyAction::Turn2(Dir::Up)
        } else if ch == self.down_2 {
            KeyAction::Turn2(Dir::Down)
        } else if ch == self.quit {
            KeyAction::Quit
        } else {
            KeyAction::Ignore
        }
    }
}

impl Input {
    /// The requests after the key `ch` has arrived: a heading replaces the
    /// one that the same player asked for before, a request to stop stays,
    /// and any other key changes nothing.
    pub open spec fn recorded(self, ch: i32) -> Input {
        match self.keys.action(ch) {
            KeyAction::Turn1(d) => Input { dir_1: Some(d), ..self },
            KeyAction::Turn2(d) => Input { dir_2: Some(d), ..self },
            KeyAction::Quit => Input { quit: true, ..self },
            KeyAction::Ignore => self,
        }
    }

    /// The heading asked of the player in slot `player`: the first player's
    /// for slot 0, the second's for slot 1, none for any other number.
    pub open spec fn requested(self, player: i8) -> Option<Dir> {
        if player == 0 {
            self.dir_1
        } else if player == 1 {
            self.dir_2
        } else {
            None
        }
    }

    /// No request yet, for players who use the usual keys.
    pub fn new() -> (input: Input)
        ensures
            input == (Input { dir_1: None, dir_2: None, quit: false, keys: KeyMap::usual() }),
    {
        Input { dir_1: None, dir_2: None, quit: false, keys: KeyMap::standard() }
    }

    /// No request yet, for players who use the keys `keys`.
    pub fn with_keys(keys: KeyMap) -> (input: Input)
        ensures
            input == (Input { dir_1: None, dir_2: None, quit: false, keys }),
    {
        Input { dir_1: None, dir_2: None, quit: false, keys }
    }

    /// Takes note of the key `ch`.
    pub fn handle_ch(&mut self, ch: i32)
        ensures
            *final(self) == old(self).recorded(ch),
    {
        match self.keys.decode(ch) {
            KeyAction::Turn1(d) => {
                self.dir_1 = Some(d);
            },
            KeyAction::Turn2(d) => {
                self.dir_2 = Some(d);
            },
            KeyAction::Quit => {
                self.quit = true;
            },
            KeyAction::Ignore => {},
        }
    }

    /// Forgets the headings asked for, once a tick has used them. A request
    /// to stop stays.
    pub fn reset(&mut self)
        ensures
            *final(self) == (Input { dir_1: None, dir_2: None, ..*old(self) }),
    {
        self.dir_1 = None;
        self.dir_2 = None;
    }

    /// Looks up the heading asked of the player in slot `player`.
    pub fn request(&self, player: i8) -> (heading: Option<Dir>)
        ensures
            heading == self.requested(player),
    {
        if player == 0 {
            self.dir_1
        } else if player == 1 {
            self.dir_2
        } else {
            None
        }
    }

    /// However many keys arrive between two ticks, only the last heading
    /// asked of a player is kept.
    pub proof fn lemma_latest_heading_wins(self, first: i32, second: i32)
        requires
            self.keys.action(second) is Turn1 || self.keys.action(second) is Turn2,
        ensures
            self.keys.action(second) is Turn1 ==> self.recorded(first).recorded(second).dir_1
                == self.recorded(second).dir_1,
            self.keys.action(second) is Turn2 ==> self.recorded(first).recorded(second).dir_2
                == self.recorded(second).dir_2,
    {
    }

    /// A key that no player uses changes nothing.
    pub proof fn lemma_unknown_key_ignored(self, ch: i32)
        requires
            self.keys.action(ch) is Ignore,
        ensures
            self.recorded(ch) == self,
    {
    }
}

} // verus!
