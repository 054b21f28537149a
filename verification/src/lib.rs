//! A fixed-tick snake simulation on a wrap-around board, for two players
//! sharing one egg.
//!
//! The modules, from the ground up: `heading` and `board` hold the geometry,
//! `input` the keys gathered between two ticks, `snake` a player's snake and
//! what its head can meet, `egg` the placing of the egg on a free cell,
//! `game` one tick of both snakes, `draw` what to put on the screen, and
//! `round` the whole round as a loop around a keyboard and a clock runs it.

pub mod board;
pub mod draw;
pub mod egg;
pub mod error;
pub mod game;
pub mod heading;
pub mod input;
pub mod round;
pub mod snake;
