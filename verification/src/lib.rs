//! A verified typing-exercise core: the player types a fixed multi-line
//! script character by character; each correct character advances a cursor
//! and depletes a boss health value until the script is fully typed, after
//! which a space keystroke restarts the round.
//!
//! The state machine lives in [`game`]; the character classes it filters on
//! are in [`chars`]; the flattened-script index map is specified in [`text`];
//! the behavioural laws of the machine are proved in [`laws`].

pub mod chars;
pub mod game;
pub mod laws;
pub mod text;
