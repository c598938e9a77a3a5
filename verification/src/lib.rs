//! Small programs with their logic verified: a two-player game of
//! tic-tac-toe, a number-guessing game, ducks that swim and quack, and a
//! count of the spaces in a sentence.
//!
//! - [`game`] is the tic-tac-toe engine: it owns the board, accepts or
//!   refuses each move and settles the result. [`board`] holds the board as a
//!   mathematical object, and [`play`] the laws that hold of every game.
//! - [`notation`] reads the moves that players type and draws the board.
//! - [`guessing`] judges the guesses of one round; [`random`] draws the number
//!   to be guessed.
//! - [`duck`] holds the ducks.
//! - [`text`] counts and trims characters.

pub mod board;
pub mod duck;
pub mod game;
pub mod guessing;
pub mod notation;
pub mod play;
pub mod random;
pub mod text;
