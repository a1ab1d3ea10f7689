//! A two-player tic-tac-toe engine: the grid, the cursor, whose turn it is,
//! and when the game is won or drawn. Every operation is total on
//! well-formed games and its effect is stated over a mathematical model of
//! the game.

pub mod board;
pub mod control;
pub mod game;
pub mod laws;
pub mod player;
