//! The rules of a single-player Minesweeper game: cells, the board that holds
//! them, and the controller that applies one player action per turn.

pub mod board;
pub mod cell;
pub mod game;
pub mod grid;
pub mod input;
pub mod probability;
pub mod text;
