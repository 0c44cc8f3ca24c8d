//! The rules of Probability Gomoku, a game of five in a row in which a
//! placed piece is a marker with a chance of being Black, and colours are
//! only settled when the board is observed.
//!
//! `piece` and `board` hold the markers and the grids, `resolve` observes a
//! board, `win` decides the game on an observation, `game` is the session
//! that a front end drives, and `laws` states what holds of the rules in
//! general.

pub mod board;
pub mod game;
pub mod laws;
pub mod piece;
pub mod resolve;
pub mod win;
