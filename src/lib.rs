//! The interface logic of a chess board: the screens around a game, the
//! piece the player picks and the moves the clicks ask for, and how each
//! square and line of text is shown. The rules of chess stay with the
//! engine; this crate works on what the engine reports.

pub mod board;
pub mod pieces;
pub mod controller;
pub mod display;
