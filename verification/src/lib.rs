//! Rules engine for tic-tac-toe: board state, move legality, and win/draw
//! detection. The presentation layer (terminal prompting and styled output)
//! lives outside this crate and talks to it through plain values.

use vstd::prelude::*;

pub mod board;
pub mod player;
pub mod position;
pub mod square;

verus! {

use crate::player::Player;

/// Error returned when a move targets a square that is already occupied.
/// The message names the player whose mark is in the way.
#[derive(PartialEq, Debug)]
pub struct GameError {
    pub message: String,
}

/// The phase of the game derived from the board after a move:
/// somebody won, the board filled up with no winner, or play goes on.
#[derive(PartialEq, Debug)]
pub enum GameState {
    Winner(Player),
    NoWinner,
    InProgress,
}

} // verus!
