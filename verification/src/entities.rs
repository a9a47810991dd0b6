//! What goes from the round to the display: the outcome with its picture.

use vstd::prelude::*;

use crate::frame::DisplayFrame;
use crate::player::GameResult;

verus! {

/// The outcome of a round; one that ends the game carries the picture of the
/// picked dice.
#[derive(PartialEq, Eq, Clone, Copy, Debug)]
pub enum GameState {
    Playing,
    Won(DisplayFrame),
    Fish(DisplayFrame),
    GameOver(DisplayFrame, i8),
}

impl GameState {
    /// The state is the outcome `result` with the picture `frame` of its
    /// round.
    pub open spec fn shows(self, result: GameResult, frame: DisplayFrame) -> bool {
        self == match result {
            GameResult::GameOver(score) => GameState::GameOver(frame, score),
            GameResult::Won => GameState::Won(frame),
            GameResult::Fish => GameState::Fish(frame),
            GameResult::Playing => GameState::Playing,
        }
    }

    /// The outcome `result` with the picture `frame` of its round.
    pub fn of_result(result: GameResult, frame: DisplayFrame) -> (state: GameState)
        ensures
            state.shows(result, frame),
    {
        match result {
            GameResult::GameOver(score) => GameState::GameOver(frame, score),
            GameResult::Won => GameState::Won(frame),
            GameResult::Fish => GameState::Fish(frame),
            GameResult::Playing => GameState::Playing,
        }
    }

    /// Whether the game is over.
    pub fn is_final_state(&self) -> (over: bool)
        ensures
            over == !(self is Playing),
    {
        match self {
            GameState::GameOver(_, _) => true,
            GameState::Won(_) => true,
            GameState::Fish(_) => true,
            GameState::Playing => false,
        }
    }
}

} // verus!
