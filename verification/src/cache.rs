//! The frames that are shown in turn once a game is over.

use vstd::prelude::*;
use vstd::string::to_string_from_display_ensures;

use crate::entities::GameState;
use crate::frame::blank_cells;
use crate::frame::DisplayFrame;
use crate::messages::big_centered_message;
use crate::messages::draws_well;
use crate::messages::lemma_ascii_byte_len;
use crate::messages::message_drawn;
use crate::messages::message_result;
use crate::messages::text_rendered;
use crate::messages::Bounds;
use crate::messages::FontError;

verus! {

/// The message for a game that was won.
pub open spec fn won_text() -> Seq<char> {
    "18!\nYou Win!"@
}

/// The message for a fish.
pub open spec fn fish_text() -> Seq<char> {
    "Fish!"@
}

/// Whether the two fixed messages are drawn without error and within the
/// frame.
pub open spec fn fixed_messages_draw_well() -> bool {
    draws_well(blank_cells(), won_text(), true) && draws_well(blank_cells(), fish_text(), true)
}

/// `error` is what the first of the two fixed messages gives that is not
/// drawn well.
pub open spec fn fixed_message_fails_with(error: FontError) -> bool {
    if !draws_well(blank_cells(), won_text(), true) {
        message_result(
            text_rendered(blank_cells(), won_text(), true),
            Err::<Option<Bounds>, FontError>(error),
        )
    } else {
        &&& !draws_well(blank_cells(), fish_text(), true)
        &&& message_result(
            text_rendered(blank_cells(), fish_text(), true),
            Err::<Option<Bounds>, FontError>(error),
        )
    }
}

/// Writing `text` on a blank frame leaves `cells` and gives `result`: `Ok`
/// where the text is drawn well, and else the reason why it is not.
pub open spec fn text_written(text: Seq<char>, cells: Seq<bool>, result: Result<(), FontError>) -> bool {
    message_drawn(
        blank_cells(),
        text,
        true,
        cells,
        match result {
            Ok(_) => text_rendered(blank_cells(), text, true).1,
            Err(error) => Err::<Option<Bounds>, FontError>(error),
        },
    )
}

/// Writing `score` as a decimal number on a blank frame leaves `cells` and
/// gives `result`.
pub open spec fn score_written(score: i8, cells: Seq<bool>, result: Result<(), FontError>) -> bool {
    exists|text: String|
        #![trigger text@]
        to_string_from_display_ensures::<i8>(&score, text) && text_written(text@, cells, result)
}

/// The two fixed messages are short enough to be given to the renderer.
pub proof fn lemma_fixed_messages_are_short()
    ensures
        crate::messages::byte_len(won_text()) == 12,
        crate::messages::byte_len(fish_text()) == 5,
{
    reveal_strlit("18!\nYou Win!");
    reveal_strlit("Fish!");
    lemma_ascii_byte_len(won_text());
    lemma_ascii_byte_len(fish_text());
}

/// Four frames: the two fixed messages, the score, and the picked dice.
pub struct FrameCache {
    you_won_frame: DisplayFrame,
    fish_frame: DisplayFrame,
    score_frame: DisplayFrame,
    picked_dice_frame: DisplayFrame,
}

impl FrameCache {
    /// The cells of the frame for a game that was won.
    pub closed spec fn you_won(&self) -> Seq<bool> {
        self.you_won_frame@
    }

    /// The cells of the frame for a fish.
    pub closed spec fn fish(&self) -> Seq<bool> {
        self.fish_frame@
    }

    /// The cells of the frame with the score.
    pub closed spec fn score(&self) -> Seq<bool> {
        self.score_frame@
    }

    /// The cells of the frame with the picked dice.
    pub closed spec fn picked_dice(&self) -> Seq<bool> {
        self.picked_dice_frame@
    }

    /// The cells of the message for `game_state`; there is none while the game
    /// goes on.
    pub open spec fn message(&self, game_state: GameState) -> Option<Seq<bool>> {
        match game_state {
            GameState::Won(_) => Some(self.you_won()),
            GameState::Fish(_) => Some(self.fish()),
            GameState::GameOver(_, _) => Some(self.score()),
            GameState::Playing => None,
        }
    }

    /// Draws the two fixed messages; the other two frames start blank.
    pub fn init() -> (result: Result<FrameCache, FontError>)
        ensures
            result is Ok <==> fixed_messages_draw_well(),
            result matches Ok(cache) ==> {
                &&& cache.you_won() == text_rendered(blank_cells(), won_text(), true).0
                &&& cache.fish() == text_rendered(blank_cells(), fish_text(), true).0
                &&& cache.score() == blank_cells()
                &&& cache.picked_dice() == blank_cells()
            },
            result matches Err(error) ==> fixed_message_fails_with(error),
    {
        let mut you_won_frame = DisplayFrame::blank();
        let mut fish_frame = DisplayFrame::blank();
        proof {
            lemma_fixed_messages_are_short();
        }

        match big_centered_message("18!\nYou Win!", &mut you_won_frame) {
            Ok(_) => {},
            Err(error) => {
                return Err(error);
            },
        }
        match big_centered_message("Fish!", &mut fish_frame) {
            Ok(_) => {},
            Err(error) => {
                return Err(error);
            },
        }

        Ok(
            FrameCache {
                you_won_frame,
                fish_frame,
                score_frame: DisplayFrame::blank(),
                picked_dice_frame: DisplayFrame::blank(),
            },
        )
    }

    /// Clears the score frame and writes `score` on it.
    pub fn update_score_frame(&mut self, score: i8) -> (result: Result<(), FontError>)
        ensures
            final(self).you_won() == old(self).you_won(),
            final(self).fish() == old(self).fish(),
            final(self).picked_dice() == old(self).picked_dice(),
            score_written(score, final(self).score(), result),
    {
        self.score_frame.clear();
        let text = score.to_string();
        let result = match big_centered_message(text.as_str(), &mut self.score_frame) {
            Ok(_) => Ok(()),
            Err(error) => Err(error),
        };
        proof {
            assert(text_written(text@, self.score_frame@, result));
        }
        result
    }

    /// Takes `frame` as the picture of the picked dice.
    pub fn replace_picked_dice_frame(&mut self, frame: DisplayFrame)
        ensures
            final(self).picked_dice() == frame@,
            final(self).you_won() == old(self).you_won(),
            final(self).fish() == old(self).fish(),
            final(self).score() == old(self).score(),
    {
        self.picked_dice_frame = frame;
    }

    /// Puts the message for `game_state` on the display; while the game goes
    /// on the display stays as it is.
    pub fn draw_message(&self, display: &mut DisplayFrame, game_state: &GameState)
        ensures
            final(display)@ == match self.message(*game_state) {
                Some(cells) => cells,
                None => old(display)@,
            },
    {
        match game_state {
            GameState::Won(_) => {
                *display = self.you_won_frame;
            },
            GameState::Fish(_) => {
                *display = self.fish_frame;
            },
            GameState::GameOver(_, _) => {
                *display = self.score_frame;
            },
            GameState::Playing => {},
        }
    }

    /// Puts the picked dice on the display.
    pub fn draw_picked_dice(&self, display: &mut DisplayFrame)
        ensures
            final(display)@ == self.picked_dice(),
    {
        *display = self.picked_dice_frame;
    }
}

} // verus!
