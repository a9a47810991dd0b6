//! The four loops of the game as steps: each takes what happened and says what
//! is to be done. The beam gives triggers, a trigger plays a round, the
//! outcome of a round sets what the display shows, and the display blinks
//! while a game is over.

use vstd::prelude::*;

use crate::cache::fish_text;
use crate::cache::fixed_message_fails_with;
use crate::cache::fixed_messages_draw_well;
use crate::cache::score_written;
use crate::cache::won_text;
use crate::cache::FrameCache;
use crate::die::Die;
use crate::engine::Game;
use crate::entities::GameState;
use crate::frame::blank_cells;
use crate::frame::DisplayFrame;
use crate::messages::text_rendered;
use crate::messages::FontError;
use crate::player::trigger_played;
use crate::player::play_and_draw;
use crate::player::round_played;
use crate::player::GameResult;

verus! {

/// How long the beam must stay broken to count, in microseconds.
pub const ONE_SECOND_IN_MUS: u64 = 1000000;

/// How the display shows a frame: steady, or blinking.
#[derive(PartialEq, Eq, Structural, Clone, Copy, Debug)]
pub enum DisplayState {
    Blink,
    Solid,
}

/// What is to be done after an edge of the beam sensor.
#[derive(PartialEq, Eq, Structural, Clone, Copy, Debug)]
pub struct BeamSignal {
    /// The state the indicator light is to take.
    pub led: bool,
    /// The trigger for the next round, if the edge gives one.
    pub roll: Option<u64>,
}

/// The watch on the beam: since when it is broken, and the seed that the
/// first long break gave.
#[derive(PartialEq, Eq, Structural, Clone, Copy, Debug)]
pub struct BreakBeamRoller {
    pub seed: Option<u64>,
    pub beam_broken_at: Option<u64>,
}

/// How long the beam was broken at `now`; no time at all for a clock that ran
/// backwards or a beam that was not broken.
pub open spec fn broken_for(beam_broken_at: Option<u64>, now: u64) -> int {
    match beam_broken_at {
        Some(since) => if now >= since {
            now - since
        } else {
            0
        },
        None => 0,
    }
}

impl BreakBeamRoller {
    /// The watch at the start: the beam is whole and no seed is known.
    pub fn new() -> (roller: BreakBeamRoller)
        ensures
            roller.seed is None,
            roller.beam_broken_at is None,
    {
        BreakBeamRoller { seed: None, beam_broken_at: None }
    }

    /// An edge of the sensor at time `now`, in microseconds: `is_high` says
    /// that the beam is whole again, else it has just been broken.
    ///
    /// A beam that is whole again after a break of a second or more gives a
    /// trigger. The first trigger carries the length of its break, which is
    /// kept as the seed; every later one carries that seed again. A shorter
    /// break gives nothing.
    pub fn on_edge(&mut self, is_high: bool, now: u64) -> (signal: BeamSignal)
        ensures
            signal.led == is_high,
            !is_high ==> {
                &&& signal.roll is None
                &&& final(self).beam_broken_at == Some(now)
                &&& final(self).seed == old(self).seed
            },
            is_high ==> {
                let duration = broken_for(old(self).beam_broken_at, now);
                &&& final(self).beam_broken_at is None
                &&& duration < ONE_SECOND_IN_MUS ==> {
                    &&& signal.roll is None
                    &&& final(self).seed == old(self).seed
                }
                &&& duration >= ONE_SECOND_IN_MUS ==> {
                    &&& final(self).seed == match old(self).seed {
                        Some(seed) => Some(seed),
                        None => Some(duration as u64),
                    }
                    &&& signal.roll == final(self).seed
                }
            },
    {
        if is_high {
            let broken_at = self.beam_broken_at;
            self.beam_broken_at = None;
            let duration: u64 = match broken_at {
                Some(since) => if now >= since {
                    now - since
                } else {
                    0
                },
                None => 0,
            };
            if duration >= ONE_SECOND_IN_MUS {
                let value = match self.seed {
                    Some(seed) => seed,
                    None => duration,
                };
                self.seed = Some(value);
                BeamSignal { led: true, roll: Some(value) }
            } else {
                BeamSignal { led: true, roll: None }
            }
        } else {
            self.beam_broken_at = Some(now);
            BeamSignal { led: false, roll: None }
        }
    }
}

/// What a trigger gives: the picture of the round and its outcome.
#[derive(Clone, Copy, Debug)]
pub struct Round {
    /// What the display is to show.
    pub frame: DisplayFrame,
    /// What goes on to the animations.
    pub state: GameState,
}

/// The player of the rounds. There is no game before the first trigger.
pub struct PlayAndDraw {
    pub game: Option<Game>,
}

impl PlayAndDraw {
    /// The game, if there is one, keeps the rule of the five dice.
    pub open spec fn wf(&self) -> bool {
        self.game matches Some(game) ==> game.wf()
    }

    /// The player before the first trigger.
    pub fn new() -> (player: PlayAndDraw)
        ensures
            player.game is None,
            player.wf(),
    {
        PlayAndDraw { game: None }
    }

    /// Whether the player keeps the rule of the five dice.
    pub fn is_valid(&self) -> (valid: bool)
        ensures
            valid == self.wf(),
    {
        match &self.game {
            Some(game) => game.is_valid(),
            None => true,
        }
    }

    /// A trigger has come: the first one makes the game, seeded with
    /// `trigger`; every trigger plays one round on a fresh frame, or reports
    /// the outcome of a game that has no dice left.
    pub fn on_trigger(&mut self, trigger: u64) -> (round: Round)
        requires
            old(self).wf(),
        ensures
            final(self).wf(),
            final(self).game is Some,
            exists|result: GameResult|
                {
                    &&& #[trigger] round.state.shows(result, round.frame)
                    &&& match old(self).game {
                        Some(game) => trigger_played(
                            game,
                            final(self).game->Some_0,
                            round.frame@,
                            result,
                        ),
                        None => exists|rolled: Seq<Die>| #[trigger]
                            round_played(
                                Seq::empty(),
                                rolled,
                                final(self).game->Some_0,
                                round.frame@,
                                result,
                            ),
                    }
                },
    {
        let mut game = match self.game.take() {
            Some(game) => game,
            None => Game::from_seed(trigger),
        };
        let ghost before = game;
        let mut frame = DisplayFrame::blank();
        let result = play_and_draw(&mut frame, &mut game);
        let state = GameState::of_result(result, frame);
        self.game = Some(game);
        let round = Round { frame, state };
        proof {
            assert(trigger_played(before, game, frame@, result));
            assert(round.state.shows(result, round.frame));
        }
        round
    }
}

/// What the display shows while no round is played: after a game is over,
/// the message and the picked dice in turn.
pub struct DisplayAnimations {
    pub game_state: GameState,
    pub show_message: bool,
    pub frame_cache: FrameCache,
}

impl DisplayAnimations {
    /// The animations at the start: a game goes on, and the message comes
    /// first once it is over.
    pub fn new() -> (result: Result<DisplayAnimations, FontError>)
        ensures
            result is Ok <==> fixed_messages_draw_well(),
            result matches Ok(animations) ==> {
                &&& animations.game_state is Playing
                &&& animations.show_message
                &&& animations.frame_cache.you_won() == text_rendered(
                    blank_cells(),
                    won_text(),
                    true,
                ).0
                &&& animations.frame_cache.fish() == text_rendered(blank_cells(), fish_text(), true).0
                &&& animations.frame_cache.score() == blank_cells()
                &&& animations.frame_cache.picked_dice() == blank_cells()
            },
            result matches Err(error) ==> fixed_message_fails_with(error),
    {
        match FrameCache::init() {
            Ok(frame_cache) => Ok(
                DisplayAnimations { game_state: GameState::Playing, show_message: true, frame_cache },
            ),
            Err(error) => Err(error),
        }
    }

    /// The two seconds are over. While a game is over the display changes
    /// between the message and the picked dice; says whether it was drawn on.
    pub fn on_timer(&mut self, display: &mut DisplayFrame) -> (drawn: bool)
        ensures
            final(self).game_state == old(self).game_state,
            final(self).frame_cache == old(self).frame_cache,
            drawn == !(old(self).game_state is Playing),
            !drawn ==> {
                &&& final(display)@ == old(display)@
                &&& final(self).show_message == old(self).show_message
            },
            drawn ==> {
                &&& final(self).show_message == !old(self).show_message
                &&& final(display)@ == if old(self).show_message {
                    old(self).frame_cache.message(old(self).game_state)->Some_0
                } else {
                    old(self).frame_cache.picked_dice()
                }
            },
    {
        if self.game_state.is_final_state() {
            if self.show_message {
                self.frame_cache.draw_message(display, &self.game_state);
            } else {
                self.frame_cache.draw_picked_dice(display);
            }
            self.show_message = !self.show_message;
            true
        } else {
            false
        }
    }

    /// A round has ended with `state`. The cache takes the picture of a game
    /// that is over, and its score. The display is to blink while a game is
    /// over and to be steady while one goes on; a game that goes on brings
    /// the message back to the front.
    pub fn on_game_state(&mut self, state: GameState) -> (result: Result<DisplayState, FontError>)
        ensures
            final(self).game_state == state,
            final(self).frame_cache.you_won() == old(self).frame_cache.you_won(),
            final(self).frame_cache.fish() == old(self).frame_cache.fish(),
            result matches Ok(command) ==> command == if state is Playing {
                DisplayState::Solid
            } else {
                DisplayState::Blink
            },
            result is Err ==> state is GameOver,
            match state {
                GameState::Playing => {
                    &&& final(self).show_message
                    &&& final(self).frame_cache == old(self).frame_cache
                },
                GameState::Won(frame) | GameState::Fish(frame) => {
                    &&& final(self).show_message == old(self).show_message
                    &&& final(self).frame_cache.picked_dice() == frame@
                    &&& final(self).frame_cache.score() == old(self).frame_cache.score()
                },
                GameState::GameOver(frame, score) => {
                    &&& final(self).show_message == old(self).show_message
                    &&& final(self).frame_cache.picked_dice() == frame@
                    &&& score_written(
                        score,
                        final(self).frame_cache.score(),
                        match result {
                            Ok(_) => Ok::<(), FontError>(()),
                            Err(error) => Err::<(), FontError>(error),
                        },
                    )
                },
            },
    {
        self.game_state = state;
        match state {
            GameState::Won(frame) => {
                self.frame_cache.replace_picked_dice_frame(frame);
                Ok(DisplayState::Blink)
            },
            GameState::Fish(frame) => {
                self.frame_cache.replace_picked_dice_frame(frame);
                Ok(DisplayState::Blink)
            },
            GameState::GameOver(frame, score) => {
                self.frame_cache.replace_picked_dice_frame(frame);
                match self.frame_cache.update_score_frame(score) {
                    Ok(_) => Ok(DisplayState::Blink),
                    Err(error) => Err(error),
                }
            },
            GameState::Playing => {
                self.show_message = true;
                Ok(DisplayState::Solid)
            },
        }
    }
}

/// The blinking of the display: whether it is inverted, and whether it is to
/// blink at all.
#[derive(PartialEq, Eq, Structural, Clone, Copy, Debug)]
pub struct DisplayStateHandler {
    pub invert_display: bool,
    pub display_state: DisplayState,
}

impl DisplayStateHandler {
    /// At the start the display is steady and not inverted.
    pub fn new() -> (handler: DisplayStateHandler)
        ensures
            handler.display_state == DisplayState::Solid,
            !handler.invert_display,
    {
        DisplayStateHandler { invert_display: false, display_state: DisplayState::Solid }
    }

    /// The second is over. A blinking display turns over and has its
    /// inversion set to what comes back; a steady one is left alone.
    pub fn on_timer(&mut self) -> (invert: Option<bool>)
        ensures
            final(self).display_state == old(self).display_state,
            old(self).display_state == DisplayState::Blink ==> {
                &&& final(self).invert_display == !old(self).invert_display
                &&& invert == Some(final(self).invert_display)
            },
            old(self).display_state == DisplayState::Solid ==> {
                &&& final(self).invert_display == old(self).invert_display
                &&& invert is None
            },
    {
        if self.display_state == DisplayState::Blink {
            self.invert_display = !self.invert_display;
            Some(self.invert_display)
        } else {
            None
        }
    }

    /// A command has come. The display has its inversion set at once to what
    /// comes back: off for a steady display, on for a blinking one.
    pub fn on_command(&mut self, state: DisplayState) -> (invert: bool)
        ensures
            final(self).display_state == state,
            final(self).invert_display == (state == DisplayState::Blink),
            invert == final(self).invert_display,
    {
        self.display_state = state;
        self.invert_display = state != DisplayState::Solid;
        self.invert_display
    }
}

} // verus!
