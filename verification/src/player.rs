//! One round of the game, from the roll to the picture and the outcome.

use rand::rngs::SmallRng;
use vstd::prelude::*;

use crate::dice::best_grid;
use crate::dice::cell_side;
use crate::dice::dice_drawn;
use crate::dice::lemma_best_grid;
use crate::dice::rows_for;
use crate::dice::Dice;
use crate::die::random_in_range;
use crate::die::Die;
use crate::engine::is_fish;
use crate::engine::round_picked;
use crate::engine::score_of;
use crate::engine::Game;
use crate::engine::NumberOfDice;
use crate::frame::blank_cells;
use crate::frame::Area;
use crate::frame::DisplayFrame;
use crate::frame::FRAME_HEIGHT;
use crate::frame::FRAME_WIDTH;

verus! {

/// How a round ended.
#[derive(PartialEq, Eq, Structural, Clone, Copy, Debug)]
pub enum GameResult {
    /// All dice are picked, and they score 18.
    Won,
    /// All dice are picked, and a four or a two is missing.
    Fish,
    /// All dice are picked, with this score.
    GameOver(i8),
    /// There are dice left to roll.
    Playing,
}

/// The outcome of a game in which `picked` are all the dice.
pub open spec fn final_result(picked: Seq<Die>) -> GameResult {
    if is_fish(picked) {
        GameResult::Fish
    } else if score_of(picked) == 18 {
        GameResult::Won
    } else {
        GameResult::GameOver(score_of(picked) as i8)
    }
}

/// The frame's whole area.
pub open spec fn whole_frame() -> Area {
    Area { left: 0, top: 0, width: FRAME_WIDTH, height: FRAME_HEIGHT }
}

/// The cells of a frame that shows `dice` and nothing else.
pub open spec fn dice_shown(dice: Seq<Die>) -> Seq<bool> {
    dice_drawn(blank_cells(), whole_frame(), dice, dice.len() as int)
}

/// What is left when the outcome of a game with all of `picked` put aside is
/// reported: the outcome, the picked dice on the display, and a game that
/// starts anew.
pub open spec fn outcome_reported(
    picked: Seq<Die>,
    after: Game,
    shown: Seq<bool>,
    result: GameResult,
) -> bool {
    &&& result == final_result(picked)
    &&& after.picked@ == Seq::<Die>::empty()
    &&& after.rolled@ == Seq::<Die>::empty()
    &&& after.dice_left == NumberOfDice::Five
    &&& shown == dice_shown(picked)
}

/// What a round that starts with `start` picked and in which `rolled` came up
/// leaves behind: while dice are left,
/// the game with its new picks, the roll on the display, and `Playing`; once
/// all are picked, a game that starts anew, the picked dice on the display,
/// and the outcome.
pub open spec fn round_played(
    start: Seq<Die>,
    rolled: Seq<Die>,
    after: Game,
    shown: Seq<bool>,
    result: GameResult,
) -> bool {
    let picked = round_picked(start, rolled);
    &&& rolled.len() == 5 - start.len()
    &&& if picked.len() < 5 {
        &&& result == GameResult::Playing
        &&& after.picked@ == picked
        &&& after.rolled@ == rolled
        &&& after.dice_left.count() == 5 - picked.len()
        &&& shown == dice_shown(rolled)
    } else {
        outcome_reported(picked, after, shown, result)
    }
}

/// What a trigger leaves behind for the game `before`. With no dice left
/// nothing is rolled: the outcome that the game holds is reported. With dice
/// left a round is played with some roll of them.
pub open spec fn trigger_played(
    before: Game,
    after: Game,
    shown: Seq<bool>,
    result: GameResult,
) -> bool {
    if before.dice_left == NumberOfDice::Zero {
        outcome_reported(before.picked@, after, shown, result)
    } else {
        exists|rolled: Seq<Die>| #[trigger] round_played(before.picked@, rolled, after, shown, result)
    }
}

/// One to five dice always fit into the frame.
pub proof fn lemma_dice_fit(number: int)
    requires
        1 <= number <= 5,
    ensures
        best_grid(number, FRAME_WIDTH as int, FRAME_HEIGHT as int).2 >= 1,
{
    lemma_best_grid(number, FRAME_WIDTH as int, FRAME_HEIGHT as int, number);
    let rows = rows_for(number, 1);
    assert(rows == number);
    assert(64int / rows >= 12) by {
        if rows == 1 {
            assert(64int / 1 == 64);
        } else if rows == 2 {
            assert(64int / 2 == 32);
        } else if rows == 3 {
            assert(64int / 3 == 21);
        } else if rows == 4 {
            assert(64int / 4 == 16);
        } else {
            assert(64int / 5 == 12);
        }
    }
    assert(cell_side(number, FRAME_WIDTH as int, FRAME_HEIGHT as int, 1) >= 1);
}

/// Shows where the game stands after a roll and says how the round ended.
/// While dice are left the last roll is drawn. Once all dice are picked, the
/// picked dice are drawn and the game starts anew.
pub fn show_round(display: &mut DisplayFrame, game: &mut Game) -> (result: GameResult)
    requires
        old(game).wf(),
        old(game).dice_left != NumberOfDice::Zero ==> old(game).rolled@.len() <= 5,
    ensures
        final(game).wf(),
        final(game).small_rng == old(game).small_rng,
        old(game).dice_left != NumberOfDice::Zero ==> {
            &&& result == GameResult::Playing
            &&& *final(game) == *old(game)
            &&& final(display)@ == dice_drawn(
                old(display)@,
                whole_frame(),
                old(game).rolled@,
                old(game).rolled@.len() as int,
            )
        },
        old(game).dice_left == NumberOfDice::Zero ==> {
            &&& result == final_result(old(game).picked@)
            &&& final(game).picked@ == Seq::<Die>::empty()
            &&& final(game).rolled@ == Seq::<Die>::empty()
            &&& final(game).dice_left == NumberOfDice::Five
            &&& final(display)@ == dice_drawn(old(display)@, whole_frame(), old(game).picked@, 5)
        },
{
    if game.dice_left.as_u8() > 0 {
        proof {
            if game.rolled@.len() > 0 {
                lemma_dice_fit(game.rolled@.len() as int);
            }
        }
        game.rolled.draw(display, Area::whole());
        GameResult::Playing
    } else {
        proof {
            lemma_dice_fit(5);
        }
        let score = game.score();
        game.picked.draw(display, Area::whole());
        if game.has_fish() {
            game.reset();
            GameResult::Fish
        } else if game.has_won() {
            game.reset();
            GameResult::Won
        } else {
            game.reset();
            GameResult::GameOver(score)
        }
    }
}

/// Plays one round and draws it on a cleared display. The dice that are left
/// are rolled and the round is played with them. With no dice left nothing is
/// rolled, and the outcome that the game holds is reported. An outcome that
/// ends the game resets the game in the same call, so that the next round is
/// a fresh one.
pub fn play_and_draw(display: &mut DisplayFrame, game: &mut Game) -> (result: GameResult)
    requires
        old(game).wf(),
    ensures
        final(game).wf(),
        old(game).dice_left == NumberOfDice::Zero ==> final(game).small_rng == old(game).small_rng,
        trigger_played(*old(game), *final(game), final(display)@, result),
{
    display.clear();
    game.roll();
    let ghost rolled = game.rolled@;
    let result = show_round(display, game);
    proof {
        if old(game).dice_left != NumberOfDice::Zero {
            assert(round_played(old(game).picked@, rolled, *game, display@, result));
        }
    }
    result
}

/// Rolls `number` dice with `small_rng` and draws them over what `target`
/// shows.
fn roll_and_draw(target: &mut DisplayFrame, small_rng: SmallRng, number: u32) -> (rng: SmallRng)
    requires
        1 <= number <= 5,
    ensures
        exists|rolled: Seq<Die>|
            rolled.len() == number && final(target)@ == #[trigger] dice_drawn(
                old(target)@,
                whole_frame(),
                rolled,
                number as int,
            ),
{
    let mut small_rng = small_rng;
    let dice = Dice::roll_with(&mut small_rng, number);
    proof {
        lemma_dice_fit(number as int);
    }
    dice.draw(target, Area::whole());
    proof {
        assert(target@ == dice_drawn(old(target)@, whole_frame(), dice@, number as int));
    }
    small_rng
}

/// Rolls one die and draws it over what `target` shows. Gives the generator
/// back.
pub fn roll_die(target: &mut DisplayFrame, small_rng: SmallRng) -> (rng: SmallRng)
    ensures
        exists|rolled: Seq<Die>|
            rolled.len() == 1 && final(target)@ == #[trigger] dice_drawn(
                old(target)@,
                whole_frame(),
                rolled,
                1,
            ),
{
    roll_and_draw(target, small_rng, 1)
}

/// Rolls two dice and draws them over what `target` shows.
pub fn roll_two_dice(target: &mut DisplayFrame, small_rng: SmallRng) -> (rng: SmallRng)
    ensures
        exists|rolled: Seq<Die>|
            rolled.len() == 2 && final(target)@ == #[trigger] dice_drawn(
                old(target)@,
                whole_frame(),
                rolled,
                2,
            ),
{
    roll_and_draw(target, small_rng, 2)
}

/// Rolls three dice and draws them over what `target` shows.
pub fn roll_three_dice(target: &mut DisplayFrame, small_rng: SmallRng) -> (rng: SmallRng)
    ensures
        exists|rolled: Seq<Die>|
            rolled.len() == 3 && final(target)@ == #[trigger] dice_drawn(
                old(target)@,
                whole_frame(),
                rolled,
                3,
            ),
{
    roll_and_draw(target, small_rng, 3)
}

/// Rolls four dice and draws them over what `target` shows.
pub fn roll_four_dice(target: &mut DisplayFrame, small_rng: SmallRng) -> (rng: SmallRng)
    ensures
        exists|rolled: Seq<Die>|
            rolled.len() == 4 && final(target)@ == #[trigger] dice_drawn(
                old(target)@,
                whole_frame(),
                rolled,
                4,
            ),
{
    roll_and_draw(target, small_rng, 4)
}

/// Rolls five dice and draws them over what `target` shows.
pub fn roll_five_dice(target: &mut DisplayFrame, small_rng: SmallRng) -> (rng: SmallRng)
    ensures
        exists|rolled: Seq<Die>|
            rolled.len() == 5 && final(target)@ == #[trigger] dice_drawn(
                old(target)@,
                whole_frame(),
                rolled,
                5,
            ),
{
    roll_and_draw(target, small_rng, 5)
}

/// Rolls one to five dice, as the generator has it, and draws them over what
/// `target` shows.
pub fn roll_one_to_five_number_of_dice(target: &mut DisplayFrame, small_rng: SmallRng) -> (rng:
    SmallRng)
    ensures
        exists|rolled: Seq<Die>|
            1 <= rolled.len() <= 5 && final(target)@ == #[trigger] dice_drawn(
                old(target)@,
                whole_frame(),
                rolled,
                rolled.len() as int,
            ),
{
    let mut small_rng = small_rng;
    let number = random_in_range(&mut small_rng, 1, 6);
    if number == 1 {
        roll_die(target, small_rng)
    } else if number == 2 {
        roll_two_dice(target, small_rng)
    } else if number == 3 {
        roll_three_dice(target, small_rng)
    } else if number == 4 {
        roll_four_dice(target, small_rng)
    } else {
        roll_five_dice(target, small_rng)
    }
}

} // verus!
