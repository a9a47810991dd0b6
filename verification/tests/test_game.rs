use rand::rngs::SmallRng;
use rand::SeedableRng;

use two_four_eighteen::dice::Dice;
use two_four_eighteen::die::{Die, FaceValue};
use two_four_eighteen::engine::{Game, NumberOfDice};

fn face(pips: u8) -> FaceValue {
    FaceValue::from_pips(pips)
}

fn dice(pips: &[u8]) -> Dice {
    Dice::from(pips.iter().map(|p| Die::new(face(*p))).collect::<Vec<Die>>())
}

fn pips(dice: &Dice) -> Vec<u8> {
    dice.dice.iter().map(|die| die.value.as_u8()).collect()
}

fn game_with(picked: &[u8]) -> Game {
    Game {
        dice_left: NumberOfDice::from_u8(5 - picked.len() as u8),
        small_rng: SmallRng::seed_from_u64(7),
        picked: dice(picked),
        rolled: Dice::empty(),
    }
}

fn after_turn(picked: &[u8], rolled: &[u8]) -> Game {
    let mut game = game_with(picked);
    assert!(game.is_valid());
    game.take_turn(dice(rolled));
    assert!(game.is_valid());
    assert_eq!(pips(&game.rolled), rolled.to_vec());
    game
}

#[test]
fn play_game() {
    for seed in 0..200u64 {
        let mut game = Game::new(SmallRng::seed_from_u64(seed));
        let mut rounds = 0;
        while game.dice_left > NumberOfDice::Zero {
            let left = game.dice_left.as_u8() as usize;
            let picked_before = game.picked.len();
            game.roll();
            assert_eq!(game.rolled.len(), left);
            assert!(game.rolled.dice.iter().all(|die| (1..=6).contains(&die.value.as_u8())));
            assert!(game.picked.len() > picked_before);
            assert_eq!(game.dice_left.as_u8() as usize + game.picked.len(), 5);
            rounds += 1;
        }
        assert!(rounds >= 1 && rounds <= 5);
        assert_eq!(game.picked.len(), 5);
        let total: i8 = game.picked.dice.iter().map(|die| die.value.as_u8() as i8).sum();
        if game.has_fish() {
            assert_eq!(game.score(), -1);
            assert!(!game.has_won());
        } else {
            assert_eq!(game.score(), total - 6);
            assert_eq!(game.has_won(), game.score() == 18);
        }
    }
}

#[test]
fn start_game_with_no_fish() {
    for seed in 0..50u64 {
        let picked = vec![Die::new(FaceValue::Two), Die::new(FaceValue::Four)];
        let mut game = Game {
            dice_left: NumberOfDice::Three,
            small_rng: SmallRng::seed_from_u64(seed),
            picked: Dice::from(picked),
            rolled: Dice::empty(),
        };
        game.roll();
        assert_eq!(game.rolled.len(), 3);
        assert!(game.picked.len() >= 3);
        assert_eq!(pips(&game.picked)[..2], [2, 4]);
        assert!(!game.has_fish());
        assert_eq!(game.dice_left.as_u8() as usize + game.picked.len(), 5);
    }
}

#[test]
fn four_two_and_three_sixes_win_in_one_round() {
    let game = after_turn(&[], &[4, 2, 6, 6, 6]);
    assert_eq!(game.dice_left, NumberOfDice::Zero);
    assert_eq!(pips(&game.picked), vec![4, 2, 6, 6, 6]);
    assert_eq!(game.score(), 18);
    assert!(game.has_won());
    assert!(!game.has_fish());
}

#[test]
fn five_ones_give_one_forced_pick() {
    let game = after_turn(&[], &[1, 1, 1, 1, 1]);
    assert_eq!(game.dice_left, NumberOfDice::Four);
    assert_eq!(pips(&game.picked), vec![1]);
}

#[test]
fn all_dice_picked_without_a_two_is_a_fish() {
    let game = game_with(&[4, 6, 6, 6, 6]);
    assert_eq!(game.dice_left, NumberOfDice::Zero);
    assert_eq!(game.score(), -1);
    assert!(game.has_fish());
    assert!(!game.has_won());
    let game = game_with(&[2, 6, 6, 6, 6]);
    assert_eq!(game.score(), -1);
    assert!(game.has_fish());
    assert!(!game.has_won());
}

#[test]
fn roll_with_no_dice_left_changes_nothing() {
    let mut game = game_with(&[4, 2, 6, 5, 1]);
    game.rolled = dice(&[5, 1]);
    let rng_before = game.small_rng.clone();
    game.roll();
    assert_eq!(game.dice_left, NumberOfDice::Zero);
    assert_eq!(pips(&game.picked), vec![4, 2, 6, 5, 1]);
    assert_eq!(pips(&game.rolled), vec![5, 1]);
    assert_eq!(game.small_rng, rng_before);
    game.take_turn(Dice::empty());
    assert_eq!(pips(&game.picked), vec![4, 2, 6, 5, 1]);
    assert_eq!(pips(&game.rolled), vec![5, 1]);
}

#[test]
fn reset_starts_anew_from_any_state() {
    let mut game = game_with(&[4, 2, 6]);
    game.rolled = dice(&[6, 3, 3]);
    game.reset();
    assert_eq!(game.dice_left, NumberOfDice::Five);
    assert!(game.picked.is_empty());
    assert!(game.rolled.is_empty());
    let mut game = Game::new(SmallRng::seed_from_u64(1));
    game.reset();
    assert_eq!(game.dice_left, NumberOfDice::Five);
    assert!(game.picked.is_empty());
    assert!(game.rolled.is_empty());
}

#[test]
fn new_game_has_five_dice_to_roll() {
    let game = Game::new(SmallRng::seed_from_u64(3));
    assert_eq!(game.dice_left, NumberOfDice::Five);
    assert!(game.picked.is_empty());
    assert!(game.rolled.is_empty());
    assert!(game.is_valid());
    assert!(game.has_fish());
    assert_eq!(game.score(), -1);
}

#[test]
fn same_seed_rolls_the_same_dice() {
    let mut first = Game::from_seed(2_500_000);
    let mut second = Game::from_seed(2_500_000);
    let mut other_rolls = 0;
    for seed in 0..20u64 {
        let mut other = Game::from_seed(seed);
        other.roll();
        let mut again = Game::from_seed(2_500_000);
        again.roll();
        if pips(&other.rolled) != pips(&again.rolled) {
            other_rolls += 1;
        }
    }
    assert!(other_rolls > 0);
    while first.dice_left > NumberOfDice::Zero {
        first.roll();
        second.roll();
        assert_eq!(pips(&first.rolled), pips(&second.rolled));
        assert_eq!(pips(&first.picked), pips(&second.picked));
    }
}

#[test]
fn only_the_first_four_and_two_are_taken_as_such() {
    // picked can no longer win, two dice are left after the round: from four on
    let game = after_turn(&[], &[4, 4, 2, 2, 1]);
    assert_eq!(pips(&game.picked), vec![4, 2]);
    assert_eq!(game.dice_left, NumberOfDice::Three);
    // a four is there already: the rolled four counts as a plain die
    let game = after_turn(&[4, 1], &[4, 3, 3]);
    assert_eq!(pips(&game.picked), vec![4, 1, 4]);
}

#[test]
fn threshold_is_six_while_eighteen_is_in_reach() {
    // four and two just picked: only sixes are banked
    let game = after_turn(&[], &[4, 2, 5, 5, 6]);
    assert_eq!(pips(&game.picked), vec![4, 2, 6]);
    // nothing new, but a six lies on the table
    let game = after_turn(&[4, 2], &[5, 6, 5]);
    assert_eq!(pips(&game.picked), vec![4, 2, 6]);
    // nothing new and no six: from five on (three dice left, one die of five or more)
    let game = after_turn(&[4, 2], &[5, 3, 1]);
    assert_eq!(pips(&game.picked), vec![4, 2, 5]);
}

#[test]
fn threshold_is_four_with_few_dice_left_or_a_good_roll() {
    // two dice left
    let game = after_turn(&[4, 2, 5], &[4, 3]);
    assert_eq!(pips(&game.picked), vec![4, 2, 5, 4]);
    // two dice of five or more
    let game = after_turn(&[4, 2, 5], &[5, 5]);
    assert_eq!(pips(&game.picked), vec![4, 2, 5, 5, 5]);
    // three dice left, two of them five: the four goes along
    let game = after_turn(&[3, 3], &[5, 5, 4]);
    assert_eq!(pips(&game.picked), vec![3, 3, 4, 5, 5]);
    // three dice of four or more among four
    let game = after_turn(&[1], &[4, 4, 4, 5]);
    assert_eq!(pips(&game.picked), vec![1, 4, 4, 4, 5]);
    // only two of them among three left on the table, and a single five
    let game = after_turn(&[3], &[3, 5, 4, 4]);
    assert_eq!(pips(&game.picked), vec![3, 4, 5]);
}

#[test]
fn threshold_is_five_otherwise() {
    // three dice left, one five, one four: the four stays
    let game = after_turn(&[3, 3], &[5, 4, 1]);
    assert_eq!(pips(&game.picked), vec![3, 3, 4, 5]);
    let game = after_turn(&[1, 1], &[3, 3, 5]);
    assert_eq!(pips(&game.picked), vec![1, 1, 5]);
}

#[test]
fn highest_die_is_forced_when_nothing_else_is_picked() {
    let game = after_turn(&[1, 1], &[3, 1, 3]);
    assert_eq!(pips(&game.picked), vec![1, 1, 3]);
    assert_eq!(pips(&game.rolled), vec![3, 1, 3]);
    assert_eq!(game.dice_left, NumberOfDice::Two);
    let game = after_turn(&[4, 2, 1, 1], &[3]);
    assert_eq!(pips(&game.picked), vec![4, 2, 1, 1, 3]);
    assert_eq!(game.dice_left, NumberOfDice::Zero);
    assert_eq!(game.score(), 5);
}

#[test]
fn score_leaves_out_the_four_and_the_two() {
    assert_eq!(game_with(&[4, 2, 1, 1, 1]).score(), 3);
    assert_eq!(game_with(&[6, 6, 2, 4, 5]).score(), 17);
    assert!(!game_with(&[6, 6, 2, 4, 5]).has_won());
    assert_eq!(game_with(&[6, 6, 2, 4, 6]).score(), 18);
    assert!(game_with(&[6, 6, 2, 4, 6]).has_won());
    assert_eq!(game_with(&[4, 2]).score(), 0);
    assert_eq!(game_with(&[4, 4, 2, 2, 6]).score(), 12);
    assert_eq!(game_with(&[6, 6, 6, 6, 6]).score(), -1);
}

#[test]
fn number_of_dice_counts_and_names() {
    let all = [
        NumberOfDice::Zero,
        NumberOfDice::One,
        NumberOfDice::Two,
        NumberOfDice::Three,
        NumberOfDice::Four,
        NumberOfDice::Five,
    ];
    let names = ["Zero", "One", "Two", "Three", "Four", "Five"];
    for (number, dice) in all.iter().enumerate() {
        assert_eq!(dice.as_u8() as usize, number);
        assert_eq!(NumberOfDice::from_u8(number as u8), *dice);
        assert_eq!(dice.name(), names[number]);
    }
    assert_eq!(NumberOfDice::from_u8(6), NumberOfDice::Zero);
    assert_eq!(NumberOfDice::from_u8(255), NumberOfDice::Zero);
    assert_eq!(NumberOfDice::Five - 2, NumberOfDice::Three);
    assert_eq!(NumberOfDice::Five - 5, NumberOfDice::Zero);
    assert_eq!(NumberOfDice::Two - 3, NumberOfDice::Zero);
    assert_eq!(NumberOfDice::Three - 0, NumberOfDice::Three);
    assert!(NumberOfDice::Two < NumberOfDice::Three);
}

#[test]
fn validity_is_the_rule_of_the_five_dice() {
    assert!(game_with(&[4, 2]).is_valid());
    let mut game = game_with(&[4, 2]);
    game.dice_left = NumberOfDice::Five;
    assert!(!game.is_valid());
    let mut game = game_with(&[]);
    game.picked = dice(&[1, 1, 1, 1, 1, 1]);
    assert!(!game.is_valid());
}
