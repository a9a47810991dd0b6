use rand::rngs::SmallRng;
use rand::SeedableRng;

use two_four_eighteen::dice::Dice;
use two_four_eighteen::die::{Die, FaceValue};
use two_four_eighteen::engine::{Game, NumberOfDice};
use two_four_eighteen::entities::GameState;
use two_four_eighteen::frame::{Area, DisplayFrame};
use two_four_eighteen::player;
use two_four_eighteen::player::{play_and_draw, show_round, GameResult};
use two_four_eighteen::tasks::PlayAndDraw;

fn set_of(pips: &[u8]) -> Dice {
    Dice::from(pips.iter().map(|p| Die::new(FaceValue::from_pips(*p))).collect::<Vec<Die>>())
}

fn picture_of(dice: &Dice) -> Vec<bool> {
    let mut frame = DisplayFrame::blank();
    dice.draw(&mut frame, Area::whole());
    frame.cells.to_vec()
}

fn state_with(picked: &[u8], rolled: &[u8]) -> Game {
    Game {
        dice_left: NumberOfDice::from_u8(5 - picked.len() as u8),
        small_rng: SmallRng::seed_from_u64(99),
        picked: set_of(picked),
        rolled: set_of(rolled),
    }
}

fn number_of_dice_drawn(frame: &DisplayFrame) -> usize {
    // the same number of dice, whatever they show, gives the same outlines:
    // count the pictures of one to five dice that share the frame's outline cells
    let mut found = 0;
    for number in 1..=5usize {
        let ones = set_of(&vec![1; number]);
        let mut outline = DisplayFrame::blank();
        ones.draw(&mut outline, Area::whole());
        let grid = two_four_eighteen::dice::find_best_grid(number as u32, 128, 64);
        let mut matches = true;
        for k in 0..number as u32 {
            let left = grid.2 * (k / grid.1) + (128 - grid.2 * grid.0) / 2;
            let top = grid.2 * (k % grid.1) + (64 - grid.2 * grid.1) / 2;
            let edge_x = left + two_four_eighteen::utils::percent_of(grid.2, 3);
            if !frame.is_on(edge_x, top + grid.2 / 2) {
                matches = false;
            }
        }
        if matches && frame.cells.iter().filter(|c| **c).count() >= outline.cells.iter().filter(|c| **c).count() {
            found = number;
        }
    }
    found
}

#[test]
fn roll_die() {
    let mut display = DisplayFrame::blank();
    let _rng: SmallRng = player::roll_die(&mut display, SmallRng::seed_from_u64(1));
    assert_eq!(number_of_dice_drawn(&display), 1);
}

#[test]
fn roll_two_dice() {
    let mut display = DisplayFrame::blank();
    player::roll_two_dice(&mut display, SmallRng::seed_from_u64(2));
    assert_eq!(number_of_dice_drawn(&display), 2);
}

#[test]
fn roll_three_dice() {
    let mut display = DisplayFrame::blank();
    player::roll_three_dice(&mut display, SmallRng::seed_from_u64(3));
    assert_eq!(number_of_dice_drawn(&display), 3);
}

#[test]
fn roll_four_dice() {
    let mut display = DisplayFrame::blank();
    player::roll_four_dice(&mut display, SmallRng::seed_from_u64(4));
    assert_eq!(number_of_dice_drawn(&display), 4);
}

#[test]
fn roll_five_dice() {
    let mut display = DisplayFrame::blank();
    player::roll_five_dice(&mut display, SmallRng::seed_from_u64(5));
    assert_eq!(number_of_dice_drawn(&display), 5);
}

#[test]
fn roll_one_to_five_number_of_dice() {
    let mut seen = [false; 6];
    for seed in 0..100u64 {
        let mut display = DisplayFrame::blank();
        player::roll_one_to_five_number_of_dice(&mut display, SmallRng::seed_from_u64(seed));
        let number = number_of_dice_drawn(&display);
        assert!((1..=5).contains(&number));
        seen[number] = true;
    }
    assert_eq!(seen, [false, true, true, true, true, true]);
}

#[test]
fn rolls_go_on_with_the_generator_given_back() {
    let mut display = DisplayFrame::blank();
    let rng = player::roll_five_dice(&mut display, SmallRng::seed_from_u64(21));
    let mut expected = SmallRng::seed_from_u64(21);
    let first = Dice::roll_with(&mut expected, 5);
    assert_eq!(display.cells.to_vec(), picture_of(&first));
    assert_eq!(rng, expected);
}

#[test]
fn a_round_with_dice_left_shows_the_roll() {
    let mut game = state_with(&[4, 2], &[5, 1, 1]);
    game.picked.push(Die::new(FaceValue::Five));
    game.dice_left = NumberOfDice::Two;
    let mut display = DisplayFrame::blank();
    let result = show_round(&mut display, &mut game);
    assert_eq!(result, GameResult::Playing);
    assert_eq!(display.cells.to_vec(), picture_of(&set_of(&[5, 1, 1])));
    assert_eq!(game.dice_left, NumberOfDice::Two);
    assert_eq!(game.picked.len(), 3);
    assert_eq!(game.rolled.len(), 3);
}

#[test]
fn a_game_that_is_over_shows_the_picked_dice_and_starts_anew() {
    let cases: [(&[u8], GameResult); 5] = [
        (&[4, 2, 6, 6, 6], GameResult::Won),
        (&[4, 2, 6, 6, 5], GameResult::GameOver(17)),
        (&[4, 2, 1, 1, 1], GameResult::GameOver(3)),
        (&[4, 6, 6, 6, 6], GameResult::Fish),
        (&[1, 2, 3, 5, 6], GameResult::Fish),
    ];
    for (picked, outcome) in cases {
        let mut game = state_with(picked, &[1]);
        let mut display = DisplayFrame::blank();
        let result = show_round(&mut display, &mut game);
        assert_eq!(result, outcome);
        assert_eq!(display.cells.to_vec(), picture_of(&set_of(picked)));
        assert_eq!(game.dice_left, NumberOfDice::Five);
        assert!(game.picked.is_empty());
        assert!(game.rolled.is_empty());
    }
}

#[test]
fn play_and_draw_rolls_what_is_left() {
    for seed in 0..100u64 {
        let mut game = Game::new(SmallRng::seed_from_u64(seed));
        let mut rounds = 0;
        loop {
            let left = game.dice_left.as_u8() as usize;
            let picked_before = game.picked.len();
            let mut twin = Game {
                dice_left: game.dice_left,
                small_rng: game.small_rng.clone(),
                picked: set_of(&game.picked.dice.iter().map(|d| d.value.as_u8()).collect::<Vec<u8>>()),
                rolled: Dice::empty(),
            };
            twin.roll();
            let mut display = DisplayFrame::blank();
            Die::new(FaceValue::Six).draw(&mut display, Area { left: 0, top: 0, width: 9, height: 9 });
            let result = play_and_draw(&mut display, &mut game);
            rounds += 1;
            assert!(game.is_valid());
            if result == GameResult::Playing {
                assert_eq!(game.rolled.len(), left);
                assert!(game.picked.len() > picked_before);
                assert!(game.dice_left > NumberOfDice::Zero);
                assert_eq!(display.cells.to_vec(), picture_of(&game.rolled));
                assert_eq!(game.picked.len(), twin.picked.len());
            } else {
                assert_eq!(twin.dice_left, NumberOfDice::Zero);
                assert_eq!(display.cells.to_vec(), picture_of(&twin.picked));
                let expected = if twin.has_fish() {
                    GameResult::Fish
                } else if twin.has_won() {
                    GameResult::Won
                } else {
                    GameResult::GameOver(twin.score())
                };
                assert_eq!(result, expected);
                assert_eq!(game.dice_left, NumberOfDice::Five);
                assert!(game.picked.is_empty() && game.rolled.is_empty());
                break;
            }
        }
        assert!(rounds <= 5);
    }
}

#[test]
fn a_game_with_no_dice_left_has_its_outcome_reported() {
    let cases: [(&[u8], GameResult); 4] = [
        (&[4, 2, 5, 3, 1], GameResult::GameOver(9)),
        (&[6, 6, 6, 5, 1], GameResult::Fish),
        (&[4, 2, 6, 6, 6], GameResult::Won),
        (&[4, 6, 6, 6, 6], GameResult::Fish),
    ];
    for (picked, outcome) in cases {
        let mut game = state_with(picked, &[]);
        assert_eq!(game.dice_left, NumberOfDice::Zero);
        let rng_before = game.small_rng.clone();
        let mut display = DisplayFrame::blank();
        Die::new(FaceValue::Six).draw(&mut display, Area { left: 0, top: 0, width: 9, height: 9 });
        let result = play_and_draw(&mut display, &mut game);
        // nothing is rolled: the outcome is that of the dice the game holds
        assert_eq!(result, outcome);
        assert_eq!(display.cells.to_vec(), picture_of(&set_of(picked)));
        assert_eq!(game.small_rng, rng_before);
        assert_eq!(game.dice_left, NumberOfDice::Five);
        assert!(game.picked.is_empty());
        assert!(game.rolled.is_empty());
        // the next trigger plays a first round
        let result = play_and_draw(&mut display, &mut game);
        if result == GameResult::Playing {
            assert_eq!(game.rolled.len(), 5);
            assert_eq!(game.picked.len() + game.dice_left.as_u8() as usize, 5);
            assert_eq!(display.cells.to_vec(), picture_of(&game.rolled));
        } else {
            assert_eq!(game.dice_left, NumberOfDice::Five);
        }
    }
    // the same through the player of the rounds
    let mut player = PlayAndDraw { game: Some(state_with(&[4, 2, 5, 3, 1], &[])) };
    let round = player.on_trigger(77);
    assert!(matches!(round.state, GameState::GameOver(_, 9)));
    assert_eq!(round.frame.cells.to_vec(), picture_of(&set_of(&[4, 2, 5, 3, 1])));
    assert_eq!(player.game.as_ref().unwrap().dice_left, NumberOfDice::Five);
}

#[test]
fn a_trigger_after_a_game_is_over_plays_a_fresh_round() {
    // the outcome that ends a game resets the engine in the same call, so
    // with every seed the round after a game that is over rolls five dice
    for seed in 0..50u64 {
        let mut player = PlayAndDraw::new();
        assert!(player.is_valid());
        let mut over = false;
        for _ in 0..40 {
            let round = player.on_trigger(seed);
            let game = player.game.as_ref().unwrap();
            assert!(player.is_valid());
            if over {
                // a first round: five dice rolled, or all five picked at once
                match round.state {
                    GameState::Playing => assert_eq!(game.rolled.len(), 5),
                    _ => assert_eq!(game.dice_left, NumberOfDice::Five),
                }
            }
            over = round.state.is_final_state();
            match round.state {
                GameState::Playing => {
                    assert!(game.dice_left > NumberOfDice::Zero);
                    assert_eq!(round.frame.cells.to_vec(), picture_of(&game.rolled));
                }
                GameState::Won(frame) | GameState::Fish(frame) | GameState::GameOver(frame, _) => {
                    assert_eq!(frame.cells.to_vec(), round.frame.cells.to_vec());
                    assert_eq!(game.dice_left, NumberOfDice::Five);
                    assert!(game.picked.is_empty());
                }
            }
        }
    }
}

#[test]
fn the_first_trigger_seeds_the_game() {
    let mut first = PlayAndDraw::new();
    let mut second = PlayAndDraw::new();
    assert!(first.game.is_none());
    let one = first.on_trigger(1_234_567);
    let two = second.on_trigger(1_234_567);
    assert_eq!(one.frame.cells.to_vec(), two.frame.cells.to_vec());
    // later triggers do not seed again
    let one = first.on_trigger(1);
    let two = second.on_trigger(2);
    assert_eq!(one.frame.cells.to_vec(), two.frame.cells.to_vec());
    let mut frames = Vec::new();
    for seed in 0..20u64 {
        let mut player = PlayAndDraw::new();
        frames.push(player.on_trigger(seed).frame.cells.to_vec());
    }
    frames.dedup();
    assert!(frames.len() > 1);
}

#[test]
fn game_states_carry_the_outcome() {
    let frame = DisplayFrame::blank();
    assert!(!GameState::of_result(GameResult::Playing, frame).is_final_state());
    assert!(GameState::of_result(GameResult::Won, frame).is_final_state());
    assert!(GameState::of_result(GameResult::Fish, frame).is_final_state());
    assert!(GameState::of_result(GameResult::GameOver(7), frame).is_final_state());
    match GameState::of_result(GameResult::GameOver(7), frame) {
        GameState::GameOver(_, score) => assert_eq!(score, 7),
        _ => panic!("a game that is over keeps its score"),
    }
    assert!(matches!(GameState::of_result(GameResult::Won, frame), GameState::Won(_)));
    assert!(matches!(GameState::of_result(GameResult::Fish, frame), GameState::Fish(_)));
    assert!(matches!(GameState::of_result(GameResult::Playing, frame), GameState::Playing));
}
