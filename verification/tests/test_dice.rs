use std::cell::Cell;

use rand::rngs::SmallRng;
use rand::SeedableRng;

use two_four_eighteen::dice::{find_best_grid, Dice};
use two_four_eighteen::die::{Die, FaceValue};
use two_four_eighteen::utils::{percent_of, percent_of_to_nearest_odd};

fn set(pips: &[u8]) -> Dice {
    Dice::from(pips.iter().map(|p| Die::new(FaceValue::from_pips(*p))).collect::<Vec<Die>>())
}

fn shown(dice: &Dice) -> Vec<u8> {
    dice.dice.iter().map(|die| die.value.as_u8()).collect()
}

#[test]
fn face_values_have_one_to_six_pips() {
    let faces = [
        FaceValue::One,
        FaceValue::Two,
        FaceValue::Three,
        FaceValue::Four,
        FaceValue::Five,
        FaceValue::Six,
    ];
    for (i, face) in faces.iter().enumerate() {
        assert_eq!(face.as_u8() as usize, i + 1);
        assert_eq!(FaceValue::from_pips(i as u8 + 1), *face);
        assert_eq!(Die::new(*face).value, *face);
    }
    assert!(FaceValue::Two < FaceValue::Four);
    assert!(Die::new(FaceValue::Six) > Die::new(FaceValue::Five));
}

#[test]
fn samples_are_faces_and_not_all_the_same() {
    let mut rng = SmallRng::seed_from_u64(11);
    let mut seen = [false; 6];
    for _ in 0..600 {
        let face = FaceValue::sample(&mut rng);
        seen[face.as_u8() as usize - 1] = true;
    }
    assert_eq!(seen, [true; 6]);
}

#[test]
fn roll_asks_the_generator_once_for_each_die() {
    let calls = Cell::new(0u8);
    let dice = Dice::roll(
        || {
            calls.set(calls.get() + 1);
            FaceValue::from_pips((calls.get() - 1) % 6 + 1)
        },
        5,
    );
    assert_eq!(calls.get(), 5);
    assert_eq!(shown(&dice), vec![1, 2, 3, 4, 5]);
    let none = Dice::roll(|| FaceValue::Six, 0);
    assert!(none.is_empty());
}

#[test]
fn roll_with_gives_the_number_of_dice_asked_for() {
    let mut rng = SmallRng::seed_from_u64(5);
    for number in 0..6u32 {
        let dice = Dice::roll_with(&mut rng, number);
        assert_eq!(dice.len(), number as usize);
    }
}

#[test]
fn pick_takes_the_first_hits_up_to_the_limit() {
    let mut dice = set(&[3, 4, 1, 4, 4]);
    let picked = dice.pick(|value| value == FaceValue::Four, Some(1));
    assert_eq!(shown(&picked), vec![4]);
    assert_eq!(shown(&dice), vec![3, 1, 4, 4]);

    let mut dice = set(&[3, 4, 1, 4, 4]);
    let picked = dice.pick(|value| value == FaceValue::Four, Some(2));
    assert_eq!(shown(&picked), vec![4, 4]);
    assert_eq!(shown(&dice), vec![3, 1, 4]);

    let mut dice = set(&[3, 4, 1, 4, 4]);
    let picked = dice.pick(|value| value == FaceValue::Four, Some(0));
    assert!(picked.is_empty());
    assert_eq!(shown(&dice), vec![3, 4, 1, 4, 4]);
}

#[test]
fn pick_without_limit_takes_every_hit_in_order() {
    let mut dice = set(&[5, 2, 6, 1, 5]);
    let picked = dice.pick(|value| value >= FaceValue::Five, None);
    assert_eq!(shown(&picked), vec![5, 6, 5]);
    assert_eq!(shown(&dice), vec![2, 1]);

    let mut dice = set(&[1, 2]);
    let picked = dice.pick(|value| value >= FaceValue::Five, None);
    assert!(picked.is_empty());
    assert_eq!(shown(&dice), vec![1, 2]);

    let mut empty = Dice::empty();
    let picked = empty.pick(|_| true, None);
    assert!(picked.is_empty() && empty.is_empty());
}

#[test]
fn max_is_the_highest_die() {
    assert_eq!(Dice::empty().max(), None);
    assert_eq!(set(&[3]).max(), Some(Die::new(FaceValue::Three)));
    assert_eq!(set(&[2, 5, 5, 1]).max(), Some(Die::new(FaceValue::Five)));
    assert_eq!(set(&[6, 1, 6]).max(), Some(Die::new(FaceValue::Six)));
    assert_eq!(set(&[1, 1, 1]).max(), Some(Die::new(FaceValue::One)));
}

#[test]
fn append_moves_the_dice_to_the_end() {
    let mut first = set(&[1, 2]);
    let mut second = set(&[6, 5, 4]);
    first.append(&mut second);
    assert_eq!(shown(&first), vec![1, 2, 6, 5, 4]);
    assert!(second.is_empty());
    assert_eq!(first.len(), 5);
    first.push(Die::new(FaceValue::Three));
    assert_eq!(shown(&first), vec![1, 2, 6, 5, 4, 3]);
    let mut nothing = Dice::empty();
    first.append(&mut nothing);
    assert_eq!(first.len(), 6);
    assert!(!first.is_empty());
}

#[test]
fn best_grid_has_the_largest_cells() {
    assert_eq!(find_best_grid(0, 128, 64), (1, 0, 0));
    assert_eq!(find_best_grid(1, 128, 64), (1, 1, 64));
    assert_eq!(find_best_grid(2, 128, 64), (2, 1, 64));
    assert_eq!(find_best_grid(3, 128, 64), (3, 1, 42));
    assert_eq!(find_best_grid(4, 128, 64), (2, 2, 32));
    assert_eq!(find_best_grid(5, 128, 64), (3, 2, 32));
    assert_eq!(find_best_grid(5, 640, 320), (3, 2, 160));
    assert_eq!(find_best_grid(4, 64, 64), (2, 2, 32));
    assert_eq!(find_best_grid(3, 10, 100), (1, 3, 10));
    assert_eq!(find_best_grid(3, 1, 2), (1, 3, 0));
    assert_eq!(find_best_grid(2, 0, 0), (1, 2, 0));
}

#[test]
fn percent_is_rounded_to_the_nearest() {
    assert_eq!(percent_of(64, 3), 2);
    assert_eq!(percent_of(60, 6), 4);
    assert_eq!(percent_of(50, 3), 2);
    assert_eq!(percent_of(49, 3), 1);
    assert_eq!(percent_of(16, 3), 0);
    assert_eq!(percent_of(17, 3), 1);
    assert_eq!(percent_of(0, 50), 0);
    assert_eq!(percent_of(200, 100), 200);
    assert_eq!(percent_of(1, 50), 1);
    assert_eq!(percent_of(u32::MAX, 100), u32::MAX);
    assert_eq!(percent_of(u32::MAX, 200), u32::MAX);
    assert_eq!(percent_of(u32::MAX, u32::MAX), u32::MAX);
    for number in 0..400u32 {
        for percent in [0u32, 3, 6, 13, 50, 99, 100, 150] {
            let exact = (number as f64) * (percent as f64) / 100.0;
            assert_eq!(percent_of(number, percent), exact.round() as u32);
        }
    }
}

fn nearest_odd_in_floats(number: u32, percent: u32) -> u32 {
    let result = (number as f64) * (percent as f64) / 100.0;
    let rounded = result as u32;
    if rounded % 2 == 1 {
        rounded
    } else if rounded == 0 {
        1
    } else if (result - (rounded - 1) as f64).abs() <= (result - (rounded + 1) as f64).abs() {
        rounded - 1
    } else {
        rounded + 1
    }
}

#[test]
fn percent_to_the_nearest_odd_is_odd() {
    assert_eq!(percent_of_to_nearest_odd(60, 13), 7);
    assert_eq!(percent_of_to_nearest_odd(0, 13), 1);
    assert_eq!(percent_of_to_nearest_odd(1, 13), 1);
    assert_eq!(percent_of_to_nearest_odd(100, 2), 1);
    assert_eq!(percent_of_to_nearest_odd(100, 4), 3);
    assert_eq!(percent_of_to_nearest_odd(110, 4), 5);
    assert_eq!(percent_of_to_nearest_odd(16, 13), 3);
    assert_eq!(percent_of_to_nearest_odd(u32::MAX, 100), u32::MAX);
    assert_eq!(percent_of_to_nearest_odd(u32::MAX, u32::MAX), u32::MAX);
    for number in 0..400u32 {
        for percent in [0u32, 2, 4, 13, 50, 100, 200] {
            let odd = percent_of_to_nearest_odd(number, percent);
            assert_eq!(odd % 2, 1);
            assert_eq!(odd, nearest_odd_in_floats(number, percent));
        }
    }
}
