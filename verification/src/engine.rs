//! The rules of a game: what is picked from a roll, the score, and when the
//! game is lost or won.

use rand::rngs::SmallRng;
use rand::SeedableRng;
use vstd::prelude::*;

use crate::dice::decided;
use crate::dice::hits;
use crate::dice::is_first_max;
use crate::dice::kept;
use crate::dice::lemma_partition_len;
use crate::dice::removed;
use crate::dice::Dice;
use crate::die::Die;
use crate::die::FaceValue;

verus! {

/// How many dice are still to be rolled, none to five.
#[derive(PartialEq, Eq, Structural, PartialOrd, Ord, Clone, Copy, Debug, Hash)]
pub enum NumberOfDice {
    Zero,
    One,
    Two,
    Three,
    Four,
    Five,
}

impl NumberOfDice {
    /// The number as an integer.
    pub open spec fn count(self) -> int {
        match self {
            NumberOfDice::Zero => 0,
            NumberOfDice::One => 1,
            NumberOfDice::Two => 2,
            NumberOfDice::Three => 3,
            NumberOfDice::Four => 4,
            NumberOfDice::Five => 5,
        }
    }

    /// The number of dice for 1 to 5; `Zero` for every other integer.
    pub open spec fn of_count(count: int) -> NumberOfDice {
        if count == 1 {
            NumberOfDice::One
        } else if count == 2 {
            NumberOfDice::Two
        } else if count == 3 {
            NumberOfDice::Three
        } else if count == 4 {
            NumberOfDice::Four
        } else if count == 5 {
            NumberOfDice::Five
        } else {
            NumberOfDice::Zero
        }
    }

    /// The number as an integer.
    pub fn as_u8(&self) -> (number: u8)
        ensures
            number == self.count(),
    {
        match self {
            NumberOfDice::Zero => 0,
            NumberOfDice::One => 1,
            NumberOfDice::Two => 2,
            NumberOfDice::Three => 3,
            NumberOfDice::Four => 4,
            NumberOfDice::Five => 5,
        }
    }

    /// The number of dice for 1 to 5; every other number gives `Zero`.
    pub fn from_u8(number: u8) -> (dice: NumberOfDice)
        ensures
            dice == NumberOfDice::of_count(number as int),
    {
        if number == 1 {
            NumberOfDice::One
        } else if number == 2 {
            NumberOfDice::Two
        } else if number == 3 {
            NumberOfDice::Three
        } else if number == 4 {
            NumberOfDice::Four
        } else if number == 5 {
            NumberOfDice::Five
        } else {
            NumberOfDice::Zero
        }
    }

    /// The name of the number, as it is written out.
    pub fn name(&self) -> (name: &'static str)
        ensures
            name@ == match self {
                NumberOfDice::Zero => "Zero"@,
                NumberOfDice::One => "One"@,
                NumberOfDice::Two => "Two"@,
                NumberOfDice::Three => "Three"@,
                NumberOfDice::Four => "Four"@,
                NumberOfDice::Five => "Five"@,
            },
    {
        match self {
            NumberOfDice::Zero => "Zero",
            NumberOfDice::One => "One",
            NumberOfDice::Two => "Two",
            NumberOfDice::Three => "Three",
            NumberOfDice::Four => "Four",
            NumberOfDice::Five => "Five",
        }
    }
}

impl core::ops::Sub<u8> for NumberOfDice {
    type Output = NumberOfDice;

    /// Takes `number` dice away; below none there is nothing to take.
    fn sub(self, number: u8) -> (left: NumberOfDice) {
        let have = self.as_u8();
        if number >= have {
            NumberOfDice::Zero
        } else {
            NumberOfDice::from_u8(have - number)
        }
    }
}

impl vstd::std_specs::ops::SubSpecImpl<u8> for NumberOfDice {
    open spec fn obeys_sub_spec() -> bool {
        true
    }

    open spec fn sub_req(self, number: u8) -> bool {
        true
    }

    open spec fn sub_spec(self, number: u8) -> NumberOfDice {
        if number >= self.count() {
            NumberOfDice::Zero
        } else {
            NumberOfDice::of_count(self.count() - number)
        }
    }
}

/// Whether one of the dice shows `face`.
pub open spec fn has_face(dice: Seq<Die>, face: FaceValue) -> bool {
    exists|i: int| 0 <= i < dice.len() && (#[trigger] dice[i]).value == face
}

/// Die by die, whether it shows `face`.
pub open spec fn shows(dice: Seq<Die>, face: FaceValue) -> Seq<bool> {
    Seq::new(dice.len(), |i: int| dice[i].value == face)
}

/// Die by die, whether it shows `face` or more.
pub open spec fn reaches(dice: Seq<Die>, face: FaceValue) -> Seq<bool> {
    Seq::new(dice.len(), |i: int| dice[i].value.pips() >= face.pips())
}

/// A set without both a four and a two is a fish.
pub open spec fn is_fish(picked: Seq<Die>) -> bool {
    !(has_face(picked, FaceValue::Four) && has_face(picked, FaceValue::Two))
}

/// The pips of all dice together.
pub open spec fn total(dice: Seq<Die>) -> int
    decreases dice.len(),
{
    if dice.len() == 0 {
        0
    } else {
        total(dice.drop_last()) + dice.last().value.pips()
    }
}

/// The score of the picked dice: -1 for a fish, else the pips of all dice but
/// the four and the two.
pub open spec fn score_of(picked: Seq<Die>) -> int {
    if is_fish(picked) {
        -1
    } else {
        total(picked) - 6
    }
}

/// The picked dice can still reach 18: at most one four, at most one two,
/// sixes, and nothing else.
pub open spec fn can_win_with(picked: Seq<Die>) -> bool {
    &&& hits(shows(picked, FaceValue::Four)) <= 1
    &&& hits(shows(picked, FaceValue::Two)) <= 1
    &&& forall|i: int|
        0 <= i < picked.len() ==> {
            let face = (#[trigger] picked[i]).value;
            face == FaceValue::Four || face == FaceValue::Two || face == FaceValue::Six
        }
}

/// The dice that are left to roll once `picked` are put aside.
pub open spec fn left_after(picked: Seq<Die>) -> int {
    if picked.len() >= 5 {
        0
    } else {
        5 - picked.len()
    }
}

/// The least value that is worth picking: `picked` is what is put aside
/// already, `rest` what lies on the table, `grew` whether `picked` got a die
/// in this round.
pub open spec fn threshold(picked: Seq<Die>, rest: Seq<Die>, grew: bool) -> FaceValue {
    if can_win_with(picked) && (has_face(rest, FaceValue::Six) || grew) {
        FaceValue::Six
    } else if left_after(picked) <= 2 || hits(reaches(rest, FaceValue::Five)) >= 2 || hits(
        reaches(rest, FaceValue::Four),
    ) >= 3 {
        FaceValue::Four
    } else {
        FaceValue::Five
    }
}

/// `picked` with the first die of `rest` that shows `face`, unless `picked`
/// holds that face already.
pub open spec fn with_first(picked: Seq<Die>, rest: Seq<Die>, face: FaceValue) -> Seq<Die> {
    if has_face(picked, face) {
        picked
    } else {
        picked + removed(rest, shows(rest, face), Some(1usize))
    }
}

/// What is left of `rest` after `with_first`.
pub open spec fn without_first(picked: Seq<Die>, rest: Seq<Die>, face: FaceValue) -> Seq<Die> {
    if has_face(picked, face) {
        rest
    } else {
        kept(rest, shows(rest, face), Some(1usize))
    }
}

/// The highest die, the first one where several tie.
pub open spec fn highest(dice: Seq<Die>) -> Die {
    dice[choose|i: int| is_first_max(dice, i)]
}

/// The picked dice after a round in which `rolled` came up.
///
/// A four goes to the picked dice if they have none, then a two in the same
/// way. Then every die left that reaches the threshold is picked. If the
/// round has picked nothing by then, the highest die is picked.
pub open spec fn round_picked(picked: Seq<Die>, rolled: Seq<Die>) -> Seq<Die> {
    let with_four = with_first(picked, rolled, FaceValue::Four);
    let rest_four = without_first(picked, rolled, FaceValue::Four);
    let with_two = with_first(with_four, rest_four, FaceValue::Two);
    let rest_two = without_first(with_four, rest_four, FaceValue::Two);
    let least = threshold(with_two, rest_two, with_two.len() > picked.len());
    let banked = with_two + removed(rest_two, reaches(rest_two, least), None);
    let rest = kept(rest_two, reaches(rest_two, least), None);
    if banked.len() > picked.len() {
        banked
    } else {
        banked.push(highest(rest))
    }
}

/// There is one place only that holds the first of the highest dice.
pub proof fn lemma_first_max_is_highest(dice: Seq<Die>, die: Die)
    requires
        exists|i: int| #[trigger] is_first_max(dice, i) && die == dice[i],
    ensures
        highest(dice) == die,
{
    let i = choose|i: int| #[trigger] is_first_max(dice, i) && die == dice[i];
    let j = choose|j: int| is_first_max(dice, j);
    if i < j {
        assert(dice[i].value.pips() < dice[j].value.pips());
    } else if j < i {
        assert(dice[j].value.pips() < dice[i].value.pips());
    }
}

/// A round picks at least one die and never more than were rolled.
pub proof fn lemma_round_sizes(picked: Seq<Die>, rolled: Seq<Die>)
    requires
        rolled.len() >= 1,
    ensures
        picked.len() < round_picked(picked, rolled).len() <= picked.len() + rolled.len(),
{
    let with_four = with_first(picked, rolled, FaceValue::Four);
    let rest_four = without_first(picked, rolled, FaceValue::Four);
    let with_two = with_first(with_four, rest_four, FaceValue::Two);
    let rest_two = without_first(with_four, rest_four, FaceValue::Two);
    let least = threshold(with_two, rest_two, with_two.len() > picked.len());
    lemma_partition_len(rolled, shows(rolled, FaceValue::Four), Some(1usize));
    lemma_partition_len(rest_four, shows(rest_four, FaceValue::Two), Some(1usize));
    lemma_partition_len(rest_two, reaches(rest_two, least), None);
}

/// The five dice stay five: after a round with as many dice as were left, the
/// dice put aside and the dice left to roll are five again.
pub proof fn lemma_five_dice(picked: Seq<Die>, rolled: Seq<Die>)
    requires
        picked.len() + rolled.len() == 5,
        rolled.len() >= 1,
    ensures
        round_picked(picked, rolled).len() + left_after(round_picked(picked, rolled)) == 5,
        left_after(round_picked(picked, rolled)) < left_after(picked),
{
    lemma_round_sizes(picked, rolled);
}

/// The picked dice after the rounds of one game, each round given by its
/// roll, the first round first.
pub open spec fn picked_after(rolls: Seq<Seq<Die>>) -> Seq<Die>
    decreases rolls.len(),
{
    if rolls.len() == 0 {
        Seq::empty()
    } else {
        round_picked(picked_after(rolls.drop_last()), rolls.last())
    }
}

/// Every round rolls the dice that are left, and there is one left at least.
pub open spec fn rolls_in_turn(rolls: Seq<Seq<Die>>) -> bool
    decreases rolls.len(),
{
    rolls.len() == 0 || {
        &&& rolls_in_turn(rolls.drop_last())
        &&& rolls.last().len() >= 1
        &&& picked_after(rolls.drop_last()).len() + rolls.last().len() == 5
    }
}

/// In every state that a game reaches, the dice put aside and the dice left
/// to roll are five, and every round so far has put a die aside.
pub proof fn lemma_reached_keeps_five(rolls: Seq<Seq<Die>>)
    requires
        rolls_in_turn(rolls),
    ensures
        picked_after(rolls).len() + left_after(picked_after(rolls)) == 5,
        picked_after(rolls).len() >= rolls.len(),
    decreases rolls.len(),
{
    if rolls.len() > 0 {
        lemma_reached_keeps_five(rolls.drop_last());
        lemma_five_dice(picked_after(rolls.drop_last()), rolls.last());
        lemma_round_sizes(picked_after(rolls.drop_last()), rolls.last());
    }
}

/// A fish scores -1, whatever the dice show.
pub proof fn lemma_fish_scores_minus_one(picked: Seq<Die>)
    requires
        is_fish(picked),
    ensures
        score_of(picked) == -1,
{
}

/// `rand::SeedableRng::seed_from_u64` for the small generator. The generator
/// that comes back is not described: its values differ between machines.
#[verifier::external_body]
fn seeded_rng(seed: u64) -> SmallRng {
    SmallRng::seed_from_u64(seed)
}

/// Whether one of the dice shows `face`.
fn has(dice: &Dice, face: FaceValue) -> (found: bool)
    ensures
        found == has_face(dice@, face),
{
    let mut i: usize = 0;
    while i < dice.dice.len()
        invariant
            i <= dice@.len(),
            forall|j: int| 0 <= j < i ==> (#[trigger] dice@[j]).value != face,
        decreases dice@.len() - i,
    {
        if dice.dice[i].value == face {
            return true;
        }
        i = i + 1;
    }
    false
}

fn has_two(dice: &Dice) -> (found: bool)
    ensures
        found == has_face(dice@, FaceValue::Two),
{
    has(dice, FaceValue::Two)
}

fn has_four(dice: &Dice) -> (found: bool)
    ensures
        found == has_face(dice@, FaceValue::Four),
{
    has(dice, FaceValue::Four)
}

fn has_six(dice: &Dice) -> (found: bool)
    ensures
        found == has_face(dice@, FaceValue::Six),
{
    has(dice, FaceValue::Six)
}

fn has_fish(dice: &Dice) -> (fish: bool)
    ensures
        fish == is_fish(dice@),
{
    !(has_four(dice) && has_two(dice))
}

/// The number of dice for which `f` says yes.
fn count<F>(dice: &Dice, f: F) -> (number: usize) where F: Fn(FaceValue) -> bool
    requires
        forall|value: FaceValue| call_requires(f, (value,)),
    ensures
        exists|answers: Seq<bool>| #[trigger] decided(f, dice@, answers) && number == hits(answers),
{
    let ghost mut answers: Seq<bool> = Seq::empty();
    let mut number: usize = 0;
    let mut i: usize = 0;
    while i < dice.dice.len()
        invariant
            i <= dice@.len(),
            forall|value: FaceValue| call_requires(f, (value,)),
            decided(f, dice@.take(i as int), answers),
            number == hits(answers),
            number <= i,
        decreases dice@.len() - i,
    {
        let yes = f(dice.dice[i].value);
        proof {
            let before = answers;
            answers = answers.push(yes);
            assert(answers.drop_last() == before);
            assert forall|k: int| 0 <= k < i + 1 implies call_ensures(
                f,
                (dice@.take(i + 1)[k].value,),
                #[trigger] answers[k],
            ) by {
                if k < i {
                    assert(dice@.take(i as int)[k] == dice@.take(i + 1)[k]);
                    assert(before[k] == answers[k]);
                }
            }
        }
        if yes {
            number = number + 1;
        }
        i = i + 1;
    }
    proof {
        assert(dice@.take(i as int) == dice@);
    }
    number
}

/// The number of dice that show `face` or more.
fn count_reaching(dice: &Dice, face: FaceValue) -> (number: usize)
    ensures
        number == hits(reaches(dice@, face)),
{
    let reaching = |value: FaceValue| -> (yes: bool)
        ensures
            yes == (value.pips() >= face.pips()),
        { value.as_u8() >= face.as_u8() };
    let number = count(dice, reaching);
    proof {
        let answers = choose|answers: Seq<bool>| #[trigger]
            decided(reaching, dice@, answers) && number == hits(answers);
        assert(answers =~= reaches(dice@, face));
    }
    number
}

fn can_win(picked_dice: &Dice) -> (possible: bool)
    ensures
        possible == can_win_with(picked_dice@),
{
    let ghost all = picked_dice@;
    let mut count_4: usize = 0;
    let mut count_2: usize = 0;
    let mut only_allowed = true;
    let mut i: usize = 0;
    while i < picked_dice.dice.len()
        invariant
            picked_dice@ == all,
            i <= all.len(),
            count_4 == hits(shows(all.take(i as int), FaceValue::Four)),
            count_2 == hits(shows(all.take(i as int), FaceValue::Two)),
            count_4 <= i,
            count_2 <= i,
            only_allowed == forall|j: int|
                0 <= j < i ==> {
                    let face = (#[trigger] all[j]).value;
                    face == FaceValue::Four || face == FaceValue::Two || face == FaceValue::Six
                },
        decreases all.len() - i,
    {
        let face = picked_dice.dice[i].value;
        proof {
            let part = all.take(i as int);
            let next = all.take(i + 1);
            assert(shows(next, FaceValue::Four).drop_last() == shows(part, FaceValue::Four));
            assert(shows(next, FaceValue::Two).drop_last() == shows(part, FaceValue::Two));
        }
        if face == FaceValue::Four {
            count_4 = count_4 + 1;
        } else if face == FaceValue::Two {
            count_2 = count_2 + 1;
        } else if face == FaceValue::Six {
        } else {
            only_allowed = false;
        }
        i = i + 1;
    }
    proof {
        assert(all.take(i as int) == all);
    }
    only_allowed && count_4 <= 1 && count_2 <= 1
}

/// The dice that are left to roll once `picked` are put aside.
fn dice_left(picked: &Dice) -> (left: NumberOfDice)
    ensures
        left.count() == left_after(picked@),
{
    let number = picked.len();
    if number >= 5 {
        NumberOfDice::Zero
    } else {
        NumberOfDice::Five - (number as u8)
    }
}

/// The state of one game.
pub struct Game {
    /// The dice still to be rolled.
    pub dice_left: NumberOfDice,
    /// The generator the dice are rolled with.
    pub small_rng: SmallRng,
    /// The dice put aside so far.
    pub picked: Dice,
    /// The last roll as it came up, before anything was picked from it.
    pub rolled: Dice,
}

impl Game {
    /// The five dice are either put aside or still to be rolled.
    pub open spec fn wf(&self) -> bool {
        self.dice_left.count() + self.picked@.len() == 5
    }

    /// A game at its start, with `small_rng` to roll the dice.
    pub fn new(small_rng: SmallRng) -> (game: Game)
        ensures
            game.dice_left == NumberOfDice::Five,
            game.picked@ == Seq::<Die>::empty(),
            game.rolled@ == Seq::<Die>::empty(),
            game.small_rng == small_rng,
            game.wf(),
    {
        Game {
            dice_left: NumberOfDice::Five,
            small_rng,
            picked: Dice::empty(),
            rolled: Dice::empty(),
        }
    }

    /// A new game whose generator is seeded with `seed`.
    pub fn from_seed(seed: u64) -> (game: Game)
        ensures
            game.dice_left == NumberOfDice::Five,
            game.picked@ == Seq::<Die>::empty(),
            game.rolled@ == Seq::<Die>::empty(),
            game.wf(),
    {
        Game::new(seeded_rng(seed))
    }

    /// Whether the state keeps the rule of the five dice.
    pub fn is_valid(&self) -> (valid: bool)
        ensures
            valid == self.wf(),
    {
        let number = self.picked.len();
        number <= 5 && self.dice_left.as_u8() == 5 - (number as u8)
    }

    /// Back to the start of a game; the generator goes on where it is.
    pub fn reset(&mut self)
        ensures
            final(self).dice_left == NumberOfDice::Five,
            final(self).picked@ == Seq::<Die>::empty(),
            final(self).rolled@ == Seq::<Die>::empty(),
            final(self).small_rng == old(self).small_rng,
            final(self).wf(),
    {
        self.dice_left = NumberOfDice::Five;
        self.picked = Dice::empty();
        self.rolled = Dice::empty();
    }

    /// Whether `picked` holds more dice than were put aside before the round.
    fn did_new_pick(&self, picked: &Dice) -> (grew: bool)
        ensures
            grew == (self.dice_left.count() > left_after(picked@)),
    {
        self.dice_left.as_u8() > dice_left(picked).as_u8()
    }

    /// The least value worth picking from `rolled`, with `picked` put aside.
    fn pick_gte(&self, rolled: &Dice, picked: &Dice) -> (least: FaceValue)
        ensures
            least == threshold(picked@, rolled@, self.dice_left.count() > left_after(picked@)),
    {
        if can_win(picked) && (has_six(rolled) || self.did_new_pick(picked)) {
            FaceValue::Six
        } else {
            let dice_left = dice_left(picked);
            if dice_left.as_u8() <= 2 || count_reaching(rolled, FaceValue::Five) >= 2
                || count_reaching(rolled, FaceValue::Four) >= 3 {
                FaceValue::Four
            } else {
                FaceValue::Five
            }
        }
    }

    /// Plays one round with the dice in `rolled`, which must be as many as are
    /// left to roll. With no dice left nothing happens.
    pub fn take_turn(&mut self, rolled: Dice)
        requires
            old(self).wf(),
            rolled@.len() == old(self).dice_left.count(),
        ensures
            final(self).small_rng == old(self).small_rng,
            old(self).dice_left == NumberOfDice::Zero ==> *final(self) == *old(self),
            old(self).dice_left != NumberOfDice::Zero ==> {
                &&& final(self).picked@ == round_picked(old(self).picked@, rolled@)
                &&& final(self).rolled@ == rolled@
                &&& final(self).dice_left.count() == left_after(final(self).picked@)
                &&& final(self).picked@.len() > old(self).picked@.len()
                &&& final(self).wf()
            },
    {
        if self.dice_left == NumberOfDice::Zero {
            return ;
        }
        let ghost before = self.picked@;
        let ghost table = rolled@;
        let mut rest = Dice::empty();
        let mut i: usize = 0;
        while i < rolled.dice.len()
            invariant
                i <= rolled@.len(),
                rest@ == rolled@.take(i as int),
            decreases rolled@.len() - i,
        {
            rest.push(rolled.dice[i]);
            proof {
                assert(rolled@.take(i + 1) == rolled@.take(i as int).push(rolled@[i as int]));
            }
            i = i + 1;
        }
        proof {
            assert(rolled@.take(i as int) == rolled@);
        }

        let mut picked = Dice::empty();
        picked.append(&mut self.picked);
        proof {
            assert(picked@ == before);
        }

        if !has_four(&picked) {
            let is_four = |value: FaceValue| -> (yes: bool)
                ensures
                    yes == (value == FaceValue::Four),
                { value == FaceValue::Four };
            let ghost whole = rest@;
            let mut fours = rest.pick(is_four, Some(1));
            proof {
                let answers = choose|answers: Seq<bool>|
                    {
                        &&& #[trigger] decided(is_four, whole, answers)
                        &&& fours@ == removed(whole, answers, Some(1usize))
                        &&& rest@ == kept(whole, answers, Some(1usize))
                    };
                assert(answers =~= shows(whole, FaceValue::Four));
            }
            picked.append(&mut fours);
        }
        let ghost with_four = picked@;
        let ghost rest_four = rest@;
        if !has_two(&picked) {
            let is_two = |value: FaceValue| -> (yes: bool)
                ensures
                    yes == (value == FaceValue::Two),
                { value == FaceValue::Two };
            let ghost whole = rest@;
            let mut twos = rest.pick(is_two, Some(1));
            proof {
                let answers = choose|answers: Seq<bool>|
                    {
                        &&& #[trigger] decided(is_two, whole, answers)
                        &&& twos@ == removed(whole, answers, Some(1usize))
                        &&& rest@ == kept(whole, answers, Some(1usize))
                    };
                assert(answers =~= shows(whole, FaceValue::Two));
            }
            picked.append(&mut twos);
        }
        let ghost with_two = picked@;
        let ghost rest_two = rest@;
        proof {
            lemma_round_sizes(before, table);
            assert(with_four == with_first(before, table, FaceValue::Four));
            assert(rest_four == without_first(before, table, FaceValue::Four));
            assert(with_two == with_first(with_four, rest_four, FaceValue::Two));
            assert(rest_two == without_first(with_four, rest_four, FaceValue::Two));
        }

        let pick_gte = self.pick_gte(&rest, &picked);
        let reaching = |value: FaceValue| -> (yes: bool)
            ensures
                yes == (value.pips() >= pick_gte.pips()),
            { value.as_u8() >= pick_gte.as_u8() };
        let mut high = rest.pick(reaching, None);
        proof {
            let answers = choose|answers: Seq<bool>|
                {
                    &&& #[trigger] decided(reaching, rest_two, answers)
                    &&& high@ == removed(rest_two, answers, None)
                    &&& rest@ == kept(rest_two, answers, None)
                };
            assert(answers =~= reaches(rest_two, pick_gte));
        }
        picked.append(&mut high);

        // at least one die is picked in every round; while none is, all that
        // were rolled still lie on the table
        if !self.did_new_pick(&picked) {
            if let Some(die) = rest.max() {
                proof {
                    lemma_first_max_is_highest(rest@, die);
                }
                picked.push(die);
            }
        }
        self.dice_left = dice_left(&picked);
        self.picked = picked;
        self.rolled = rolled;
    }

    /// Rolls the dice that are left and plays the round with them. With no
    /// dice left nothing happens.
    pub fn roll(&mut self)
        requires
            old(self).wf(),
        ensures
            old(self).dice_left == NumberOfDice::Zero ==> *final(self) == *old(self),
            old(self).dice_left != NumberOfDice::Zero ==> {
                &&& final(self).rolled@.len() == old(self).dice_left.count()
                &&& final(self).picked@ == round_picked(old(self).picked@, final(self).rolled@)
                &&& final(self).dice_left.count() == left_after(final(self).picked@)
                &&& final(self).picked@.len() > old(self).picked@.len()
                &&& final(self).wf()
            },
    {
        if self.dice_left == NumberOfDice::Zero {
            return ;
        }
        let rolled = Dice::roll_with(&mut self.small_rng, self.dice_left.as_u8() as u32);
        self.take_turn(rolled);
    }

    /// The score of the picked dice.
    pub fn score(&self) -> (score: i8)
        requires
            self.wf(),
        ensures
            score == score_of(self.picked@),
    {
        if has_fish(&self.picked) {
            return -1;
        }
        let ghost all = self.picked@;
        let mut sum: u8 = 0;
        let mut i: usize = 0;
        while i < self.picked.dice.len()
            invariant
                self.picked@ == all,
                all.len() <= 5,
                i <= all.len(),
                sum == total(all.take(i as int)),
                sum <= 6 * i,
            decreases all.len() - i,
        {
            proof {
                assert(all.take(i + 1).drop_last() == all.take(i as int));
            }
            sum = sum + self.picked.dice[i].value.as_u8();
            i = i + 1;
        }
        proof {
            assert(all.take(i as int) == all);
        }
        (sum as i8) - 6
    }

    /// Whether the picked dice lack a four or a two.
    pub fn has_fish(&self) -> (fish: bool)
        ensures
            fish == is_fish(self.picked@),
    {
        has_fish(&self.picked)
    }

    /// Whether the picked dice score 18.
    pub fn has_won(&self) -> (won: bool)
        requires
            self.wf(),
        ensures
            won == (score_of(self.picked@) == 18),
    {
        self.score() == 18
    }
}

} // verus!

