//! An ordered set of dice: rolling, picking, and the highest die.

use rand::rngs::SmallRng;
use vstd::prelude::*;

use crate::die::die_drawn;
use crate::die::Die;
use crate::die::FaceValue;
use crate::frame::Area;
use crate::frame::DisplayFrame;

verus! {

/// Dice in the order in which they were rolled or added.
#[derive(Debug)]
pub struct Dice {
    pub dice: Vec<Die>,
}

impl View for Dice {
    type V = Seq<Die>;

    open spec fn view(&self) -> Seq<Die> {
        self.dice@
    }
}

/// How many of the decisions say "pick".
pub open spec fn hits(decisions: Seq<bool>) -> nat
    decreases decisions.len(),
{
    if decisions.len() == 0 {
        0
    } else {
        hits(decisions.drop_last()) + if decisions.last() {
            1nat
        } else {
            0nat
        }
    }
}

/// Whether the die at `i` leaves the set: it was decided for, and fewer than
/// `limit` dice before it were decided for. Without a limit every die that
/// was decided for leaves.
pub open spec fn leaves(decisions: Seq<bool>, limit: Option<usize>, i: int) -> bool {
    &&& decisions[i]
    &&& limit matches Some(m) ==> hits(decisions.take(i)) < m
}

/// The dice that leave, in their old order.
pub open spec fn removed(dice: Seq<Die>, decisions: Seq<bool>, limit: Option<usize>) -> Seq<Die>
    decreases dice.len(),
{
    if dice.len() == 0 {
        Seq::empty()
    } else {
        let before = removed(dice.drop_last(), decisions, limit);
        if leaves(decisions, limit, dice.len() - 1) {
            before.push(dice.last())
        } else {
            before
        }
    }
}

/// The dice that stay, in their old order.
pub open spec fn kept(dice: Seq<Die>, decisions: Seq<bool>, limit: Option<usize>) -> Seq<Die>
    decreases dice.len(),
{
    if dice.len() == 0 {
        Seq::empty()
    } else {
        let before = kept(dice.drop_last(), decisions, limit);
        if leaves(decisions, limit, dice.len() - 1) {
            before
        } else {
            before.push(dice.last())
        }
    }
}

/// `decisions` holds, die by die, an answer that `decide` gives for that
/// die's value.
pub open spec fn decided<F: Fn(FaceValue) -> bool>(
    decide: F,
    dice: Seq<Die>,
    decisions: Seq<bool>,
) -> bool {
    &&& decisions.len() == dice.len()
    &&& forall|i: int|
        0 <= i < dice.len() ==> call_ensures(decide, (dice[i].value,), #[trigger] decisions[i])
}

/// `i` is the place of the highest die, the first one where several tie.
pub open spec fn is_first_max(dice: Seq<Die>, i: int) -> bool {
    &&& 0 <= i < dice.len()
    &&& forall|j: int| 0 <= j < dice.len() ==> (#[trigger] dice[j]).value.pips() <= dice[i].value.pips()
    &&& forall|j: int| 0 <= j < i ==> (#[trigger] dice[j]).value.pips() < dice[i].value.pips()
}

/// The rows that `entries` cells need in `columns` columns.
pub open spec fn rows_for(entries: int, columns: int) -> int {
    (entries + columns - 1) / columns
}

/// The side of the largest square cells with which `entries` cells in
/// `columns` columns fit into `width` by `height`.
pub open spec fn cell_side(entries: int, width: int, height: int, columns: int) -> int {
    let across = width / columns;
    let down = height / rows_for(entries, columns);
    if across <= down {
        across
    } else {
        down
    }
}

/// The largest cell side that one of the first `upto` column counts gives.
pub open spec fn best_side(entries: int, width: int, height: int, upto: int) -> int
    decreases upto,
{
    if upto <= 0 {
        0
    } else {
        let before = best_side(entries, width, height, upto - 1);
        let here = cell_side(entries, width, height, upto);
        if here > before {
            here
        } else {
            before
        }
    }
}

/// The least of the first `upto` column counts that gives the largest cells;
/// one column where no count gives a cell at all.
pub open spec fn best_columns(entries: int, width: int, height: int, upto: int) -> int
    decreases upto,
{
    if upto <= 0 {
        1
    } else if cell_side(entries, width, height, upto) > best_side(entries, width, height, upto - 1) {
        upto
    } else {
        best_columns(entries, width, height, upto - 1)
    }
}

/// The grid for `entries` cells in `width` by `height`: columns, rows, and the
/// side of a cell.
pub open spec fn best_grid(entries: int, width: int, height: int) -> (int, int, int) {
    let columns = best_columns(entries, width, height, entries);
    (columns, rows_for(entries, columns), best_side(entries, width, height, entries))
}

/// The square of the cell with number `k`; the cells fill the grid column by
/// column, and the grid lies in the middle of `area`.
pub open spec fn cell_area(area: Area, grid: (int, int, int), k: int) -> Area {
    let (columns, rows, side) = grid;
    let left = side * (k / rows) + (area.width - side * columns) / 2;
    let top = side * (k % rows) + (area.height - side * rows) / 2;
    Area {
        left: (area.left + left) as u32,
        top: (area.top + top) as u32,
        width: side as u32,
        height: side as u32,
    }
}

/// The cells after the first `upto` dice are drawn into their cells of `area`.
pub open spec fn dice_drawn(cells: Seq<bool>, area: Area, dice: Seq<Die>, upto: int) -> Seq<bool>
    decreases upto,
{
    if upto <= 0 {
        cells
    } else {
        die_drawn(
            dice_drawn(cells, area, dice, upto - 1),
            cell_area(
                area,
                best_grid(dice.len() as int, area.width as int, area.height as int),
                upto - 1,
            ),
            dice[upto - 1].value,
        )
    }
}

/// No column count gives larger cells than the grid has, and no smaller count
/// gives cells as large.
pub proof fn lemma_best_grid(entries: int, width: int, height: int, upto: int)
    requires
        0 <= upto,
        0 <= width,
        0 <= height,
        1 <= entries,
    ensures
        0 <= best_side(entries, width, height, upto),
        1 <= best_columns(entries, width, height, upto),
        upto >= 1 ==> best_columns(entries, width, height, upto) <= upto,
        upto >= 1 ==> cell_side(
            entries,
            width,
            height,
            best_columns(entries, width, height, upto),
        ) == best_side(entries, width, height, upto),
        forall|columns: int|
            1 <= columns <= upto ==> #[trigger] cell_side(entries, width, height, columns)
                <= best_side(entries, width, height, upto),
        forall|columns: int|
            1 <= columns < best_columns(entries, width, height, upto) ==> #[trigger] cell_side(
                entries,
                width,
                height,
                columns,
            ) < best_side(entries, width, height, upto),
    decreases upto,
{
    if upto >= 1 {
        lemma_best_grid(entries, width, height, upto - 1);
        lemma_cell_side_bounds(entries, width, height, upto);
        if upto == 1 {
            assert(best_side(entries, width, height, 0) == 0);
        }
    }
}

/// A cell is never wider than its share of the width nor higher than its
/// share of the height.
pub proof fn lemma_cell_side_bounds(entries: int, width: int, height: int, columns: int)
    requires
        1 <= columns,
        1 <= entries,
        0 <= width,
        0 <= height,
    ensures
        1 <= rows_for(entries, columns) <= entries,
        entries <= columns * rows_for(entries, columns),
        0 <= cell_side(entries, width, height, columns),
        cell_side(entries, width, height, columns) * columns <= width,
        cell_side(entries, width, height, columns) * rows_for(entries, columns) <= height,
{
    let rows = rows_for(entries, columns);
    let side = cell_side(entries, width, height, columns);
    assert(1 <= rows <= entries && entries <= columns * rows) by (nonlinear_arith)
        requires
            rows == (entries + columns - 1) / columns,
            1 <= columns,
            1 <= entries,
    ;
    assert(0 <= side && side * columns <= width && side * rows <= height) by (nonlinear_arith)
        requires
            side <= width / columns,
            side <= height / rows,
            side == width / columns || side == height / rows,
            1 <= columns,
            1 <= rows,
            0 <= width,
            0 <= height,
    ;
}

/// Every cell of the grid lies within the area that the grid was made for.
pub proof fn lemma_cell_inside(area: Area, entries: int, k: int)
    requires
        area.inside_frame(),
        0 <= k < entries,
    ensures
        ({
            let grid = best_grid(entries, area.width as int, area.height as int);
            let cell = cell_area(area, grid, k);
            &&& cell.inside_frame()
            &&& cell.width == grid.2
            &&& 1 <= grid.1
            &&& area.left <= cell.left
            &&& area.top <= cell.top
            &&& cell.left + cell.width <= area.left + area.width
            &&& cell.top + cell.height <= area.top + area.height
            &&& cell.left == area.left + grid.2 * (k / grid.1) + (area.width - grid.2 * grid.0) / 2
            &&& cell.top == area.top + grid.2 * (k % grid.1) + (area.height - grid.2 * grid.1) / 2
        }),
{
    let width = area.width as int;
    let height = area.height as int;
    let (columns, rows, side) = best_grid(entries, width, height);
    lemma_best_grid(entries, width, height, entries);
    lemma_cell_side_bounds(entries, width, height, columns);
    let i = k / rows;
    let j = k % rows;
    assert(0 <= i < columns && 0 <= j < rows) by (nonlinear_arith)
        requires
            i == k / rows,
            j == k % rows,
            0 <= k < entries,
            entries <= columns * rows,
            1 <= rows,
            1 <= columns,
    ;
    assert(0 <= side * i && side * i + side <= side * columns && 0 <= side * j && side * j + side
        <= side * rows) by (nonlinear_arith)
        requires
            0 <= i < columns,
            0 <= j < rows,
            0 <= side,
    ;
}

/// Every die is in exactly one of the two parts.
pub proof fn lemma_partition_len(dice: Seq<Die>, decisions: Seq<bool>, limit: Option<usize>)
    ensures
        removed(dice, decisions, limit).len() + kept(dice, decisions, limit).len() == dice.len(),
    decreases dice.len(),
{
    if dice.len() > 0 {
        lemma_partition_len(dice.drop_last(), decisions, limit);
    }
}

/// No more dice leave than the limit allows, and no more than were decided for.
pub proof fn lemma_removed_len(dice: Seq<Die>, decisions: Seq<bool>, limit: Option<usize>)
    requires
        decisions.len() >= dice.len(),
    ensures
        removed(dice, decisions, limit).len() == match limit {
            Some(m) => if hits(decisions.take(dice.len() as int)) < m {
                hits(decisions.take(dice.len() as int))
            } else {
                m as nat
            },
            None => hits(decisions.take(dice.len() as int)),
        },
    decreases dice.len(),
{
    let n = dice.len() as int;
    if n > 0 {
        lemma_removed_len(dice.drop_last(), decisions, limit);
        assert(decisions.take(n).drop_last() == decisions.take(n - 1));
        assert(decisions.take(n).last() == decisions[n - 1]);
    } else {
        assert(decisions.take(0).len() == 0);
    }
}

/// Decisions about later dice do not change what happens to earlier ones.
pub proof fn lemma_same_prefix(
    dice: Seq<Die>,
    first: Seq<bool>,
    second: Seq<bool>,
    limit: Option<usize>,
)
    requires
        dice.len() <= first.len() <= second.len(),
        second.take(first.len() as int) == first,
    ensures
        removed(dice, first, limit) == removed(dice, second, limit),
        kept(dice, first, limit) == kept(dice, second, limit),
    decreases dice.len(),
{
    if dice.len() > 0 {
        let last = dice.len() - 1;
        lemma_same_prefix(dice.drop_last(), first, second, limit);
        assert(second[last] == second.take(first.len() as int)[last]);
        assert(first.take(last) == second.take(last)) by {
            assert forall|k: int| 0 <= k < last implies first.take(last)[k] == second.take(last)[k] by {
                assert(second[k] == second.take(first.len() as int)[k]);
            }
        }
    }
}

impl Dice {
    /// A set without dice.
    pub fn empty() -> (dice: Dice)
        ensures
            dice@ == Seq::<Die>::empty(),
    {
        Dice { dice: Vec::new() }
    }

    /// Rolls `number_of_dice` dice, asking `face_value` once for each.
    pub fn roll<F>(face_value: F, number_of_dice: u32) -> (dice: Dice) where
        F: Fn() -> FaceValue,
        requires
            call_requires(face_value, ()),
        ensures
            dice@.len() == number_of_dice,
            forall|i: int|
                0 <= i < dice@.len() ==> call_ensures(face_value, (), (#[trigger] dice@[i]).value),
    {
        let mut dice: Vec<Die> = Vec::new();
        let mut rolled: u32 = 0;
        while rolled < number_of_dice
            invariant
                rolled <= number_of_dice,
                dice@.len() == rolled,
                call_requires(face_value, ()),
                forall|i: int|
                    0 <= i < dice@.len() ==> call_ensures(
                        face_value,
                        (),
                        (#[trigger] dice@[i]).value,
                    ),
            decreases number_of_dice - rolled,
        {
            let die = Die::new(face_value());
            dice.push(die);
            rolled = rolled + 1;
        }
        Dice { dice }
    }

    /// Rolls `number_of_dice` dice with `rng`.
    pub fn roll_with(rng: &mut SmallRng, number_of_dice: u32) -> (dice: Dice)
        ensures
            dice@.len() == number_of_dice,
    {
        let mut dice: Vec<Die> = Vec::new();
        let mut rolled: u32 = 0;
        while rolled < number_of_dice
            invariant
                rolled <= number_of_dice,
                dice@.len() == rolled,
            decreases number_of_dice - rolled,
        {
            let die = Die::new(FaceValue::sample(rng));
            dice.push(die);
            rolled = rolled + 1;
        }
        Dice { dice }
    }

    /// The number of dice.
    pub fn len(&self) -> (len: usize)
        ensures
            len == self@.len(),
    {
        self.dice.len()
    }

    /// Whether there is no die.
    pub fn is_empty(&self) -> (empty: bool)
        ensures
            empty == (self@.len() == 0),
    {
        self.dice.len() == 0
    }

    /// Adds `die` at the end.
    pub fn push(&mut self, die: Die)
        ensures
            final(self)@ == old(self)@.push(die),
    {
        self.dice.push(die);
    }

    /// Splits the set: scanning in order, a die leaves when `decide` says so
    /// for its value and fewer than `max_hits` dice have left before it
    /// (`None`: no limit). Returns the dice that left; the others stay.
    pub fn pick<F>(&mut self, decide: F, max_hits: Option<usize>) -> (picked: Dice) where
        F: Fn(FaceValue) -> bool,
        requires
            forall|value: FaceValue| call_requires(decide, (value,)),
        ensures
            exists|decisions: Seq<bool>|
                {
                    &&& #[trigger] decided(decide, old(self)@, decisions)
                    &&& picked@ == removed(old(self)@, decisions, max_hits)
                    &&& final(self)@ == kept(old(self)@, decisions, max_hits)
                },
    {
        let ghost all = self@;
        let ghost mut decisions: Seq<bool> = Seq::empty();
        let mut pick_counter: usize = 0;
        let mut keep: Vec<Die> = Vec::new();
        let mut picked: Vec<Die> = Vec::new();
        let mut i: usize = 0;
        while i < self.dice.len()
            invariant
                self@ == all,
                i <= all.len(),
                forall|value: FaceValue| call_requires(decide, (value,)),
                decided(decide, all.take(i as int), decisions),
                picked@ == removed(all.take(i as int), decisions, max_hits),
                keep@ == kept(all.take(i as int), decisions, max_hits),
                pick_counter == picked@.len(),
                pick_counter + keep@.len() == i,
            decreases all.len() - i,
        {
            let die = self.dice[i];
            let wanted = decide(die.value);
            let within_limit = match max_hits {
                Some(limit) => pick_counter < limit,
                None => true,
            };
            proof {
                let before = decisions;
                decisions = decisions.push(wanted);
                let part = all.take(i as int);
                let next = all.take(i + 1);
                assert(next.drop_last() == part);
                assert(next.last() == die);
                assert(decisions.take(i as int) == before);
                lemma_removed_len(part, before, max_hits);
                assert(before.take(i as int) == before);
                lemma_same_prefix(part, before, decisions, max_hits);
                assert(leaves(decisions, max_hits, i as int) == (wanted && within_limit));
                assert forall|k: int| 0 <= k < next.len() implies call_ensures(
                    decide,
                    (next[k].value,),
                    #[trigger] decisions[k],
                ) by {
                    if k < i {
                        assert(part[k] == next[k]);
                        assert(before[k] == decisions[k]);
                    }
                }
            }
            if wanted && within_limit {
                picked.push(die);
                pick_counter = pick_counter + 1;
            } else {
                keep.push(die);
            }
            i = i + 1;
        }
        proof {
            assert(all.take(i as int) == all);
        }
        self.dice = keep;
        Dice { dice: picked }
    }

    /// The highest die, the first of them in the set's order; `None` for an
    /// empty set.
    pub fn max(&self) -> (highest: Option<Die>)
        ensures
            match highest {
                None => self@.len() == 0,
                Some(die) => exists|i: int| #[trigger] is_first_max(self@, i) && die == self@[i],
            },
    {
        if self.dice.len() == 0 {
            return None;
        }
        let mut best: usize = 0;
        let mut i: usize = 1;
        while i < self.dice.len()
            invariant
                1 <= i <= self@.len(),
                is_first_max(self@.take(i as int), best as int),
            decreases self@.len() - i,
        {
            if self.dice[i].value.as_u8() > self.dice[best].value.as_u8() {
                best = i;
            }
            i = i + 1;
        }
        proof {
            assert(self@.take(i as int) == self@);
        }
        Some(self.dice[best])
    }

    /// Draws the dice into `area`: in a grid of square cells, as large as
    /// they fit, filled column by column.
    pub fn draw(&self, frame: &mut DisplayFrame, area: Area)
        requires
            area.inside_frame(),
            self@.len() <= u32::MAX,
            self@.len() > 0 ==> best_grid(
                self@.len() as int,
                area.width as int,
                area.height as int,
            ).2 >= 1,
        ensures
            final(frame)@ == dice_drawn(old(frame)@, area, self@, self@.len() as int),
    {
        let number_of_dice = self.dice.len() as u32;
        let (colums, rows, sub_target_length) = find_best_grid(
            number_of_dice,
            area.width,
            area.height,
        );
        let ghost grid = best_grid(self@.len() as int, area.width as int, area.height as int);
        if number_of_dice == 0 {
            return ;
        }
        proof {
            lemma_cell_inside(area, self@.len() as int, 0);
            lemma_best_grid(self@.len() as int, area.width as int, area.height as int, self@.len() as int);
            lemma_cell_side_bounds(self@.len() as int, area.width as int, area.height as int, grid.0);
        }
        let rows_excess_space = (area.height - sub_target_length * rows) / 2;
        let columns_excess_space = (area.width - sub_target_length * colums) / 2;

        let mut counter: u32 = 0;
        while counter < number_of_dice
            invariant
                counter <= number_of_dice,
                number_of_dice == self@.len(),
                area.inside_frame(),
                grid == best_grid(self@.len() as int, area.width as int, area.height as int),
                grid == (colums as int, rows as int, sub_target_length as int),
                sub_target_length >= 1,
                rows >= 1,
                rows_excess_space == (area.height - sub_target_length * rows) / 2,
                columns_excess_space == (area.width - sub_target_length * colums) / 2,
                frame@ == dice_drawn(old(frame)@, area, self@, counter as int),
            decreases number_of_dice - counter,
        {
            proof {
                lemma_cell_inside(area, self@.len() as int, counter as int);
            }
            let i = counter / rows;
            let j = counter % rows;
            let x = sub_target_length * i + columns_excess_space;
            let y = sub_target_length * j + rows_excess_space;
            let cell = Area {
                left: area.left + x,
                top: area.top + y,
                width: sub_target_length,
                height: sub_target_length,
            };
            let mut die = self.dice[counter as usize];
            die.draw(frame, cell);
            counter = counter + 1;
        }
    }

    /// Moves all of `dice` to the end of this set and leaves `dice` empty.
    pub fn append(&mut self, dice: &mut Dice)
        ensures
            final(self)@ == old(self)@ + old(dice)@,
            final(dice)@ == Seq::<Die>::empty(),
    {
        self.dice.append(&mut dice.dice);
    }
}

} // verus!

verus! {

/// The grid in which `number_of_entries` square cells are largest within
/// `width` by `height`: columns, rows, and the side of a cell. Of several
/// grids with cells of one size the one with the fewest columns is taken; a
/// single column where no cell fits.
pub fn find_best_grid(number_of_entries: u32, width: u32, height: u32) -> (grid: (u32, u32, u32))
    ensures
        (grid.0 as int, grid.1 as int, grid.2 as int) == best_grid(
            number_of_entries as int,
            width as int,
            height as int,
        ),
{
    let mut best_size: u32 = 0;
    let mut best_colums: u32 = 1;
    let mut best_rows: u32 = number_of_entries;

    let mut colums: u64 = 1;
    while colums <= number_of_entries as u64
        invariant
            1 <= colums <= number_of_entries + 1,
            best_size == best_side(
                number_of_entries as int,
                width as int,
                height as int,
                colums - 1,
            ),
            best_colums == best_columns(
                number_of_entries as int,
                width as int,
                height as int,
                colums - 1,
            ),
            best_rows == rows_for(number_of_entries as int, best_colums as int),
        decreases number_of_entries + 1 - colums,
    {
        proof {
            lemma_cell_side_bounds(
                number_of_entries as int,
                width as int,
                height as int,
                colums as int,
            );
        }
        let rows: u64 = (number_of_entries as u64 + colums - 1) / colums;
        let max_width_size: u64 = width as u64 / colums;
        let max_height_size: u64 = height as u64 / rows;
        let size: u64 = if max_width_size <= max_height_size {
            max_width_size
        } else {
            max_height_size
        };

        if size > best_size as u64 {
            best_size = size as u32;
            best_colums = colums as u32;
            best_rows = rows as u32;
        }
        colums = colums + 1;
    }

    (best_colums, best_rows, best_size)
}

} // verus!

verus! {

impl From<Vec<Die>> for Dice {
    /// The dice of `value`, in their order.
    fn from(value: Vec<Die>) -> (dice: Dice) {
        Dice { dice: value }
    }
}

impl vstd::std_specs::convert::FromSpecImpl<Vec<Die>> for Dice {
    open spec fn obeys_from_spec() -> bool {
        true
    }

    open spec fn from_spec(value: Vec<Die>) -> Dice {
        Dice { dice: value }
    }
}

} // verus!
