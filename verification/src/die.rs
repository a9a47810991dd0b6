//! A single die and the value it shows.

use rand::rngs::SmallRng;
use rand::Rng;
use vstd::prelude::*;

use crate::frame::circle_filled;
use crate::frame::fill_circle;
use crate::frame::rounded_square_stroked;
use crate::frame::stroke_rounded_square;
use crate::frame::Area;
use crate::frame::DisplayFrame;
use crate::frame::FRAME_WIDTH;
use crate::utils::nearest_odd_percent;
use crate::utils::percent_of;
use crate::utils::percent_of_to_nearest_odd;
use crate::utils::rounded_percent;

verus! {

/// The generator that the dice are rolled with. Nothing is known of its state.
#[verifier::external_type_specification]
#[verifier::external_body]
pub struct ExSmallRng(SmallRng);

/// `rand::Rng::random_range` on the half-open range from `low` to `high`,
/// which must not be empty: the number that comes back lies in the range.
/// Which one it is is not stated.
#[verifier::external_body]
pub(crate) fn random_in_range(rng: &mut SmallRng, low: u8, high: u8) -> (number: u8)
    requires
        low < high,
    ensures
        low <= number < high,
{
    rng.random_range(low..high)
}

/// The value a die shows, `One` to `Six`.
#[derive(PartialEq, Eq, Structural, PartialOrd, Ord, Clone, Copy, Debug, Hash)]
pub enum FaceValue {
    One,
    Two,
    Three,
    Four,
    Five,
    Six,
}

impl FaceValue {
    /// The number of pips of the face, 1 to 6.
    pub open spec fn pips(self) -> int {
        match self {
            FaceValue::One => 1,
            FaceValue::Two => 2,
            FaceValue::Three => 3,
            FaceValue::Four => 4,
            FaceValue::Five => 5,
            FaceValue::Six => 6,
        }
    }

    /// The face with `pips` pips.
    pub fn from_pips(pips: u8) -> (face: FaceValue)
        requires
            1 <= pips <= 6,
        ensures
            face.pips() == pips,
    {
        if pips == 1 {
            FaceValue::One
        } else if pips == 2 {
            FaceValue::Two
        } else if pips == 3 {
            FaceValue::Three
        } else if pips == 4 {
            FaceValue::Four
        } else if pips == 5 {
            FaceValue::Five
        } else {
            FaceValue::Six
        }
    }

    /// Rolls one die with `rng`. Every face can come up.
    pub fn sample(rng: &mut SmallRng) -> (face: FaceValue) {
        let pips = random_in_range(rng, 1, 7);
        FaceValue::from_pips(pips)
    }

    /// The number of pips of the face.
    pub fn as_u8(&self) -> (pips: u8)
        ensures
            pips == self.pips(),
    {
        match self {
            FaceValue::One => 1,
            FaceValue::Two => 2,
            FaceValue::Three => 3,
            FaceValue::Four => 4,
            FaceValue::Five => 5,
            FaceValue::Six => 6,
        }
    }
}

/// One die: nothing but its face value.
#[derive(PartialEq, Eq, Structural, PartialOrd, Ord, Clone, Copy, Debug, Hash)]
pub struct Die {
    pub value: FaceValue,
}

impl Die {
    /// A die that shows `value`.
    pub fn new(value: FaceValue) -> (die: Die)
        ensures
            die.value == value,
    {
        Die { value }
    }

    /// Draws the die into the square that `area` spans with its width: the
    /// face with a padding around it, the pips of the value, and the outline.
    pub fn draw(&mut self, frame: &mut DisplayFrame, area: Area)
        requires
            area.inside_frame(),
            area.width >= 1,
        ensures
            *final(self) == *old(self),
            final(frame)@ == die_drawn(old(frame)@, area, old(self).value),
    {
        let target_side_length = area.width;
        let padding = percent_of(target_side_length, PADDING_IN_PERCENT);
        let face_side_length = target_side_length - 2 * padding;
        let left = (area.left + padding) as i32;
        let top = (area.top + padding) as i32;
        match self.value {
            FaceValue::One => draw_one(frame, left, top, face_side_length),
            FaceValue::Two => draw_two(frame, left, top, face_side_length),
            FaceValue::Three => draw_three(frame, left, top, face_side_length),
            FaceValue::Four => draw_four(frame, left, top, face_side_length),
            FaceValue::Five => draw_five(frame, left, top, face_side_length),
            FaceValue::Six => draw_six(frame, left, top, face_side_length),
        }
    }
}

/// The padding around the face, in hundredths of the die's side.
pub const PADDING_IN_PERCENT: u32 = 3;

/// The radius of the face's corners, in hundredths of its side.
pub const CORNER_RADIUS_IN_PERCENT: u32 = 6;

/// The diameter of a pip, in hundredths of the face's side.
pub const PIP_SIZE_IN_PERCENT: u32 = 13;

/// The side of the face of a die that is `side` cells wide.
pub open spec fn face_side(side: int) -> int {
    side - 2 * rounded_percent(side, PADDING_IN_PERCENT as int)
}

/// The diameter of the pips on a face of `face` cells.
pub open spec fn pip_size(face: int) -> int {
    nearest_odd_percent(face, PIP_SIZE_IN_PERCENT as int)
}

/// The middle of a face of `face` cells.
pub open spec fn face_middle(face: int) -> int {
    (face - 1) / 2 + 1
}

/// Where a pip in the middle column or row starts.
pub open spec fn center_start(face: int) -> int {
    face_middle(face) - (pip_size(face) - 1) / 2
}

/// Where a pip in the left column or the upper row starts.
pub open spec fn low_start(face: int) -> int {
    face_middle(face) - (face_middle(face) - 1) / 2 - (pip_size(face) - 1) / 2
}

/// Where a pip in the right column or the lower row starts.
pub open spec fn high_start(face: int) -> int {
    face_middle(face) + (face_middle(face) - 1) / 2 - (pip_size(face) - 1) / 2
}

/// The cells after the pip whose box starts `x` cells right of `left` and `y`
/// cells below `top` is drawn.
pub open spec fn pip_drawn(cells: Seq<bool>, left: int, top: int, face: int, x: int, y: int) -> Seq<
    bool,
> {
    circle_filled(cells, left + x, top + y, pip_size(face))
}

/// The cells after the outline of the face is drawn.
pub open spec fn outline_drawn(cells: Seq<bool>, left: int, top: int, face: int) -> Seq<bool> {
    rounded_square_stroked(
        cells,
        left,
        top,
        face,
        rounded_percent(face, CORNER_RADIUS_IN_PERCENT as int),
    )
}

/// The cells after the pips of `value` are drawn, in the order in which they
/// are drawn: the middle pip first, then the corners from the upper left
/// clockwise, then the two at the sides.
pub open spec fn pips_drawn(cells: Seq<bool>, left: int, top: int, face: int, value: FaceValue) -> Seq<
    bool,
> {
    let c = center_start(face);
    let lo = low_start(face);
    let hi = high_start(face);
    match value {
        FaceValue::One => pip_drawn(cells, left, top, face, c, c),
        FaceValue::Two => pip_drawn(pip_drawn(cells, left, top, face, lo, lo), left, top, face, hi, hi),
        FaceValue::Three => pip_drawn(
            pip_drawn(pip_drawn(cells, left, top, face, c, c), left, top, face, lo, lo),
            left,
            top,
            face,
            hi,
            hi,
        ),
        FaceValue::Four => four_corners_drawn(cells, left, top, face),
        FaceValue::Five => four_corners_drawn(
            pip_drawn(cells, left, top, face, c, c),
            left,
            top,
            face,
        ),
        FaceValue::Six => pip_drawn(
            pip_drawn(four_corners_drawn(cells, left, top, face), left, top, face, lo, c),
            left,
            top,
            face,
            hi,
            c,
        ),
    }
}

/// The cells after the four pips in the corners are drawn: upper left, upper
/// right, lower right, lower left.
pub open spec fn four_corners_drawn(cells: Seq<bool>, left: int, top: int, face: int) -> Seq<bool> {
    let lo = low_start(face);
    let hi = high_start(face);
    pip_drawn(
        pip_drawn(
            pip_drawn(pip_drawn(cells, left, top, face, lo, lo), left, top, face, hi, lo),
            left,
            top,
            face,
            hi,
            hi,
        ),
        left,
        top,
        face,
        lo,
        hi,
    )
}

/// The cells after a die that shows `value` is drawn into `area`.
pub open spec fn die_drawn(cells: Seq<bool>, area: Area, value: FaceValue) -> Seq<bool> {
    let padding = rounded_percent(area.width as int, PADDING_IN_PERCENT as int);
    let face = face_side(area.width as int);
    face_drawn(cells, area.left + padding, area.top + padding, face, value)
}

/// The outline of a die's face.
struct Face {
    size: u32,
}

impl Face {
    fn new(size: u32) -> (face: Face)
        ensures
            face.size == size,
    {
        Face { size }
    }

    fn draw(&self, frame: &mut DisplayFrame, left: i32, top: i32)
        requires
            0 <= left <= 2 * FRAME_WIDTH,
            0 <= top <= 2 * FRAME_WIDTH,
            self.size <= FRAME_WIDTH,
        ensures
            final(frame)@ == outline_drawn(old(frame)@, left as int, top as int, self.size as int),
    {
        let radius = percent_of(self.size, CORNER_RADIUS_IN_PERCENT);
        stroke_rounded_square(frame, left, top, self.size, radius);
    }
}

/// Where the pips of a face start, column by column or row by row.
struct PipPoint {
    starts_at_center: i32,
    starts_at_upper_or_left: i32,
    starts_at_bottom_or_right: i32,
}

impl PipPoint {
    /// The three places fit a face of `face` cells.
    spec fn fits(&self, face: int) -> bool {
        &&& self.starts_at_center == center_start(face)
        &&& self.starts_at_upper_or_left == low_start(face)
        &&& self.starts_at_bottom_or_right == high_start(face)
    }

    fn new(face_side_length: u32, pip_size: u32) -> (point: PipPoint)
        requires
            1 <= face_side_length <= FRAME_WIDTH,
            pip_size == self::pip_size(face_side_length as int),
        ensures
            point.fits(face_side_length as int),
            0 <= point.starts_at_upper_or_left <= point.starts_at_center
                <= point.starts_at_bottom_or_right <= face_side_length,
    {
        let face_middle = (face_side_length - 1) / 2 + 1;
        let face_middle_offset = (face_middle - 1) / 2;

        let starts_at_center = (face_middle - (pip_size - 1) / 2) as i32;
        let starts_at_upper_or_left = (face_middle - face_middle_offset - (pip_size - 1) / 2) as i32;
        let starts_at_bottom_or_right = (face_middle + face_middle_offset - (pip_size - 1)
            / 2) as i32;

        PipPoint { starts_at_center, starts_at_upper_or_left, starts_at_bottom_or_right }
    }

    fn center_pip_point(&self) -> (at: (i32, i32))
        ensures
            at == (self.starts_at_center, self.starts_at_center),
    {
        (self.starts_at_center, self.starts_at_center)
    }

    fn upper_left_pip_point(&self) -> (at: (i32, i32))
        ensures
            at == (self.starts_at_upper_or_left, self.starts_at_upper_or_left),
    {
        (self.starts_at_upper_or_left, self.starts_at_upper_or_left)
    }

    fn bottom_right_pip_point(&self) -> (at: (i32, i32))
        ensures
            at == (self.starts_at_bottom_or_right, self.starts_at_bottom_or_right),
    {
        (self.starts_at_bottom_or_right, self.starts_at_bottom_or_right)
    }

    fn bottom_left_pip_point(&self) -> (at: (i32, i32))
        ensures
            at == (self.starts_at_upper_or_left, self.starts_at_bottom_or_right),
    {
        (self.starts_at_upper_or_left, self.starts_at_bottom_or_right)
    }

    fn upper_right_pip_point(&self) -> (at: (i32, i32))
        ensures
            at == (self.starts_at_bottom_or_right, self.starts_at_upper_or_left),
    {
        (self.starts_at_bottom_or_right, self.starts_at_upper_or_left)
    }

    fn center_left_pip_point(&self) -> (at: (i32, i32))
        ensures
            at == (self.starts_at_upper_or_left, self.starts_at_center),
    {
        (self.starts_at_upper_or_left, self.starts_at_center)
    }

    fn center_right_pip_point(&self) -> (at: (i32, i32))
        ensures
            at == (self.starts_at_bottom_or_right, self.starts_at_center),
    {
        (self.starts_at_bottom_or_right, self.starts_at_center)
    }
}

/// The pips of one face: their size and where they start.
struct Pip {
    size: u32,
    point: PipPoint,
}

impl Pip {
    /// The pips fit a face of `face` cells.
    spec fn fits(&self, face: int) -> bool {
        &&& 1 <= face <= FRAME_WIDTH
        &&& self.size == pip_size(face)
        &&& self.size <= FRAME_WIDTH
        &&& self.point.fits(face)
        &&& 0 <= low_start(face) <= center_start(face) <= high_start(face) <= face
    }

    fn new(face_side_length: u32) -> (pip: Pip)
        requires
            1 <= face_side_length <= FRAME_WIDTH,
        ensures
            pip.fits(face_side_length as int),
    {
        let size = percent_of_to_nearest_odd(face_side_length, PIP_SIZE_IN_PERCENT);
        let point = PipPoint::new(face_side_length, size);
        Pip { size, point }
    }

    fn draw(&self, frame: &mut DisplayFrame, left: i32, top: i32, point: (i32, i32))
        requires
            0 <= left <= FRAME_WIDTH,
            0 <= top <= FRAME_WIDTH,
            0 <= point.0 <= FRAME_WIDTH,
            0 <= point.1 <= FRAME_WIDTH,
            self.size <= FRAME_WIDTH,
        ensures
            final(frame)@ == circle_filled(
                old(frame)@,
                left + point.0,
                top + point.1,
                self.size as int,
            ),
    {
        fill_circle(frame, left + point.0, top + point.1, self.size);
    }

    fn draw_center_pip(&self, frame: &mut DisplayFrame, left: i32, top: i32, Ghost(face): Ghost<int>)
        requires
            self.fits(face),
            0 <= left <= FRAME_WIDTH,
            0 <= top <= FRAME_WIDTH,
        ensures
            final(frame)@ == pip_drawn(
                old(frame)@,
                left as int,
                top as int,
                face,
                center_start(face),
                center_start(face),
            ),
    {
        self.draw(frame, left, top, self.point.center_pip_point());
    }

    fn draw_upper_left_pip(
        &self,
        frame: &mut DisplayFrame,
        left: i32,
        top: i32,
        Ghost(face): Ghost<int>,
    )
        requires
            self.fits(face),
            0 <= left <= FRAME_WIDTH,
            0 <= top <= FRAME_WIDTH,
        ensures
            final(frame)@ == pip_drawn(
                old(frame)@,
                left as int,
                top as int,
                face,
                low_start(face),
                low_start(face),
            ),
    {
        self.draw(frame, left, top, self.point.upper_left_pip_point());
    }

    fn draw_bottom_right_pip(
        &self,
        frame: &mut DisplayFrame,
        left: i32,
        top: i32,
        Ghost(face): Ghost<int>,
    )
        requires
            self.fits(face),
            0 <= left <= FRAME_WIDTH,
            0 <= top <= FRAME_WIDTH,
        ensures
            final(frame)@ == pip_drawn(
                old(frame)@,
                left as int,
                top as int,
                face,
                high_start(face),
                high_start(face),
            ),
    {
        self.draw(frame, left, top, self.point.bottom_right_pip_point());
    }

    fn draw_bottom_left_pip(
        &self,
        frame: &mut DisplayFrame,
        left: i32,
        top: i32,
        Ghost(face): Ghost<int>,
    )
        requires
            self.fits(face),
            0 <= left <= FRAME_WIDTH,
            0 <= top <= FRAME_WIDTH,
        ensures
            final(frame)@ == pip_drawn(
                old(frame)@,
                left as int,
                top as int,
                face,
                low_start(face),
                high_start(face),
            ),
    {
        self.draw(frame, left, top, self.point.bottom_left_pip_point());
    }

    fn draw_upper_right_pip(
        &self,
        frame: &mut DisplayFrame,
        left: i32,
        top: i32,
        Ghost(face): Ghost<int>,
    )
        requires
            self.fits(face),
            0 <= left <= FRAME_WIDTH,
            0 <= top <= FRAME_WIDTH,
        ensures
            final(frame)@ == pip_drawn(
                old(frame)@,
                left as int,
                top as int,
                face,
                high_start(face),
                low_start(face),
            ),
    {
        self.draw(frame, left, top, self.point.upper_right_pip_point());
    }

    fn draw_center_left_pip(
        &self,
        frame: &mut DisplayFrame,
        left: i32,
        top: i32,
        Ghost(face): Ghost<int>,
    )
        requires
            self.fits(face),
            0 <= left <= FRAME_WIDTH,
            0 <= top <= FRAME_WIDTH,
        ensures
            final(frame)@ == pip_drawn(
                old(frame)@,
                left as int,
                top as int,
                face,
                low_start(face),
                center_start(face),
            ),
    {
        self.draw(frame, left, top, self.point.center_left_pip_point());
    }

    fn draw_center_right_pip(
        &self,
        frame: &mut DisplayFrame,
        left: i32,
        top: i32,
        Ghost(face): Ghost<int>,
    )
        requires
            self.fits(face),
            0 <= left <= FRAME_WIDTH,
            0 <= top <= FRAME_WIDTH,
        ensures
            final(frame)@ == pip_drawn(
                old(frame)@,
                left as int,
                top as int,
                face,
                high_start(face),
                center_start(face),
            ),
    {
        self.draw(frame, left, top, self.point.center_right_pip_point());
    }
}

/// The cells after a face with the pips of `value` and its outline is drawn
/// with its upper left corner at (`left`, `top`).
pub open spec fn face_drawn(
    cells: Seq<bool>,
    left: int,
    top: int,
    face: int,
    value: FaceValue,
) -> Seq<bool> {
    outline_drawn(pips_drawn(cells, left, top, face, value), left, top, face)
}

fn draw_one(frame: &mut DisplayFrame, left: i32, top: i32, side_length: u32)
    requires
        1 <= side_length <= FRAME_WIDTH,
        0 <= left <= FRAME_WIDTH,
        0 <= top <= FRAME_WIDTH,
    ensures
        final(frame)@ == face_drawn(
            old(frame)@,
            left as int,
            top as int,
            side_length as int,
            FaceValue::One,
        ),
{
    let pip = Pip::new(side_length);
    let ghost face = side_length as int;

    pip.draw_center_pip(frame, left, top, Ghost(face));

    let face = Face::new(side_length);
    face.draw(frame, left, top)
}

fn draw_two(frame: &mut DisplayFrame, left: i32, top: i32, side_length: u32)
    requires
        1 <= side_length <= FRAME_WIDTH,
        0 <= left <= FRAME_WIDTH,
        0 <= top <= FRAME_WIDTH,
    ensures
        final(frame)@ == face_drawn(
            old(frame)@,
            left as int,
            top as int,
            side_length as int,
            FaceValue::Two,
        ),
{
    let pip = Pip::new(side_length);
    let ghost face = side_length as int;

    pip.draw_upper_left_pip(frame, left, top, Ghost(face));
    pip.draw_bottom_right_pip(frame, left, top, Ghost(face));

    let face = Face::new(side_length);
    face.draw(frame, left, top)
}

fn draw_three(frame: &mut DisplayFrame, left: i32, top: i32, side_length: u32)
    requires
        1 <= side_length <= FRAME_WIDTH,
        0 <= left <= FRAME_WIDTH,
        0 <= top <= FRAME_WIDTH,
    ensures
        final(frame)@ == face_drawn(
            old(frame)@,
            left as int,
            top as int,
            side_length as int,
            FaceValue::Three,
        ),
{
    let pip = Pip::new(side_length);
    let ghost face = side_length as int;

    pip.draw_center_pip(frame, left, top, Ghost(face));
    pip.draw_upper_left_pip(frame, left, top, Ghost(face));
    pip.draw_bottom_right_pip(frame, left, top, Ghost(face));

    let face = Face::new(side_length);
    face.draw(frame, left, top)
}

fn draw_four(frame: &mut DisplayFrame, left: i32, top: i32, side_length: u32)
    requires
        1 <= side_length <= FRAME_WIDTH,
        0 <= left <= FRAME_WIDTH,
        0 <= top <= FRAME_WIDTH,
    ensures
        final(frame)@ == face_drawn(
            old(frame)@,
            left as int,
            top as int,
            side_length as int,
            FaceValue::Four,
        ),
{
    let pip = Pip::new(side_length);
    let ghost face = side_length as int;

    pip.draw_upper_left_pip(frame, left, top, Ghost(face));
    pip.draw_upper_right_pip(frame, left, top, Ghost(face));
    pip.draw_bottom_right_pip(frame, left, top, Ghost(face));
    pip.draw_bottom_left_pip(frame, left, top, Ghost(face));

    let face = Face::new(side_length);
    face.draw(frame, left, top)
}

fn draw_five(frame: &mut DisplayFrame, left: i32, top: i32, side_length: u32)
    requires
        1 <= side_length <= FRAME_WIDTH,
        0 <= left <= FRAME_WIDTH,
        0 <= top <= FRAME_WIDTH,
    ensures
        final(frame)@ == face_drawn(
            old(frame)@,
            left as int,
            top as int,
            side_length as int,
            FaceValue::Five,
        ),
{
    let pip = Pip::new(side_length);
    let ghost face = side_length as int;

    pip.draw_center_pip(frame, left, top, Ghost(face));
    pip.draw_upper_left_pip(frame, left, top, Ghost(face));
    pip.draw_upper_right_pip(frame, left, top, Ghost(face));
    pip.draw_bottom_right_pip(frame, left, top, Ghost(face));
    pip.draw_bottom_left_pip(frame, left, top, Ghost(face));

    let face = Face::new(side_length);
    face.draw(frame, left, top)
}

fn draw_six(frame: &mut DisplayFrame, left: i32, top: i32, side_length: u32)
    requires
        1 <= side_length <= FRAME_WIDTH,
        0 <= left <= FRAME_WIDTH,
        0 <= top <= FRAME_WIDTH,
    ensures
        final(frame)@ == face_drawn(
            old(frame)@,
            left as int,
            top as int,
            side_length as int,
            FaceValue::Six,
        ),
{
    let pip = Pip::new(side_length);
    let ghost face = side_length as int;

    pip.draw_upper_left_pip(frame, left, top, Ghost(face));
    pip.draw_upper_right_pip(frame, left, top, Ghost(face));
    pip.draw_bottom_right_pip(frame, left, top, Ghost(face));
    pip.draw_bottom_left_pip(frame, left, top, Ghost(face));
    pip.draw_center_left_pip(frame, left, top, Ghost(face));
    pip.draw_center_right_pip(frame, left, top, Ghost(face));

    let face = Face::new(side_length);
    face.draw(frame, left, top)
}

} // verus!
