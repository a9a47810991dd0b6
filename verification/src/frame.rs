//! The frame of the display, 128 by 64 cells that are on or off, and the
//! shapes that are drawn on it.

use embedded_graphics::pixelcolor::BinaryColor;
use embedded_graphics::prelude::Point;
use embedded_graphics::prelude::Primitive;
use embedded_graphics::prelude::Size;
use embedded_graphics::primitives::Circle;
use embedded_graphics::primitives::CornerRadii;
use embedded_graphics::primitives::PrimitiveStyle;
use embedded_graphics::primitives::Rectangle;
use embedded_graphics::primitives::RoundedRectangle;
use embedded_graphics::Drawable;
use embedded_graphics_framebuf::FrameBuf;
use vstd::prelude::*;

verus! {

/// The width of the frame in cells.
pub const FRAME_WIDTH: u32 = 128;

/// The height of the frame in cells.
pub const FRAME_HEIGHT: u32 = 64;

/// One picture for the display: its cells row by row, `true` for a cell that
/// is on.
#[derive(PartialEq, Eq, Clone, Copy, Debug)]
pub struct DisplayFrame {
    pub cells: [bool; 8192],
}

impl View for DisplayFrame {
    type V = Seq<bool>;

    open spec fn view(&self) -> Seq<bool> {
        self.cells@
    }
}

/// A rectangle of cells, given by its upper left corner and its size.
#[derive(PartialEq, Eq, Structural, Clone, Copy, Debug)]
pub struct Area {
    pub left: u32,
    pub top: u32,
    pub width: u32,
    pub height: u32,
}

impl Area {
    /// The rectangle lies within the frame.
    pub open spec fn inside_frame(self) -> bool {
        &&& self.left + self.width <= FRAME_WIDTH
        &&& self.top + self.height <= FRAME_HEIGHT
    }

    /// The whole frame.
    pub fn whole() -> (area: Area)
        ensures
            area == (Area { left: 0, top: 0, width: FRAME_WIDTH, height: FRAME_HEIGHT }),
            area.inside_frame(),
    {
        Area { left: 0, top: 0, width: FRAME_WIDTH, height: FRAME_HEIGHT }
    }

    /// Whether the rectangle lies within the frame.
    pub fn is_inside_frame(&self) -> (inside: bool)
        ensures
            inside == self.inside_frame(),
    {
        self.left <= FRAME_WIDTH && self.width <= FRAME_WIDTH - self.left && self.top
            <= FRAME_HEIGHT && self.height <= FRAME_HEIGHT - self.top
    }
}

/// The cells after a filled circle is drawn on `cells`: the circle's box has
/// its upper left corner at (`left`, `top`) and is `diameter` cells wide.
pub uninterp spec fn circle_filled(cells: Seq<bool>, left: int, top: int, diameter: int) -> Seq<
    bool,
>;

/// The cells after the outline of a square with rounded corners is drawn on
/// `cells`: the upper left corner at (`left`, `top`), `side` cells wide, the
/// corners rounded with `radius`.
pub uninterp spec fn rounded_square_stroked(
    cells: Seq<bool>,
    left: int,
    top: int,
    side: int,
    radius: int,
) -> Seq<bool>;

/// `embedded_graphics::primitives::Circle`, filled and drawn on the frame
/// through a `FrameBuf` of 128 by 64 cells. The frame afterwards is a function
/// of the frame before and of the circle; which cells a circle covers is left
/// to the outside crate.
#[verifier::external_body]
pub(crate) fn fill_circle(frame: &mut DisplayFrame, left: i32, top: i32, diameter: u32)
    requires
        0 <= left <= 2 * FRAME_WIDTH,
        0 <= top <= 2 * FRAME_WIDTH,
        diameter <= FRAME_WIDTH,
    ensures
        final(frame)@ == circle_filled(old(frame)@, left as int, top as int, diameter as int),
{
    let mut colors = frame.cells.map(BinaryColor::from);
    let mut target = FrameBuf::new(&mut colors, 128, 64);
    let style = PrimitiveStyle::with_fill(BinaryColor::On);
    let _ = Circle::new(Point::new(left, top), diameter).into_styled(style).draw(&mut target);
    frame.cells = colors.map(|color| color.is_on());
}

/// `embedded_graphics::primitives::RoundedRectangle` with a stroke of one
/// cell, drawn on the frame through a `FrameBuf` of 128 by 64 cells. The frame
/// afterwards is a function of the frame before and of the square; which cells
/// the outline covers is left to the outside crate.
#[verifier::external_body]
pub(crate) fn stroke_rounded_square(
    frame: &mut DisplayFrame,
    left: i32,
    top: i32,
    side: u32,
    radius: u32,
)
    requires
        0 <= left <= 2 * FRAME_WIDTH,
        0 <= top <= 2 * FRAME_WIDTH,
        side <= FRAME_WIDTH,
        radius <= FRAME_WIDTH,
    ensures
        final(frame)@ == rounded_square_stroked(
            old(frame)@,
            left as int,
            top as int,
            side as int,
            radius as int,
        ),
{
    let mut colors = frame.cells.map(BinaryColor::from);
    let mut target = FrameBuf::new(&mut colors, 128, 64);
    let square = Rectangle::new(Point::new(left, top), Size::new(side, side));
    let corners = CornerRadii::new(Size::new(radius, radius));
    let style = PrimitiveStyle::with_stroke(BinaryColor::On, 1);
    let _ = RoundedRectangle::new(square, corners).into_styled(style).draw(&mut target);
    frame.cells = colors.map(|color| color.is_on());
}

/// The cells of a frame on which nothing is drawn: all of them off.
pub open spec fn blank_cells() -> Seq<bool> {
    Seq::new(8192, |i: int| false)
}

impl DisplayFrame {
    /// A frame with every cell off.
    pub fn blank() -> (frame: DisplayFrame)
        ensures
            frame@ == blank_cells(),
    {
        let frame = DisplayFrame { cells: [false;8192] };
        proof {
            assert(frame@ =~= blank_cells());
        }
        frame
    }

    /// Turns every cell off.
    pub fn clear(&mut self)
        ensures
            final(self)@ == blank_cells(),
    {
        self.cells = [false;8192];
        proof {
            assert(self@ =~= blank_cells());
        }
    }

    /// Whether the cell in column `x` of row `y` is on.
    pub fn is_on(&self, x: u32, y: u32) -> (on: bool)
        requires
            x < FRAME_WIDTH,
            y < FRAME_HEIGHT,
        ensures
            on == self@[y * FRAME_WIDTH + x],
    {
        self.cells[(y * FRAME_WIDTH + x) as usize]
    }
}

} // verus!
