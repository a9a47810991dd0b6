//! Messages in the middle of the frame.

use embedded_graphics::geometry::Dimensions;
use embedded_graphics::pixelcolor::BinaryColor;
use embedded_graphics_framebuf::FrameBuf;
use u8g2_fonts::fonts::u8g2_font_logisoso22_tr;
use u8g2_fonts::fonts::u8g2_font_t0_12_tr;
use u8g2_fonts::types::FontColor;
use u8g2_fonts::types::HorizontalAlignment;
use u8g2_fonts::types::VerticalPosition;
use u8g2_fonts::Error;
use u8g2_fonts::FontRenderer;
use vstd::prelude::*;
use vstd::utf8::encode_utf8;
use vstd::utf8::is_ascii_chars;
use vstd::utf8::is_ascii_chars_encode_utf8;

use crate::frame::DisplayFrame;
use crate::frame::FRAME_HEIGHT;
use crate::frame::FRAME_WIDTH;

verus! {

/// Why a message was not drawn.
#[derive(PartialEq, Eq, Structural, Clone, Copy, Debug)]
pub enum FontError {
    /// The font cannot draw on a background colour.
    BackgroundColorNotSupported,
    /// The font has no glyph for this character.
    GlyphNotFound(char),
    /// The message does not fit into the frame.
    DoesNotFit,
}

/// The box around what was drawn; it may reach beyond the frame.
#[derive(PartialEq, Eq, Structural, Clone, Copy, Debug)]
pub struct Bounds {
    pub left: i32,
    pub top: i32,
    pub width: u32,
    pub height: u32,
}

impl Bounds {
    /// The box with its upper left corner at (`left`, `top`) and of the size
    /// `width` by `height`.
    pub fn new(left: i32, top: i32, width: u32, height: u32) -> (bounds: Bounds)
        ensures
            bounds == (Bounds { left, top, width, height }),
    {
        Bounds { left, top, width, height }
    }
}

/// The longest message that is given to the renderer, in bytes.
pub const MAX_MESSAGE_BYTES: usize = 1024;

/// What the renderer makes of `text` on a frame with `cells`, in the large
/// font for `big` and in the medium one else: the cells afterwards, and the
/// box around what it drew or the reason why it did not draw.
pub uninterp spec fn text_rendered(cells: Seq<bool>, text: Seq<char>, big: bool) -> (
    Seq<bool>,
    Result<Option<Bounds>, FontError>,
);

/// Whether the box lies within the frame; no box at all does.
pub open spec fn fits(bounds: Option<Bounds>) -> bool {
    bounds matches Some(b) ==> {
        &&& 0 <= b.left
        &&& 0 <= b.top
        &&& b.left + b.width <= FRAME_WIDTH
        &&& b.top + b.height <= FRAME_HEIGHT
    }
}

/// What a message gives that the renderer was asked to draw: its box if it
/// was drawn within the frame, `DoesNotFit` if it was drawn beyond it, and
/// else the reason that the renderer gave.
pub open spec fn message_result(
    rendered: (Seq<bool>, Result<Option<Bounds>, FontError>),
    result: Result<Option<Bounds>, FontError>,
) -> bool {
    match rendered.1 {
        Ok(bounds) => if fits(bounds) {
            result == Ok::<Option<Bounds>, FontError>(bounds)
        } else {
            result == Err::<Option<Bounds>, FontError>(FontError::DoesNotFit)
        },
        Err(reason) => result == Err::<Option<Bounds>, FontError>(reason),
    }
}

/// The length of `text` in bytes, as it is stored.
pub open spec fn byte_len(text: Seq<char>) -> usize {
    encode_utf8(text).len() as usize
}

/// Whether the renderer draws `text` on a frame with `cells` without error
/// and within the frame.
pub open spec fn draws_well(cells: Seq<bool>, text: Seq<char>, big: bool) -> bool {
    text_rendered(cells, text, big).1 matches Ok(bounds) && fits(bounds)
}

/// What drawing a message with `text` on a frame with the cells `before`
/// leaves behind. A text of more than `MAX_MESSAGE_BYTES` bytes does not fit
/// and leaves the frame as it is. A shorter one is given to the renderer: the
/// frame holds what the renderer drew, and the result is `message_result`.
pub open spec fn message_drawn(
    before: Seq<bool>,
    text: Seq<char>,
    big: bool,
    after: Seq<bool>,
    result: Result<Option<Bounds>, FontError>,
) -> bool {
    if byte_len(text) > MAX_MESSAGE_BYTES {
        &&& result == Err::<Option<Bounds>, FontError>(FontError::DoesNotFit)
        &&& after == before
    } else {
        &&& after == text_rendered(before, text, big).0
        &&& message_result(text_rendered(before, text, big), result)
    }
}

/// A text of plain ASCII characters has as many bytes as characters.
pub proof fn lemma_ascii_byte_len(text: Seq<char>)
    requires
        is_ascii_chars(text),
        text.len() <= MAX_MESSAGE_BYTES,
    ensures
        byte_len(text) == text.len(),
{
    is_ascii_chars_encode_utf8(text);
}

/// `u8g2_fonts::FontRenderer::render_aligned` with the font logisoso22, the
/// text centred on the centre of a `FrameBuf` of 128 by 64 cells, cells of
/// glyphs turned on. The frame afterwards and what the renderer gives back,
/// its box or its error, are functions of the frame before and of the text;
/// which cells the glyphs cover is left to the outside crate. The renderer
/// has no error for a text that does not fit, and drawing on a frame in
/// memory cannot fail, so a display error never comes.
#[verifier::external_body]
fn render_big(frame: &mut DisplayFrame, text: &str) -> (drawn: Result<Option<Bounds>, FontError>)
    requires
        text.len() <= MAX_MESSAGE_BYTES,
    ensures
        final(frame)@ == text_rendered(old(frame)@, text@, true).0,
        drawn == text_rendered(old(frame)@, text@, true).1,
        drawn matches Err(reason) ==> reason != FontError::DoesNotFit,
{
    let mut colors = frame.cells.map(BinaryColor::from);
    let mut target = FrameBuf::new(&mut colors, 128, 64);
    let drawn = FontRenderer::new::<u8g2_font_logisoso22_tr>().render_aligned(
        text, target.bounding_box().center(), VerticalPosition::Center,
        HorizontalAlignment::Center, FontColor::Transparent(BinaryColor::On), &mut target);
    frame.cells = colors.map(|color| color.is_on());
    match drawn {
        Ok(b) => Ok(b.map(|b| Bounds::new(b.top_left.x, b.top_left.y, b.size.width, b.size.height))),
        Err(Error::BackgroundColorNotSupported) => Err(FontError::BackgroundColorNotSupported),
        Err(Error::GlyphNotFound(glyph)) => Err(FontError::GlyphNotFound(glyph)),
        Err(Error::DisplayError(never)) => match never {},
    }
}

/// `u8g2_fonts::FontRenderer::render_aligned` with the font t0_12, otherwise
/// as for the large font.
#[verifier::external_body]
fn render_medium(frame: &mut DisplayFrame, text: &str) -> (drawn: Result<Option<Bounds>, FontError>)
    requires
        text.len() <= MAX_MESSAGE_BYTES,
    ensures
        final(frame)@ == text_rendered(old(frame)@, text@, false).0,
        drawn == text_rendered(old(frame)@, text@, false).1,
        drawn matches Err(reason) ==> reason != FontError::DoesNotFit,
{
    let mut colors = frame.cells.map(BinaryColor::from);
    let mut target = FrameBuf::new(&mut colors, 128, 64);
    let drawn = FontRenderer::new::<u8g2_font_t0_12_tr>().render_aligned(
        text, target.bounding_box().center(), VerticalPosition::Center,
        HorizontalAlignment::Center, FontColor::Transparent(BinaryColor::On), &mut target);
    frame.cells = colors.map(|color| color.is_on());
    match drawn {
        Ok(b) => Ok(b.map(|b| Bounds::new(b.top_left.x, b.top_left.y, b.size.width, b.size.height))),
        Err(Error::BackgroundColorNotSupported) => Err(FontError::BackgroundColorNotSupported),
        Err(Error::GlyphNotFound(glyph)) => Err(FontError::GlyphNotFound(glyph)),
        Err(Error::DisplayError(never)) => match never {},
    }
}

/// Whether the box lies within the frame; no box at all does.
pub fn fits_frame(bounds: Option<Bounds>) -> (within: bool)
    ensures
        within == fits(bounds),
{
    match bounds {
        Some(b) => {
            b.left >= 0 && b.top >= 0 && (b.left as i64) + (b.width as i64) <= FRAME_WIDTH as i64
                && (b.top as i64) + (b.height as i64) <= FRAME_HEIGHT as i64
        },
        None => true,
    }
}

/// What the caller gets for what the renderer gave: the box of a message
/// within the frame, `DoesNotFit` for one that reaches beyond it, and the
/// renderer's own reason where it gave one.
pub fn checked(drawn: Result<Option<Bounds>, FontError>) -> (result: Result<
    Option<Bounds>,
    FontError,
>)
    ensures
        result == match drawn {
            Ok(bounds) => if fits(bounds) {
                Ok::<Option<Bounds>, FontError>(bounds)
            } else {
                Err::<Option<Bounds>, FontError>(FontError::DoesNotFit)
            },
            Err(reason) => Err::<Option<Bounds>, FontError>(reason),
        },
{
    match drawn {
        Ok(bounds) => if fits_frame(bounds) {
            Ok(bounds)
        } else {
            Err(FontError::DoesNotFit)
        },
        Err(reason) => Err(reason),
    }
}

/// Draws `message` in the large font, centred in the frame.
///
/// A message of more than `MAX_MESSAGE_BYTES` bytes does not fit and is not
/// drawn at all. A shorter one is drawn as far as the frame reaches; if its
/// box reaches beyond the frame, it does not fit either.
pub fn big_centered_message(message: &str, target: &mut DisplayFrame) -> (result: Result<
    Option<Bounds>,
    FontError,
>)
    ensures
        message_drawn(old(target)@, message@, true, final(target)@, result),
{
    if message.len() > MAX_MESSAGE_BYTES {
        return Err(FontError::DoesNotFit);
    }
    checked(render_big(target, message))
}

/// Draws `message` in the medium font, centred in the frame.
///
/// A message of more than `MAX_MESSAGE_BYTES` bytes does not fit and is not
/// drawn at all. A shorter one is drawn as far as the frame reaches; if its
/// box reaches beyond the frame, it does not fit either.
pub fn medium_sized_centered_message(message: &str, target: &mut DisplayFrame) -> (result: Result<
    Option<Bounds>,
    FontError,
>)
    ensures
        message_drawn(old(target)@, message@, false, final(target)@, result),
{
    if message.len() > MAX_MESSAGE_BYTES {
        return Err(FontError::DoesNotFit);
    }
    checked(render_medium(target, message))
}

} // verus!
