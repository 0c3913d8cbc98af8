//! The frame buffer: the monochrome pixel memory of the 7.5" panel.
//!
//! The memory itself belongs to the display-geometry crate, whose drawing
//! routines work on it in place. This module gives its contents a
//! mathematical reading, a sequence of bytes in transfer order, and states
//! what each operation does to that sequence.

use embedded_graphics::mono_font::iso_8859_1::FONT_10X20;
use embedded_graphics::mono_font::MonoTextStyleBuilder;
use embedded_graphics::prelude::{DrawTarget, Drawable, Point};
use embedded_graphics::text::{Baseline, Text, TextStyleBuilder};
use epd_waveshare::color::Color as PanelColor;
use epd_waveshare::epd7in5_v2::Display7in5;
use vstd::prelude::*;
use vstd::string::StringSliceAdditionalSpecFns;

verus! {

/// Number of bytes in a frame: 800 x 480 pixels, eight pixels to a byte.
pub const FRAME_BYTES: usize = 48000;

/// Farthest that a text's origin may lie from the frame's corner, in pixels
/// along either axis.
pub const TEXT_ORIGIN_LIMIT: i32 = 1_000_000;

/// Longest text, in bytes, that is laid out in one call.
pub const TEXT_LENGTH_LIMIT: usize = 1_000_000;

/// The two colours of the panel.
#[derive(Clone, Copy, Debug, PartialEq, Eq, Structural)]
pub enum Color {
    Black,
    White,
}

/// The pixel memory as the display-geometry crate lays it out. Nothing of it
/// is visible to the verifier: `frame_bytes` names what it holds.
#[verifier::external_body]
pub struct PixelMemory {
    cells: Box<Display7in5>,
}

/// The bytes that a pixel memory holds, in transfer order.
pub uninterp spec fn frame_bytes(memory: PixelMemory) -> Seq<u8>;

/// The frame that text rendering leaves: the bytes of `before` with `text`
/// drawn in the 10x20 ISO 8859-1 font, its top left corner at (`x`, `y`),
/// glyph pixels in `ink` and the rest of each character cell in `paper`.
pub uninterp spec fn text_on_frame(
    before: Seq<u8>,
    text: Seq<char>,
    x: int,
    y: int,
    ink: Color,
    paper: Color,
) -> Seq<u8>;

/// The byte that eight pixels of one colour make.
pub open spec fn fill_byte(color: Color) -> u8 {
    match color {
        Color::Black => 0x00u8,
        Color::White => 0xFFu8,
    }
}

/// A frame in which every pixel has the given colour.
pub open spec fn solid(color: Color) -> Seq<u8> {
    Seq::new(FRAME_BYTES as nat, |i: int| fill_byte(color))
}

/// Whether a text and its origin are within what one call lays out.
pub open spec fn text_fits(text: &str, x: i32, y: i32) -> bool {
    &&& text.spec_bytes().len() <= TEXT_LENGTH_LIMIT
    &&& -TEXT_ORIGIN_LIMIT <= x <= TEXT_ORIGIN_LIMIT
    &&& -TEXT_ORIGIN_LIMIT <= y <= TEXT_ORIGIN_LIMIT
}

/// Calls `Display7in5::default()`, which allocates the memory with every
/// byte zero: 48000 bytes for this panel.
#[verifier::external_body]
fn blank_memory() -> (memory: PixelMemory)
    ensures
        frame_bytes(memory) == solid(Color::Black),
{
    PixelMemory { cells: Box::new(Display7in5::default()) }
}

/// Calls `DrawTarget::clear` on the memory. The display-geometry crate keeps
/// the trait's default, which sets every pixel of the bounding box, here the
/// whole 800 x 480 frame at no rotation, to the colour: a white pixel is a
/// set bit, a black one a cleared bit. Its error type has no values.
#[verifier::external_body]
fn fill_memory(memory: &mut PixelMemory, color: Color)
    ensures
        frame_bytes(*final(memory)) == solid(color),
{
    let fill = match color {
        Color::Black => PanelColor::Black,
        Color::White => PanelColor::White,
    };
    let _ = memory.cells.clear(fill);
}

/// Calls `Display::buffer`, which lends out the memory's bytes as they are.
#[verifier::external_body]
fn memory_slice(memory: &PixelMemory) -> (bytes: &[u8])
    ensures
        bytes@ == frame_bytes(*memory),
{
    memory.cells.buffer()
}

/// Calls `Text::draw` of the graphics crate on the memory, with a monospace
/// style of the 10x20 ISO 8859-1 font and the top of the text on the origin.
/// What it leaves depends on the memory before and on the arguments alone;
/// the memory keeps its size, and pixels outside the frame are dropped. The
/// bounds keep the layout's 32-bit pixel positions from overflowing.
#[verifier::external_body]
fn render_text(memory: &mut PixelMemory, text: &str, x: i32, y: i32, ink: Color, paper: Color)
    requires
        text_fits(text, x, y),
    ensures
        frame_bytes(*final(memory)) == text_on_frame(
            frame_bytes(*old(memory)),
            text@,
            x as int,
            y as int,
            ink,
            paper,
        ),
        frame_bytes(*final(memory)).len() == frame_bytes(*old(memory)).len(),
{
    let ink = match ink {
        Color::Black => PanelColor::Black,
        Color::White => PanelColor::White,
    };
    let paper = match paper {
        Color::Black => PanelColor::Black,
        Color::White => PanelColor::White,
    };
    let glyphs = MonoTextStyleBuilder::new().font(&FONT_10X20).text_color(ink).background_color(paper).build();
    let layout = TextStyleBuilder::new().baseline(Baseline::Top).build();
    let _ = Text::with_text_style(text, Point::new(x, y), glyphs, layout).draw(&mut *memory.cells);
}

/// The frame buffer: staged pixels, owned by the panel driver, changed only
/// by clearing and drawing, and read when a frame is transferred.
pub struct FrameBuffer {
    memory: PixelMemory,
}

impl View for FrameBuffer {
    type V = Seq<u8>;

    closed spec fn view(&self) -> Seq<u8> {
        frame_bytes(self.memory)
    }
}

impl FrameBuffer {
    /// A frame buffer has the panel's size.
    pub open spec fn wf(&self) -> bool {
        self@.len() == FRAME_BYTES
    }

    /// A fresh frame buffer, every pixel black.
    pub fn new() -> (frame: FrameBuffer)
        ensures
            frame@ == solid(Color::Black),
            frame.wf(),
    {
        FrameBuffer { memory: blank_memory() }
    }

    /// Sets every pixel to `color`, whatever the frame held.
    pub fn clear(&mut self, color: Color)
        ensures
            final(self)@ == solid(color),
            final(self).wf(),
    {
        fill_memory(&mut self.memory, color);
    }

    /// The frame's bytes in transfer order.
    pub fn bytes(&self) -> (bytes: &[u8])
        ensures
            bytes@ == self@,
    {
        memory_slice(&self.memory)
    }

    /// Draws `text` with its top left corner at (`x`, `y`); the frame keeps
    /// its size.
    pub fn draw_text(&mut self, text: &str, x: i32, y: i32, ink: Color, paper: Color)
        requires
            text_fits(text, x, y),
        ensures
            final(self)@ == text_on_frame(old(self)@, text@, x as int, y as int, ink, paper),
            final(self)@.len() == old(self)@.len(),
    {
        render_text(&mut self.memory, text, x, y, ink, paper);
    }
}

} // verus!
