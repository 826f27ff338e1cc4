use vstd::prelude::*;

verus! {

/// A position on screen, in pixels. Wide enough that a cursor moved by any
/// number of boxes of `u32` size never overflows.
pub type Pos = i128;

/// Positions handed to the drawing functions stay within this magnitude.
pub const POS_LIMIT: i128 = 0x4000_0000_0000_0000_0000_0000_0000;

/// An RGBA color with one byte per channel.
#[derive(Clone, Copy, Debug, PartialEq, Eq, Structural)]
pub struct Color {
    pub r: u8,
    pub g: u8,
    pub b: u8,
    pub a: u8,
}

impl Color {
    pub fn rgba(r: u8, g: u8, b: u8, a: u8) -> (c: Color)
        ensures
            c == (Color { r, g, b, a }),
    {
        Color { r, g, b, a }
    }

    pub fn white() -> (c: Color)
        ensures
            c == (Color { r: 255, g: 255, b: 255, a: 255 }),
    {
        Color { r: 255, g: 255, b: 255, a: 255 }
    }
}

/// Which of the theme's fonts a run of text is set in.
#[derive(Clone, Copy, Debug, PartialEq, Eq, Structural)]
pub enum FontKind {
    Text,
    Bold,
    Italic,
    Code,
}

/// Horizontal alignment of boxes on a slide and of lines in a box.
#[derive(Clone, Copy, Debug, PartialEq, Eq, Structural)]
pub enum DrawAlignment {
    Left,
    Right,
    Center,
}

impl Default for DrawAlignment {
    fn default() -> (a: DrawAlignment)
        ensures
            a == DrawAlignment::Left,
    {
        DrawAlignment::Left
    }
}

/// What measuring a run of text in its font gave: its advance width and the
/// distance from its top to its baseline.
#[derive(Clone, Copy, Debug, PartialEq, Eq, Structural)]
pub struct TextMetrics {
    pub width: u32,
    pub offset_y: u32,
}

/// One primitive for the renderer, in screen coordinates.
#[derive(Clone, Debug, PartialEq, Eq)]
pub enum DrawCommand {
    Rect { x: Pos, y: Pos, width: u32, height: u32, color: Color },
    Circle { x: Pos, y: Pos, radius: u32, color: Color },
    CircleOutline { x: Pos, y: Pos, radius: u32, color: Color },
    /// `text` with its left edge at `x` and its top at `y`.
    Text { text: String, x: Pos, y: Pos, font: FontKind, font_size: u16, color: Color },
    /// A decorative quotation mark: an opening one ends at `x`, a closing one
    /// starts there.
    Quote { opening: bool, x: Pos, y: Pos, font: FontKind, font_size: u16, color: Color },
    Image { path: String, x: Pos, y: Pos, width: u32, height: u32 },
}

pub open spec fn within_limit(p: int) -> bool {
    -POS_LIMIT <= p <= POS_LIMIT
}

} // verus!
