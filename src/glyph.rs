//! The records that flow through the generator: styled glyphs in, decoration lines out.
//!
//! Every coordinate and size is a fixed-point number of [`UNITS_PER_PIXEL`]ths of a pixel.
use vstd::prelude::*;

use crate::color::Color;

verus! {

/// Fixed-point units in one pixel: coordinates are millionths of a pixel.
pub const UNITS_PER_PIXEL: i64 = 1000000;

/// Two line positions or font sizes closer than this (a thousandth of a pixel) count as equal.
pub const EPSILON: i64 = 1000;

/// Glyph styling information.
#[derive(Debug, Clone, Copy, PartialEq, Eq, Structural)]
pub struct GlyphStyle {
    /// Whether or not the glyph is bold.
    pub bold: bool,
    /// The color of the glyph.
    pub color: Color,
}

/// A glyph to be rendered, as placed by a layout engine.
#[derive(Debug, Clone, Copy, PartialEq, Eq, Structural)]
pub struct Glyph {
    /// The y coordinate of the glyph's line of text.
    pub line_y: i64,
    /// The font size of the glyph.
    pub font_size: i64,
    /// The width of the glyph's bounding box.
    pub width: i64,
    /// The x coordinate of the left edge of the glyph's bounding box.
    pub x: i64,
    /// The style of the glyph.
    pub style: GlyphStyle,
}

/// A horizontal decoration line to be drawn from `(start_x, y)` to `(end_x, y)`.
#[derive(Debug, Clone, Copy, PartialEq, Eq, Structural)]
#[non_exhaustive]
pub struct Line {
    /// The y coordinate of the line.
    pub y: i64,
    /// The x coordinate of the line's start.
    pub start_x: i64,
    /// The x coordinate of the line's end.
    pub end_x: i64,
    /// The style shared by the glyphs under the line.
    pub style: GlyphStyle,
}

/// Which decoration is drawn.
#[derive(Debug, Clone, Copy, PartialEq, Eq, Structural, PartialOrd)]
#[non_exhaustive]
pub enum LineType {
    /// A line over the text, at the line's own y.
    Overline,
    /// A line through the text, half a font size below the line's y.
    StrikeThrough,
    /// A line under the text, a font size below the line's y.
    Underline,
}

/// Half of `v`, rounded toward zero.
pub open spec fn half(v: int) -> int {
    if v >= 0 {
        v / 2
    } else {
        -((-v) / 2)
    }
}

/// How far below a text line's y a decoration of kind `ty` lies, for a font size.
pub open spec fn offset_of(ty: LineType, font_size: int) -> int {
    match ty {
        LineType::Overline => 0,
        LineType::StrikeThrough => half(font_size),
        LineType::Underline => font_size,
    }
}

impl LineType {
    /// The offset of the line below the text line's y, given the font size.
    pub fn offset(self, font_size: i64) -> (r: i64)
        ensures
            r == offset_of(self, font_size as int),
    {
        match self {
            LineType::Overline => 0,
            LineType::StrikeThrough => font_size / 2,
            LineType::Underline => font_size,
        }
    }
}

/// `|d|`.
pub open spec fn abs_of(d: int) -> int {
    if d < 0 {
        -d
    } else {
        d
    }
}

/// Whether two positions or sizes are equal up to [`EPSILON`].
pub open spec fn close(a: int, b: int) -> bool {
    abs_of(a - b) < EPSILON
}

/// Absolute value of a difference of two coordinates.
fn abs(d: i128) -> (r: i128)
    requires
        d > i128::MIN,
    ensures
        r == abs_of(d as int),
{
    if d < 0 {
        -d
    } else {
        d
    }
}

/// Tell if two coordinates are approximately equal.
pub fn approx_eq(a: i64, b: i64) -> (r: bool)
    ensures
        r == close(a as int, b as int),
{
    abs(a as i128 - b as i128) < EPSILON as i128
}

} // verus!
