//! Decoration lines (underline, strike-through, overline) for a stream of laid-out glyphs.
//!
//! A [`LineGenerator`] takes glyphs in layout order and merges each run of
//! contiguous glyphs that share a text line, a font size and a style into one
//! horizontal [`Line`]. Coordinates are fixed-point integers, see [`UNITS_PER_PIXEL`].
pub mod color;
pub mod generator;
pub mod glyph;

pub use color::Color;
pub use generator::{LineGenerator, OngoingLine};
pub use glyph::{approx_eq, Glyph, GlyphStyle, Line, LineType, EPSILON, UNITS_PER_PIXEL};
