//! A 32-bit RGBA color: red in the highest byte, alpha in the lowest.
use vstd::prelude::*;

verus! {

/// The number a channel is multiplied by to reach its place in the packed value.
pub open spec fn place(channel: int) -> int {
    if channel == 0 {
        0x1000000
    } else if channel == 1 {
        0x10000
    } else if channel == 2 {
        0x100
    } else {
        1
    }
}

/// The packed value of four channels.
pub open spec fn packed(r: u8, g: u8, b: u8, a: u8) -> int {
    r * place(0) + g * place(1) + b * place(2) + a * place(3)
}

/// Channel `channel` (0 red, 1 green, 2 blue, 3 alpha) of a packed value.
pub open spec fn channel_of(v: u32, channel: int) -> u8 {
    ((v as int / place(channel)) % 0x100) as u8
}

/// 32-bit RGBA color.
#[derive(Debug, Clone, Copy, PartialEq, Eq, Structural, Hash, Default)]
pub struct Color(u32);

impl View for Color {
    type V = u32;

    closed spec fn view(&self) -> u32 {
        self.0
    }
}

impl Color {
    /// Create a new color from the given RGBA values.
    pub fn rgba(r: u8, g: u8, b: u8, a: u8) -> (c: Self)
        ensures
            c@ as int == packed(r, g, b, a),
    {
        let v = ((r as u32) << 24u32) | ((g as u32) << 16u32) | ((b as u32) << 8u32) | (a as u32);
        assert(v as int == packed(r, g, b, a)) by {
            let (r32, g32, b32, a32) = (r as u32, g as u32, b as u32, a as u32);
            assert(((r32 << 24u32) | (g32 << 16u32) | (b32 << 8u32) | a32) == r32 * 0x1000000u32
                + g32 * 0x10000u32 + b32 * 0x100u32 + a32) by (bit_vector)
                requires
                    r32 < 0x100,
                    g32 < 0x100,
                    b32 < 0x100,
                    a32 < 0x100,
            ;
        }
        Color(v)
    }

    /// Get the red component of the color.
    pub fn red(self) -> (r: u8)
        ensures
            r == channel_of(self@, 0),
    {
        let v = self.0;
        assert((v >> 24u32) & 0xFFu32 == (v / 0x1000000u32) % 0x100u32) by (bit_vector);
        ((v >> 24u32) & 0xFF) as u8
    }

    /// Get the green component of the color.
    pub fn green(self) -> (r: u8)
        ensures
            r == channel_of(self@, 1),
    {
        let v = self.0;
        assert((v >> 16u32) & 0xFFu32 == (v / 0x10000u32) % 0x100u32) by (bit_vector);
        ((v >> 16u32) & 0xFF) as u8
    }

    /// Get the blue component of the color.
    pub fn blue(self) -> (r: u8)
        ensures
            r == channel_of(self@, 2),
    {
        let v = self.0;
        assert((v >> 8u32) & 0xFFu32 == (v / 0x100u32) % 0x100u32) by (bit_vector);
        ((v >> 8u32) & 0xFF) as u8
    }

    /// Get the alpha component of the color.
    pub fn alpha(self) -> (r: u8)
        ensures
            r == channel_of(self@, 3),
    {
        let v = self.0;
        assert(v & 0xFFu32 == v % 0x100u32) by (bit_vector);
        (v & 0xFF) as u8
    }

    /// Get an array of the components, red first.
    pub fn components(self) -> (r: [u8; 4])
        ensures
            r@ == seq![
                channel_of(self@, 0),
                channel_of(self@, 1),
                channel_of(self@, 2),
                channel_of(self@, 3),
            ],
    {
        let r = [self.red(), self.green(), self.blue(), self.alpha()];
        assert(r@ =~= seq![
            channel_of(self@, 0),
            channel_of(self@, 1),
            channel_of(self@, 2),
            channel_of(self@, 3),
        ]);
        r
    }
}

/// Packing four channels and reading them back gives the same four channels,
/// and the packed value fits in 32 bits.
pub proof fn lemma_rgba_round_trip(r: u8, g: u8, b: u8, a: u8)
    ensures
        0 <= packed(r, g, b, a) <= u32::MAX,
        channel_of(packed(r, g, b, a) as u32, 0) == r,
        channel_of(packed(r, g, b, a) as u32, 1) == g,
        channel_of(packed(r, g, b, a) as u32, 2) == b,
        channel_of(packed(r, g, b, a) as u32, 3) == a,
{
    let v = packed(r, g, b, a);
    assert(0 <= v <= u32::MAX) by (nonlinear_arith)
        requires
            v == r * 0x1000000 + g * 0x10000 + b * 0x100 + a * 1,
            0 <= r < 0x100,
            0 <= g < 0x100,
            0 <= b < 0x100,
            0 <= a < 0x100,
    ;
    assert((v / 0x1000000) % 0x100 == r) by (nonlinear_arith)
        requires
            v == r * 0x1000000 + (g * 0x10000 + b * 0x100 + a),
            0 <= g * 0x10000 + b * 0x100 + a < 0x1000000,
            0 <= r < 0x100,
    ;
    assert((v / 0x10000) % 0x100 == g) by (nonlinear_arith)
        requires
            v == (r * 0x100 + g) * 0x10000 + (b * 0x100 + a),
            0 <= b * 0x100 + a < 0x10000,
            0 <= r < 0x100,
            0 <= g < 0x100,
    ;
    assert((v / 0x100) % 0x100 == b) by (nonlinear_arith)
        requires
            v == ((r * 0x100 + g) * 0x100 + b) * 0x100 + a,
            0 <= a < 0x100,
            0 <= b < 0x100,
            0 <= (r * 0x100 + g),
    ;
    assert(v % 0x100 == a) by (nonlinear_arith)
        requires
            v == (((r * 0x100 + g) * 0x100 + b) * 0x100) + a,
            0 <= a < 0x100,
            0 <= ((r * 0x100 + g) * 0x100 + b),
    ;
}

} // verus!
