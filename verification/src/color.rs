//! An 8-bit RGBA color model with exact fixed-point conversion to and
//! from the unit interval.
//!
//! The device backend consumes channels normalized to `[0, 1]`. Inside
//! this crate that normalized form is represented exactly: a channel
//! `v` maps to the fixed-point value `round(v * 65536 / 255)`, a
//! numerator over the denominator [`UNIT_ONE`]. Converting back rounds
//! to the nearest byte and saturates at 255, so the round trip is the
//! identity (proved in [`Color::lemma_unit_round_trip`]).

use vstd::prelude::*;

verus! {

/// The fixed-point denominator: this numerator value stands for 1.0.
pub const UNIT_ONE: u32 = 65536;

/// An RGBA color in byte format.
///
/// Defaults to opaque white.
#[derive(Debug, Clone, Copy, PartialEq, Eq, Structural)]
pub struct Color {
    /// The red channel of the color.
    pub r: u8,
    /// The green channel of the color.
    pub g: u8,
    /// The blue channel of the color.
    pub b: u8,
    /// The opacity of the color.
    pub a: u8,
}

/// The fixed-point unit-interval value of one byte channel:
/// `round(v * 65536 / 255)`, written with integer division.
pub open spec fn channel_to_unit(v: u8) -> int {
    (v * 131072 + 255) / 510
}

/// The byte channel nearest to a fixed-point unit-interval value,
/// saturating at 255: `min(255, round(u * 255 / 65536))`.
pub open spec fn channel_from_unit(u: u32) -> int {
    let rounded = (u * 510 + 65536) / 131072;
    if rounded > 255 {
        255int
    } else {
        rounded
    }
}

impl Color {
    /// Creates a color from the four byte channels.
    pub fn new(r: u8, g: u8, b: u8, a: u8) -> (c: Self)
        ensures
            c == (Color { r, g, b, a }),
    {
        Color { r, g, b, a }
    }

    /// Sets the red channel of the color.
    pub fn r(self, r: u8) -> (c: Self)
        ensures
            c == (Color { r, ..self }),
    {
        Color { r, ..self }
    }

    /// Sets the green channel of the color.
    pub fn g(self, g: u8) -> (c: Self)
        ensures
            c == (Color { g, ..self }),
    {
        Color { g, ..self }
    }

    /// Sets the blue channel of the color.
    pub fn b(self, b: u8) -> (c: Self)
        ensures
            c == (Color { b, ..self }),
    {
        Color { b, ..self }
    }

    /// Sets the opacity of the color.
    pub fn a(self, a: u8) -> (c: Self)
        ensures
            c == (Color { a, ..self }),
    {
        Color { a, ..self }
    }

    /// Converts the color to four fixed-point unit-interval channels,
    /// each a numerator over [`UNIT_ONE`].
    pub fn to_unit(&self) -> (u: [u32; 4])
        ensures
            u@ == seq![
                channel_to_unit(self.r) as u32,
                channel_to_unit(self.g) as u32,
                channel_to_unit(self.b) as u32,
                channel_to_unit(self.a) as u32,
            ],
    {
        let u = [
            unit_of_channel(self.r),
            unit_of_channel(self.g),
            unit_of_channel(self.b),
            unit_of_channel(self.a),
        ];
        proof {
            assert(u@ =~= seq![
                channel_to_unit(self.r) as u32,
                channel_to_unit(self.g) as u32,
                channel_to_unit(self.b) as u32,
                channel_to_unit(self.a) as u32,
            ]);
        }
        u
    }

    /// Builds a color from four fixed-point unit-interval channels,
    /// rounding each to the nearest byte and saturating at 255.
    pub fn from_unit(u: [u32; 4]) -> (c: Self)
        ensures
            c.r == channel_from_unit(u[0]),
            c.g == channel_from_unit(u[1]),
            c.b == channel_from_unit(u[2]),
            c.a == channel_from_unit(u[3]),
    {
        Color {
            r: channel_of_unit(u[0]),
            g: channel_of_unit(u[1]),
            b: channel_of_unit(u[2]),
            a: channel_of_unit(u[3]),
        }
    }

    /// Converting a channel to its fixed-point unit-interval form and
    /// back yields the channel unchanged, for every byte value.
    pub proof fn lemma_channel_round_trip(v: u8)
        ensures
            channel_from_unit(channel_to_unit(v) as u32) == v,
    {
        let x = v * 131072 + 255;
        let u = x / 510;
        vstd::arithmetic::div_mod::lemma_fundamental_div_mod(x, 510);
        assert(510 * u <= x < 510 * (u + 1));
        assert((u * 510 + 65536) / 131072 == v) by (nonlinear_arith)
            requires
                u == channel_to_unit(v),
                510 * u <= v * 131072 + 255 < 510 * (u + 1),
        ;
    }

    /// Converting a whole color to fixed-point unit-interval channels
    /// and back yields the color unchanged.
    pub proof fn lemma_unit_round_trip(c: Color, u: [u32; 4], c2: Color)
        requires
            u@ == seq![
                channel_to_unit(c.r) as u32,
                channel_to_unit(c.g) as u32,
                channel_to_unit(c.b) as u32,
                channel_to_unit(c.a) as u32,
            ],
            c2.r == channel_from_unit(u[0]),
            c2.g == channel_from_unit(u[1]),
            c2.b == channel_from_unit(u[2]),
            c2.a == channel_from_unit(u[3]),
        ensures
            c2 == c,
    {
        Self::lemma_channel_round_trip(c.r);
        Self::lemma_channel_round_trip(c.g);
        Self::lemma_channel_round_trip(c.b);
        Self::lemma_channel_round_trip(c.a);
    }
}

impl Default for Color {
    /// The default color is opaque white.
    fn default() -> (c: Self)
        ensures
            c == (Color { r: 255, g: 255, b: 255, a: 255 }),
    {
        Color { r: 255, g: 255, b: 255, a: 255 }
    }
}

/// One channel byte to its fixed-point unit-interval numerator.
fn unit_of_channel(v: u8) -> (u: u32)
    ensures
        u == channel_to_unit(v),
{
    (v as u32 * 131072 + 255) / 510
}

/// One fixed-point unit-interval numerator to the nearest channel
/// byte, saturating at 255.
fn channel_of_unit(u: u32) -> (v: u8)
    ensures
        v == channel_from_unit(u),
{
    let rounded = (u as u64 * 510 + 65536) / 131072;
    if rounded > 255 {
        255
    } else {
        rounded as u8
    }
}

} // verus!
