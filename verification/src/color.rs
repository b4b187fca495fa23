//! RGBA colours in fixed point.
//!
//! A channel is an unsigned number of units; [`CHANNEL_ONE`] units are the
//! full intensity `1.0`, so one unit is `1 / 65536`. Values above
//! [`CHANNEL_ONE`] are allowed and stand for intensities above `1.0`.

use vstd::prelude::*;

verus! {

/// The number of units that stands for the intensity `1.0`.
pub const CHANNEL_ONE: u32 = 65536;

/// An RGBA colour, each channel in units of `1 / CHANNEL_ONE`.
#[derive(Clone, Copy, Debug, PartialEq, Eq, Structural)]
pub struct Color {
    pub r: u32,
    pub g: u32,
    pub b: u32,
    pub a: u32,
}

/// A channel lowered by `factor` and held at the floor `0`:
/// `max(0, channel - factor)`.
pub open spec fn darken_channel(channel: u32, factor: u32) -> u32 {
    if channel - factor > 0 {
        (channel - factor) as u32
    } else {
        0
    }
}

impl Color {
    /// Opaque red, `(1, 0, 0, 1)`.
    pub open spec fn spec_red() -> Color {
        Color { r: CHANNEL_ONE, g: 0, b: 0, a: CHANNEL_ONE }
    }

    /// Opaque green, `(0, 1, 0, 1)`.
    pub open spec fn spec_green() -> Color {
        Color { r: 0, g: CHANNEL_ONE, b: 0, a: CHANNEL_ONE }
    }

    /// Opaque white, `(1, 1, 1, 1)`.
    pub open spec fn spec_white() -> Color {
        Color { r: CHANNEL_ONE, g: CHANNEL_ONE, b: CHANNEL_ONE, a: CHANNEL_ONE }
    }

    /// Fully transparent black, `(0, 0, 0, 0)`.
    pub open spec fn spec_none() -> Color {
        Color { r: 0, g: 0, b: 0, a: 0 }
    }

    /// Opaque red, `(1, 0, 0, 1)`.
    #[verifier::when_used_as_spec(spec_red)]
    pub fn red() -> (c: Color)
        ensures
            c == Color::spec_red(),
    {
        Color { r: CHANNEL_ONE, g: 0, b: 0, a: CHANNEL_ONE }
    }

    /// Opaque green, `(0, 1, 0, 1)`.
    #[verifier::when_used_as_spec(spec_green)]
    pub fn green() -> (c: Color)
        ensures
            c == Color::spec_green(),
    {
        Color { r: 0, g: CHANNEL_ONE, b: 0, a: CHANNEL_ONE }
    }

    /// Opaque white, `(1, 1, 1, 1)`.
    #[verifier::when_used_as_spec(spec_white)]
    pub fn white() -> (c: Color)
        ensures
            c == Color::spec_white(),
    {
        Color { r: CHANNEL_ONE, g: CHANNEL_ONE, b: CHANNEL_ONE, a: CHANNEL_ONE }
    }

    /// Fully transparent black, `(0, 0, 0, 0)`.
    #[verifier::when_used_as_spec(spec_none)]
    pub fn none() -> (c: Color)
        ensures
            c == Color::spec_none(),
    {
        Color { r: 0, g: 0, b: 0, a: 0 }
    }

    /// This colour with red, green and blue lowered by `factor` and held at
    /// the floor `0`; alpha is kept.
    pub open spec fn darkened(self, factor: u32) -> Color {
        Color {
            r: darken_channel(self.r, factor),
            g: darken_channel(self.g, factor),
            b: darken_channel(self.b, factor),
            a: self.a,
        }
    }
}

/// Subtracts `factor` from the red, green and blue channels, never going
/// below zero, and leaves alpha as it is.
pub fn darken_color(color: Color, factor: u32) -> (darker: Color)
    ensures
        darker == color.darkened(factor),
{
    Color {
        r: color.r.saturating_sub(factor),
        g: color.g.saturating_sub(factor),
        b: color.b.saturating_sub(factor),
        a: color.a,
    }
}

/// Darkening by nothing changes nothing, and darkening twice is darkening
/// once by the sum of the two factors.
pub proof fn law_darken_composes(color: Color, first: u32, second: u32)
    requires
        first + second <= u32::MAX,
    ensures
        color.darkened(0) == color,
        color.darkened(first).darkened(second) == color.darkened((first + second) as u32),
{
}

/// Darkening never raises a channel, and a channel that is at least the
/// factor loses exactly the factor.
pub proof fn law_darken_bounds(color: Color, factor: u32)
    ensures
        color.darkened(factor).r <= color.r,
        color.darkened(factor).g <= color.g,
        color.darkened(factor).b <= color.b,
        color.r >= factor ==> color.darkened(factor).r == color.r - factor,
        color.g >= factor ==> color.darkened(factor).g == color.g - factor,
        color.b >= factor ==> color.darkened(factor).b == color.b - factor,
        color.r < factor ==> color.darkened(factor).r == 0,
        color.g < factor ==> color.darkened(factor).g == 0,
        color.b < factor ==> color.darkened(factor).b == 0,
        color.darkened(factor).a == color.a,
{
}

} // verus!
