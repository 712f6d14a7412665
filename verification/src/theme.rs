//! Themes as explicit palette values. A theme carries, for each semantic
//! color group, a base / strong / weak pair of colors; the style catalogs
//! look concrete colors up in it, so appearance is decoupled from component
//! logic.

use vstd::prelude::*;

verus! {

/// An RGBA color with 8-bit channels. `a` is the opacity: 255 is fully
/// opaque, 0 fully transparent.
#[derive(Clone, Copy, Debug, PartialEq, Eq, Structural)]
pub struct Color {
    pub r: u8,
    pub g: u8,
    pub b: u8,
    pub a: u8,
}

impl Color {
    /// An opaque color.
    pub fn rgb(r: u8, g: u8, b: u8) -> (c: Color)
        ensures
            c == (Color { r, g, b, a: 255 }),
    {
        Color { r, g, b, a: 255 }
    }

    /// The color with its opacity halved (rounding down) and the color
    /// channels untouched; how a disabled component fades its style.
    pub open spec fn half_alpha_spec(self) -> Color {
        Color { r: self.r, g: self.g, b: self.b, a: (self.a / 2) as u8 }
    }

    /// Scale the opacity down by one half.
    pub fn half_alpha(self) -> (c: Color)
        ensures
            c == self.half_alpha_spec(),
    {
        Color { r: self.r, g: self.g, b: self.b, a: self.a / 2 }
    }
}

/// A palette entry: a fill color together with a text color readable on
/// top of it.
#[derive(Clone, Copy, Debug, PartialEq, Eq, Structural)]
pub struct Pair {
    pub color: Color,
    pub text: Color,
}

/// One semantic color group of a theme, in three strengths.
#[derive(Clone, Copy, Debug, PartialEq, Eq, Structural)]
pub struct ColorGroup {
    pub base: Pair,
    pub strong: Pair,
    pub weak: Pair,
}

/// A theme: the five semantic color groups the color roles select from.
#[derive(Clone, Copy, Debug, PartialEq, Eq, Structural)]
pub struct Theme {
    pub background: ColorGroup,
    pub primary: ColorGroup,
    pub secondary: ColorGroup,
    pub danger: ColorGroup,
    pub success: ColorGroup,
}

} // verus!
