//! Colors in the canvas's native alpha-first channel order.
//!
//! The wire format carries colors as four raw bytes in red/green/blue/alpha
//! order; they are converted to this alpha-first form at decode time.

use vstd::prelude::*;

verus! {

/// A color with 8-bit channels, stored alpha-first as the canvas expects.
#[derive(Clone, Copy, Debug, PartialEq, Eq, Structural)]
pub struct Color {
    pub a: u8,
    pub r: u8,
    pub g: u8,
    pub b: u8,
}

impl Color {
    /// Builds a color from its channels, alpha first, as the canvas's
    /// native constructor does.
    pub fn from_argb(a: u8, r: u8, g: u8, b: u8) -> (c: Color)
        ensures
            c == (Color { a, r, g, b }),
    {
        Color { a, r, g, b }
    }

    /// Opaque white, the tint used when a shader determines pixel color.
    pub fn white() -> (c: Color)
        ensures
            c == spec_white(),
    {
        Color { a: 255, r: 255, g: 255, b: 255 }
    }

    /// Opaque black, the default fill and stroke color.
    pub fn black() -> (c: Color)
        ensures
            c == spec_black(),
    {
        Color { a: 255, r: 0, g: 0, b: 0 }
    }

    /// Fully transparent, the fallback paint for a missing image resource.
    pub fn transparent() -> (c: Color)
        ensures
            c == spec_transparent(),
    {
        Color { a: 0, r: 0, g: 0, b: 0 }
    }
}

pub open spec fn spec_white() -> Color {
    Color { a: 255, r: 255, g: 255, b: 255 }
}

pub open spec fn spec_black() -> Color {
    Color { a: 255, r: 0, g: 0, b: 0 }
}

pub open spec fn spec_transparent() -> Color {
    Color { a: 0, r: 0, g: 0, b: 0 }
}

} // verus!
