//! Colours and pixels with 8-bit channels.

use vstd::prelude::*;

verus! {

/// A solid opaque colour: three 8-bit channel intensities. Clear commands
/// paint with such a colour; every painted pixel carries a full alpha
/// channel of 255.
#[derive(Clone, Copy, PartialEq, Eq, Structural, Debug)]
pub struct Color {
    pub r: u8,
    pub g: u8,
    pub b: u8,
}

/// One pixel in the renderer's native framebuffer layout: red, green, blue
/// and alpha as separate byte fields.
#[derive(Clone, Copy, PartialEq, Eq, Structural, Debug)]
pub struct Pixel {
    pub r: u8,
    pub g: u8,
    pub b: u8,
    pub a: u8,
}

impl Pixel {
    /// The pixel a clear command paints: the command's colour, fully opaque.
    pub open spec fn of_color(c: Color) -> Pixel {
        Pixel { r: c.r, g: c.g, b: c.b, a: 255 }
    }

    /// A pixel of a freshly allocated framebuffer: all channels zero.
    pub open spec fn blank() -> Pixel {
        Pixel { r: 0, g: 0, b: 0, a: 0 }
    }

    /// Build the opaque pixel of a colour.
    pub fn from_color(c: Color) -> (p: Pixel)
        ensures
            p == Pixel::of_color(c),
    {
        Pixel { r: c.r, g: c.g, b: c.b, a: 255 }
    }
}

} // verus!
