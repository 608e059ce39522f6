//! Colours and the material of an object.

use vstd::prelude::*;

verus! {

/// A colour of four 8-bit channels: red, green, blue and opacity.
#[derive(Clone, Copy, Debug, PartialEq, Eq, Structural)]
pub struct Color {
    pub r: u8,
    pub g: u8,
    pub b: u8,
    pub a: u8,
}

impl Color {
    /// The background of a frame: opaque black.
    pub open spec fn background_value() -> Color {
        Color { r: 0, g: 0, b: 0, a: 255 }
    }

    /// Opaque white.
    pub open spec fn white_value() -> Color {
        Color { r: 255, g: 255, b: 255, a: 255 }
    }

    /// The colour with the given four channels.
    pub fn rgba(r: u8, g: u8, b: u8, a: u8) -> (color: Color)
        ensures
            color.r == r,
            color.g == g,
            color.b == b,
            color.a == a,
    {
        Color { r, g, b, a }
    }

    /// The opaque colour with the given three channels.
    pub fn opaque(r: u8, g: u8, b: u8) -> (color: Color)
        ensures
            color.r == r,
            color.g == g,
            color.b == b,
            color.a == 255,
    {
        Color { r, g, b, a: 255 }
    }

    /// The red, green and blue channels.
    pub fn rgb(&self) -> (channels: (u8, u8, u8))
        ensures
            channels == (self.r, self.g, self.b),
    {
        (self.r, self.g, self.b)
    }

    /// The colour of a pixel whose ray hits nothing: opaque black.
    pub fn background() -> (color: Color)
        ensures
            color == Color::background_value(),
    {
        Color { r: 0, g: 0, b: 0, a: 255 }
    }
}

/// What an object looks like: its colour.
#[derive(Clone, Copy, Debug, PartialEq, Eq, Structural)]
pub struct Material {
    pub color: Color,
}

impl Default for Material {
    /// Opaque white.
    fn default() -> (material: Material)
        ensures
            material.color == Color::white_value(),
    {
        Material { color: Color { r: 255, g: 255, b: 255, a: 255 } }
    }
}

} // verus!
