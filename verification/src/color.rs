//! Colours, and the alpha compositing of one colour over another.

use vstd::prelude::*;

verus! {

/// A colour with red, green, blue and alpha channels, each in 0..=255.
///
/// Two colours are equal exactly when all four channels are equal.
#[derive(Clone, Copy, Debug, PartialEq, Eq, Structural)]
pub struct Color {
    pub r: u8,
    pub g: u8,
    pub b: u8,
    pub a: u8,
}

/// Fully transparent black: the colour of a pixel that shows nothing.
pub open spec fn transparent() -> Color {
    Color { r: 0, g: 0, b: 0, a: 0 }
}

/// The semi-transparent red that differences are painted with by default.
pub open spec fn overlay_color() -> Color {
    Color { r: 255, g: 0, b: 0, a: 55 }
}

/// The colour that `image` computes when `top` is alpha-blended over `bottom`.
pub uninterp spec fn blended(bottom: Color, top: Color) -> Color;

/// `top` composited over `bottom`: a fully transparent `top` shows `bottom`,
/// a fully opaque `top` hides it, and anything between mixes the two.
pub open spec fn composed(bottom: Color, top: Color) -> Color {
    if top.a == 0 {
        bottom
    } else if top.a == 255 {
        top
    } else {
        blended(bottom, top)
    }
}

/// Alpha-blends `top` over `bottom` with `image::Pixel::blend` for `Rgba<u8>`.
///
/// The blend is a function of the two colours alone. It leaves `bottom` as it
/// is under a fully transparent `top`, and gives `top` where `top` is fully
/// opaque; in between it mixes the channels in floating point, which is not
/// restated here.
#[verifier::external_body]
pub(crate) fn blend_over(bottom: Color, top: Color) -> (out: Color)
    ensures
        out == blended(bottom, top),
        top.a == 0 ==> out == bottom,
        top.a == 255 ==> out == top,
{
    let mut pixel = image::Rgba([bottom.r, bottom.g, bottom.b, bottom.a]);
    image::Pixel::blend(&mut pixel, &image::Rgba([top.r, top.g, top.b, top.a]));
    Color { r: pixel.0[0], g: pixel.0[1], b: pixel.0[2], a: pixel.0[3] }
}

impl Color {
    /// Builds a colour from its four channels.
    pub fn new(r: u8, g: u8, b: u8, a: u8) -> (c: Color)
        ensures
            c == (Color { r, g, b, a }),
    {
        Color { r, g, b, a }
    }

    /// Fully transparent black.
    pub fn transparent() -> (c: Color)
        ensures
            c == transparent(),
    {
        Color { r: 0, g: 0, b: 0, a: 0 }
    }

    /// The default highlight: red at an alpha of 55.
    pub fn overlay() -> (c: Color)
        ensures
            c == overlay_color(),
    {
        Color { r: 255, g: 0, b: 0, a: 55 }
    }
}

} // verus!
