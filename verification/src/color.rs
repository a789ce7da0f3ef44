use vstd::prelude::*;

verus! {

/// An 8-bit-per-channel color: one element of the finished frame buffer.
///
/// The renderer accumulates radiance in wider arithmetic and quantizes each
/// channel to this type only once a pixel is complete.
#[derive(Copy, Clone, Debug, PartialEq, Eq, Structural)]
pub struct Rgb {
    pub r: u8,
    pub g: u8,
    pub b: u8,
}

impl Rgb {
    pub fn new(r: u8, g: u8, b: u8) -> (c: Rgb)
        ensures
            c.r == r,
            c.g == g,
            c.b == b,
    {
        Rgb { r, g, b }
    }
}

} // verus!
