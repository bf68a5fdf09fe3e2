//! 24-bit colours and their order on the wire.
use vstd::prelude::*;

verus! {

/// An 8-bit-per-channel RGB colour.
#[derive(Clone, Copy, Debug, PartialEq, Eq, Structural)]
pub struct Rgb {
    pub r: u8,
    pub g: u8,
    pub b: u8,
}

/// The largest 24-bit colour word.
pub const COLOR_WORD_MAX: u32 = 0xFF_FFFF;

/// The word sent for a colour: green in the top byte, then red, then blue,
/// the channel order that this class of LED reads.
pub open spec fn spec_wire_word(c: Rgb) -> int {
    c.g as int * 65536 + c.r as int * 256 + c.b as int
}

impl Rgb {
    pub fn new(r: u8, g: u8, b: u8) -> (c: Rgb)
        ensures
            c == (Rgb { r, g, b }),
    {
        Rgb { r, g, b }
    }

    /// The 24-bit word sent for this colour, green first (see `spec_wire_word`).
    pub fn wire_word(&self) -> (w: u32)
        ensures
            w as int == spec_wire_word(*self),
            w <= COLOR_WORD_MAX,
    {
        let g = self.g as u32;
        let r = self.r as u32;
        let b = self.b as u32;
        let w = (g << 16u32) | (r << 8u32) | b;
        assert(w == g * 65536 + r * 256 + b && w <= 0xFF_FFFF) by (bit_vector)
            requires
                g <= 255,
                r <= 255,
                b <= 255,
                w == (g << 16u32) | (r << 8u32) | b,
        ;
        w
    }
}

} // verus!
