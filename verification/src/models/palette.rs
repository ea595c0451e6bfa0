//! The colours of the interface.

use vstd::prelude::*;

verus! {

/// A colour in sRGB with its opacity, eight bits a channel, packed as
/// `0xRRGGBBAA`.
#[derive(Clone, Copy, Debug, PartialEq, Eq, Structural)]
pub struct Color {
    pub rgba: u32,
}

impl Color {
    /// The colour with the given packed channels.
    pub fn rgba(rgba: u32) -> (r: Color)
        ensures
            r == (Color { rgba }),
    {
        Color { rgba }
    }
}

pub const GRAY: u32 = 0x2828_28FF;

pub const WHITEISH: u32 = 0xECEC_ECFF;

pub const SAND_YELLOW: u32 = 0xCDAA_6DFF;

pub const GREEN: u32 = 0x49E0_5FFF;

pub const DIM_BLUE: u32 = 0x2F54_92FF;

pub const LIGHT_BLUE: u32 = 0x497A_C5FF;

pub const TRANSPARENT: u32 = 0x0000_0000;

pub const TRANSLUCENT: u32 = 0x3326_66B3;

pub const SUN: u32 = 0xF8B0_0EFF;

pub const MOON: u32 = 0x5068_86FF;

} // verus!
