use vstd::prelude::*;

verus! {

/// The bit pattern of the single-precision number `1.0`.
pub const CHANNEL_ONE: u32 = 0x3F80_0000;

/// A colour as three channels, each kept as the bit pattern of an IEEE-754
/// single-precision number, so that palette values pass through unchanged.
#[derive(Clone, Copy, Debug, PartialEq, Eq, Structural)]
pub struct Rgb {
    pub r: u32,
    pub g: u32,
    pub b: u32,
}

impl Rgb {
    /// Opaque white, every channel `1.0`.
    pub fn white() -> (c: Rgb)
        ensures
            c == (Rgb { r: CHANNEL_ONE, g: CHANNEL_ONE, b: CHANNEL_ONE }),
    {
        Rgb { r: CHANNEL_ONE, g: CHANNEL_ONE, b: CHANNEL_ONE }
    }
}

/// One cell of the grid: a glyph of the 16 x 16 atlas and its tint.
#[derive(Clone, Copy, Debug, PartialEq, Eq, Structural)]
pub struct Tile {
    pub glyph: u8,
    pub color: Rgb,
}

/// The tile that fills a cell that the map leaves empty: glyph 0 in white.
pub open spec fn blank_tile() -> Tile {
    Tile { glyph: 0, color: Rgb { r: CHANNEL_ONE, g: CHANNEL_ONE, b: CHANNEL_ONE } }
}

impl Default for Tile {
    fn default() -> (t: Tile)
        ensures
            t == blank_tile(),
    {
        Tile { glyph: 0, color: Rgb::white() }
    }
}

} // verus!
