use vstd::prelude::*;
use crate::tile::Rgb;

verus! {

/// Glyph cells per atlas row and per atlas column.
pub const ATLAS_CELLS: u8 = 16;

/// An exact rational number `num / den`.
#[derive(Clone, Copy, Debug, PartialEq, Eq, Structural)]
pub struct Fraction {
    pub num: i64,
    pub den: u32,
}

/// The fraction with the given numerator and denominator.
pub open spec fn frac(num: int, den: int) -> Fraction {
    Fraction { num: num as i64, den: den as u32 }
}

/// Per-tile data for instanced drawing: the glyph's cell in the atlas as a
/// UV rectangle, the translation that moves the unit quad to the tile's cell
/// in normalized device coordinates, and the tint.
#[derive(Clone, Copy, Debug, PartialEq, Eq, Structural)]
pub struct InstanceTileRaw {
    pub u_min: Fraction,
    pub u_max: Fraction,
    pub v_min: Fraction,
    pub v_max: Fraction,
    pub x: Fraction,
    pub y: Fraction,
    pub color: Rgb,
}

/// The record of a tile with glyph `glyph` and tint `color` at column `x`
/// and row `y` of a grid of `cols` columns and `rows` rows. Row 0 is the top
/// of the screen: the vertical coordinate falls as the row grows.
pub open spec fn encode_spec(glyph: u8, color: Rgb, x: int, y: int, cols: int, rows: int) -> InstanceTileRaw {
    let gx = glyph as int % 16;
    let gy = glyph as int / 16;
    InstanceTileRaw {
        u_min: frac(gx, 16),
        u_max: frac(gx + 1, 16),
        v_min: frac(gy, 16),
        v_max: frac(gy + 1, 16),
        x: frac(2 * x - cols, cols),
        y: frac(rows - 2 * y, rows),
        color,
    }
}

/// A tile placed at a grid position `[column, row]`.
#[derive(Clone, Copy, Debug)]
pub struct TileRenderData {
    pub glyph: u8,
    pub position: [usize; 2],
    pub color: Rgb,
}

impl TileRenderData {
    /// The instance record of this tile in a grid of `cols` x `rows` cells.
    pub fn get_instance_matrix(&self, cols: usize, rows: usize) -> (r: InstanceTileRaw)
        requires
            self.position[0] < cols <= u32::MAX,
            self.position[1] < rows <= u32::MAX,
        ensures
            r == encode_spec(self.glyph, self.color, self.position[0] as int, self.position[1] as int, cols as int, rows as int),
    {
        let gx = (self.glyph % ATLAS_CELLS) as i64;
        let gy = (self.glyph / ATLAS_CELLS) as i64;
        let x = self.position[0] as i64;
        let y = self.position[1] as i64;
        let c = cols as i64;
        let h = rows as i64;
        InstanceTileRaw {
            u_min: Fraction { num: gx, den: 16 },
            u_max: Fraction { num: gx + 1, den: 16 },
            v_min: Fraction { num: gy, den: 16 },
            v_max: Fraction { num: gy + 1, den: 16 },
            x: Fraction { num: 2 * x - c, den: cols as u32 },
            y: Fraction { num: h - 2 * y, den: rows as u32 },
            color: self.color,
        }
    }
}

} // verus!

verus! {

/// Every glyph's UV rectangle is one cell of the atlas: `1/16` wide and
/// `1/16` high, with its left edge at `(glyph % 16) / 16` and its top edge at
/// `(glyph / 16) / 16`.
pub proof fn lemma_uv_cell(glyph: u8, color: Rgb, x: int, y: int, cols: int, rows: int)
    ensures
        encode_spec(glyph, color, x, y, cols, rows).u_min == frac(glyph as int % 16, 16),
        encode_spec(glyph, color, x, y, cols, rows).v_min == frac(glyph as int / 16, 16),
        encode_spec(glyph, color, x, y, cols, rows).u_max.den == 16,
        encode_spec(glyph, color, x, y, cols, rows).v_max.den == 16,
        encode_spec(glyph, color, x, y, cols, rows).u_max.num - encode_spec(glyph, color, x, y, cols, rows).u_min.num == 1,
        encode_spec(glyph, color, x, y, cols, rows).v_max.num - encode_spec(glyph, color, x, y, cols, rows).v_min.num == 1,
{
}

/// Inside a grid, a tile's horizontal position `num / den` lies in `[-1, 1)`
/// and its vertical one in `(-1, 1]`.
pub proof fn lemma_ndc_in_range(glyph: u8, color: Rgb, x: int, y: int, cols: int, rows: int)
    requires
        0 <= x < cols <= u32::MAX,
        0 <= y < rows <= u32::MAX,
    ensures
        encode_spec(glyph, color, x, y, cols, rows).x.den == cols,
        -cols <= encode_spec(glyph, color, x, y, cols, rows).x.num < cols,
        encode_spec(glyph, color, x, y, cols, rows).y.den == rows,
        -rows < encode_spec(glyph, color, x, y, cols, rows).y.num <= rows,
{
}

/// Further right in the grid is further right on screen, and a lower row is
/// lower on screen: the top row is topmost.
pub proof fn lemma_ndc_monotonic(glyph: u8, color: Rgb, x1: int, x2: int, y1: int, y2: int, cols: int, rows: int)
    requires
        0 <= x1 < cols <= u32::MAX,
        0 <= x2 < cols,
        0 <= y1 < rows <= u32::MAX,
        0 <= y2 < rows,
    ensures
        x1 < x2 ==> encode_spec(glyph, color, x1, y1, cols, rows).x.num < encode_spec(glyph, color, x2, y2, cols, rows).x.num,
        y1 < y2 ==> encode_spec(glyph, color, x1, y1, cols, rows).y.num > encode_spec(glyph, color, x2, y2, cols, rows).y.num,
{
}

/// The glyph index that a record's UV rectangle selects.
pub open spec fn decoded_glyph(r: InstanceTileRaw) -> int {
    16 * r.v_min.num + r.u_min.num
}

} // verus!
