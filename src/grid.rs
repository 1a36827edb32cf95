use vstd::prelude::*;
use crate::tile::{Rgb, Tile, blank_tile};
use crate::config::{Character, colors_resolve, map_tiles};
use crate::instance::{InstanceTileRaw, TileRenderData, decoded_glyph, encode_spec};

verus! {

/// Why a grid cannot be built.
#[derive(Clone, Copy, Debug, PartialEq, Eq, Structural)]
pub enum GridError {
    /// A dimension is zero.
    EmptyDimension,
    /// The grid would hold more cells than an instance count can name.
    TooLarge,
    /// More tiles were placed than the grid has cells.
    Overflow,
}

/// What a grid is: its dimensions and its tiles, row-major.
pub ghost struct GridView {
    pub cols: nat,
    pub rows: nat,
    pub tiles: Seq<Tile>,
}

/// A fixed grid of `cols` x `rows` tiles, row-major: the tile at column `x`
/// and row `y` stands at index `y * cols + x`.
pub struct Grid {
    cols: usize,
    rows: usize,
    tiles: Vec<Tile>,
}

/// The cells of a grid of `cells` cells after `placed` has been written into
/// its first cells; the others stay blank.
pub open spec fn filled(placed: Seq<Tile>, cells: nat) -> Seq<Tile> {
    placed + Seq::new((cells - placed.len()) as nat, |_i: int| blank_tile())
}

/// The record of the tile at index `i` of a grid.
pub open spec fn encode_at(g: GridView, i: int) -> InstanceTileRaw {
    encode_spec(g.tiles[i].glyph, g.tiles[i].color, i % (g.cols as int), i / (g.cols as int), g.cols as int, g.rows as int)
}

impl View for Grid {
    type V = GridView;

    closed spec fn view(&self) -> GridView {
        GridView { cols: self.cols as nat, rows: self.rows as nat, tiles: self.tiles@ }
    }
}

/// The dimensions of a grid whose cells can all be drawn in one call.
pub open spec fn valid_dimensions(cols: nat, rows: nat) -> bool {
    cols > 0 && rows > 0 && cols * rows <= u32::MAX
}

impl Grid {
    #[verifier::type_invariant]
    closed spec fn inv(&self) -> bool {
        &&& valid_dimensions(self.cols as nat, self.rows as nat)
        &&& self.tiles@.len() == self.cols * self.rows
    }

    /// A grid of `cols` x `rows` cells whose first cells hold `placed`, in
    /// order, and whose other cells are blank.
    pub fn new(cols: usize, rows: usize, placed: &Vec<Tile>) -> (r: Result<Grid, GridError>)
        ensures
            (cols == 0 || rows == 0) <==> r == Err::<Grid, GridError>(GridError::EmptyDimension),
            (cols > 0 && rows > 0 && cols * rows > u32::MAX) <==> r == Err::<Grid, GridError>(GridError::TooLarge),
            (valid_dimensions(cols as nat, rows as nat) && placed@.len() > cols * rows)
                <==> r == Err::<Grid, GridError>(GridError::Overflow),
            r is Ok <==> valid_dimensions(cols as nat, rows as nat) && placed@.len() <= cols * rows,
            r matches Ok(g) ==> g@ == (GridView { cols: cols as nat, rows: rows as nat, tiles: filled(placed@, (cols * rows) as nat) }),
    {
        if cols == 0 || rows == 0 {
            return Err(GridError::EmptyDimension);
        }
        let cells = match cols.checked_mul(rows) {
            Some(n) => n,
            None => {
                return Err(GridError::TooLarge);
            },
        };
        if cells > u32::MAX as usize {
            return Err(GridError::TooLarge);
        }
        if placed.len() > cells {
            return Err(GridError::Overflow);
        }
        let mut tiles: Vec<Tile> = Vec::new();
        let mut i: usize = 0;
        while i < cells
            invariant
                i <= cells,
                placed@.len() <= cells,
                tiles@.len() == i,
                forall|j: int| 0 <= j < i ==> tiles@[j] == filled(placed@, cells as nat)[j],
            decreases cells - i,
        {
            if i < placed.len() {
                tiles.push(placed[i]);
            } else {
                tiles.push(Tile::default());
            }
            i = i + 1;
        }
        assert(tiles@ == filled(placed@, cells as nat));
        Ok(Grid { cols, rows, tiles })
    }

    /// The number of columns; also what holds of every grid's dimensions.
    pub fn cols(&self) -> (c: usize)
        ensures
            c == self@.cols,
            valid_dimensions(self@.cols, self@.rows),
            self@.tiles.len() == self@.cols * self@.rows,
    {
        proof {
            use_type_invariant(self);
        }
        self.cols
    }

    /// The number of rows.
    pub fn rows(&self) -> (c: usize)
        ensures
            c == self@.rows,
    {
        self.rows
    }

    /// The tiles, row-major.
    pub fn tiles(&self) -> (t: &Vec<Tile>)
        ensures
            t@ == self@.tiles,
    {
        &self.tiles
    }

    /// One instance record per tile, in the tiles' order, each placing its
    /// tile at its own cell.
    pub fn instances(&self) -> (r: Vec<InstanceTileRaw>)
        ensures
            r@.len() == self@.tiles.len(),
            forall|i: int| 0 <= i < r@.len() ==> r@[i] == encode_at(self@, i),
    {
        proof {
            use_type_invariant(self);
        }
        let cols = self.cols;
        let rows = self.rows;
        let n = self.tiles.len();
        assert(cols <= cols * rows && rows <= cols * rows) by (nonlinear_arith)
            requires
                cols > 0,
                rows > 0,
        ;
        let mut out: Vec<InstanceTileRaw> = Vec::new();
        let mut i: usize = 0;
        while i < n
            invariant
                n == self.tiles@.len(),
                n == cols * rows,
                cols == self.cols,
                rows == self.rows,
                valid_dimensions(cols as nat, rows as nat),
                cols <= u32::MAX,
                rows <= u32::MAX,
                i <= n,
                out@.len() == i,
                forall|j: int| 0 <= j < i ==> out@[j] == encode_at(self@, j),
            decreases n - i,
        {
            let t = self.tiles[i];
            let x = i % cols;
            let y = i / cols;
            assert(y < rows) by (nonlinear_arith)
                requires
                    i < cols * rows,
                    y == i / cols,
                    cols > 0,
            ;
            let data = TileRenderData { glyph: t.glyph, position: [x, y], color: t.color };
            let rec = data.get_instance_matrix(cols, rows);
            out.push(rec);
            i = i + 1;
        }
        out
    }

    /// The number of instance records that [`Grid::instances`] gives.
    pub fn instance_count(&self) -> (n: u32)
        ensures
            n == self@.tiles.len(),
    {
        proof {
            use_type_invariant(self);
        }
        self.tiles.len() as u32
    }
}

} // verus!

verus! {

/// The grid of `cols` x `rows` cells that a map's tiles fill.
pub open spec fn map_grid(world: Seq<Seq<char>>, characters: Map<u32, Character>, palette: Seq<Rgb>, cols: nat, rows: nat) -> GridView {
    GridView { cols, rows, tiles: filled(map_tiles(world, characters, palette), cols * rows) }
}

/// Building a grid from a map whose characters and colours are all known,
/// then encoding every tile, gives back each placed tile's glyph index and
/// colour exactly.
pub proof fn lemma_round_trip(
    world: Seq<Seq<char>>,
    characters: Map<u32, Character>,
    palette: Seq<Rgb>,
    cols: nat,
    rows: nat,
)
    requires
        colors_resolve(world, characters, palette),
        valid_dimensions(cols, rows),
        map_tiles(world, characters, palette).len() <= cols * rows,
    ensures
        forall|i: int| 0 <= i < map_tiles(world, characters, palette).len() ==> {
            &&& decoded_glyph(#[trigger] encode_at(map_grid(world, characters, palette, cols, rows), i))
                == map_tiles(world, characters, palette)[i].glyph
            &&& encode_at(map_grid(world, characters, palette, cols, rows), i).color
                == map_tiles(world, characters, palette)[i].color
        },
{
    let tiles = map_tiles(world, characters, palette);
    let g = map_grid(world, characters, palette, cols, rows);
    assert forall|i: int| 0 <= i < tiles.len() implies {
        &&& decoded_glyph(#[trigger] encode_at(g, i)) == tiles[i].glyph
        &&& encode_at(g, i).color == tiles[i].color
    } by {
        assert(g.tiles[i] == tiles[i]);
        let gl = tiles[i].glyph as int;
        assert(16 * (gl / 16) + gl % 16 == gl);
    }
}

} // verus!
