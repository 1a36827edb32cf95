use vstd::prelude::*;
use std::collections::HashMap;
use crate::tile::{Rgb, Tile};

verus! {

broadcast use vstd::std_specs::hash::group_hash_axioms;

/// Rows of the screen's tile grid.
pub const SCREEN_ROWS: usize = 24;

/// Columns of the screen's tile grid.
pub const SCREEN_COLS: usize = 32;

/// How one map character is drawn: its glyph, the index of its colour in the
/// palette, and whether it blocks movement.
#[derive(Clone, Copy, Debug, PartialEq, Eq, Structural)]
pub struct Character {
    pub color: usize,
    pub glyph: u8,
    pub solid: bool,
}

/// Window options: the window's size in logical pixels.
#[derive(Clone, Copy, Debug)]
pub struct Options {
    pub screen_size: [u32; 2],
}

/// The literal rows of the map, top row first.
pub struct WorldMap {
    pub world: Vec<String>,
}

/// The game's configuration: the character table (keyed by each character's
/// Unicode scalar value), window options, the colour palette and the map.
pub struct GameConfig {
    pub characters: HashMap<u32, Character>,
    pub options: Options,
    pub color: Vec<Rgb>,
    pub map: WorldMap,
}

/// Why a map cannot be turned into tiles.
#[derive(Clone, Copy, Debug, PartialEq, Eq, Structural)]
pub enum MapError {
    /// A character of the map names a palette entry that does not exist.
    ColorOutOfRange,
}

/// The key under which a character stands in the character table: its Unicode scalar value.
pub open spec fn key_of(c: char) -> u32 {
    c as u32
}

/// The tiles of one row: each character found in the table gives one tile,
/// in order; characters absent from the table are skipped.
pub open spec fn row_tiles(row: Seq<char>, characters: Map<u32, Character>, palette: Seq<Rgb>) -> Seq<Tile>
    decreases row.len(),
{
    if row.len() == 0 {
        seq![]
    } else {
        let rest = row_tiles(row.drop_last(), characters, palette);
        let key = key_of(row.last());
        if characters.contains_key(key) {
            let c = characters[key];
            rest.push(Tile { glyph: c.glyph, color: palette[c.color as int] })
        } else {
            rest
        }
    }
}

/// The tiles of all rows, row after row.
pub open spec fn map_tiles(rows: Seq<Seq<char>>, characters: Map<u32, Character>, palette: Seq<Rgb>) -> Seq<Tile>
    decreases rows.len(),
{
    if rows.len() == 0 {
        seq![]
    } else {
        map_tiles(rows.drop_last(), characters, palette) + row_tiles(rows.last(), characters, palette)
    }
}

/// Every character of the map that the table knows names an existing palette entry.
pub open spec fn colors_resolve(rows: Seq<Seq<char>>, characters: Map<u32, Character>, palette: Seq<Rgb>) -> bool {
    forall|r: int, i: int|
        0 <= r < rows.len() && 0 <= i < rows[r].len() && characters.contains_key(key_of(rows[r][i]))
            ==> characters[key_of(rows[r][i])].color < palette.len()
}

/// The map rows as sequences of characters.
pub open spec fn rows_view(world: Seq<String>) -> Seq<Seq<char>> {
    world.map_values(|s: String| s@)
}

impl GameConfig {
    /// The tiles that the map describes, row-major, with unknown characters skipped.
    pub fn get_map(&self) -> (r: Result<Vec<Tile>, MapError>)
        ensures
            r is Ok <==> colors_resolve(rows_view(self.map.world@), self.characters@, self.color@),
            r matches Ok(tiles) ==> tiles@ == map_tiles(rows_view(self.map.world@), self.characters@, self.color@),
    {
        let ghost rows = rows_view(self.map.world@);
        let ghost characters = self.characters@;
        let ghost palette = self.color@;
        let mut tiles: Vec<Tile> = Vec::new();
        let mut r: usize = 0;
        while r < self.map.world.len()
            invariant
                r <= self.map.world@.len(),
                rows == rows_view(self.map.world@),
                characters == self.characters@,
                palette == self.color@,
                tiles@ == map_tiles(rows.take(r as int), characters, palette),
                forall|q: int, i: int|
                    0 <= q < r && 0 <= i < rows[q].len() && characters.contains_key(key_of(rows[q][i]))
                        ==> characters[key_of(rows[q][i])].color < palette.len(),
            decreases self.map.world@.len() - r,
        {
            let line = self.map.world[r].as_str();
            let n = line.unicode_len();
            assert(rows.len() == self.map.world@.len());
            assert(line@ == rows[r as int]);
            let ghost before = tiles@;
            let mut i: usize = 0;
            while i < n
                invariant
                    r < self.map.world@.len(),
                    rows == rows_view(self.map.world@),
                    rows.len() == self.map.world@.len(),
                    line@ == rows[r as int],
                    n == line@.len(),
                    i <= n,
                    characters == self.characters@,
                    palette == self.color@,
                    tiles@ == before + row_tiles(line@.take(i as int), characters, palette),
                    forall|j: int|
                        0 <= j < i && characters.contains_key(key_of(line@[j]))
                            ==> characters[key_of(line@[j])].color < palette.len(),
                decreases n - i,
            {
                let c = line.get_char(i);
                let key = c as u32;
                assert(line@.take(i + 1).drop_last() == line@.take(i as int));
                match self.characters.get(&key) {
                    Some(ch) => {
                        if ch.color >= self.color.len() {
                            assert(characters.contains_key(key) && characters[key] == *ch);
                            assert(rows[r as int][i as int] == c);
                            assert(key == key_of(rows[r as int][i as int]));
                            assert(!colors_resolve(rows, characters, palette));
                            return Err(MapError::ColorOutOfRange);
                        }
                        tiles.push(Tile { glyph: ch.glyph, color: self.color[ch.color] });
                    },
                    None => {},
                }
                i = i + 1;
            }
            assert(line@.take(n as int) == line@);
            assert(rows.take(r + 1).drop_last() == rows.take(r as int));
            r = r + 1;
        }
        assert(rows.take(r as int) == rows);
        Ok(tiles)
    }
}

} // verus!

verus! {

/// A character absent from the table leaves no tile and no gap: a row with
/// it gives the same tiles, in the same slots, as the row without it.
pub proof fn lemma_unknown_skipped(
    before: Seq<char>,
    c: char,
    after: Seq<char>,
    characters: Map<u32, Character>,
    palette: Seq<Rgb>,
)
    requires
        !characters.contains_key(key_of(c)),
    ensures
        row_tiles(before + seq![c] + after, characters, palette) == row_tiles(before + after, characters, palette),
    decreases after.len(),
{
    let with = before + seq![c] + after;
    let without = before + after;
    if after.len() == 0 {
        assert(with.drop_last() == before);
        assert(without == before);
    } else {
        lemma_unknown_skipped(before, c, after.drop_last(), characters, palette);
        assert(with.drop_last() == before + seq![c] + after.drop_last());
        assert(without.drop_last() == before + after.drop_last());
        assert(with.last() == after.last());
        assert(without.last() == after.last());
    }
}

} // verus!
