//! Tile grids of coloured glyphs and the data that draws them: a map of text
//! rows becomes a fixed grid of tiles, each tile an instance record for a
//! unit quad, and a two-pass frame (sprite pass, post-process pass) is planned
//! from the renderer's state.

pub mod tile;
pub mod config;
pub mod instance;
pub mod grid;
pub mod texture;
pub mod mesh;
pub mod frame;
pub mod layout;
