//! Decoder for the tile data asset file of a tile-based game world: a fixed
//! region of land tile groups followed by a variable number of static tile
//! groups, turned into two dense lookup tables indexed by tile id.

pub mod cursor;
pub mod flags;
pub mod tiles;

pub use cursor::ByteCursor;
pub use flags::MulTileFlags;
pub use tiles::{LandTileData, StaticTileData, TileData, TileDataError};
