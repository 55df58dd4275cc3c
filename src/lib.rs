//! Layout and start-up core of a sliding-tile puzzle on a square grid:
//! board geometry, unique random starting cells, and the board/tile records.

pub mod geometry;
pub mod cell;
pub mod sampler;
pub mod board;
pub mod color;
pub mod tile;
pub mod session;
