//! Autotiling for a 2D grid of occupancy markers.
//!
//! Authors mark grid cells as occupied or empty; each ruleset pairs a tile
//! identifier with a 5x5 neighborhood pattern, and a bake pass selects, for
//! every cell, the tile of the first ruleset whose pattern matches that
//! cell's surroundings.

pub mod tilemap;
pub mod autotilemap;
pub mod laws;
