//! A voxel-world engine core: integer positions, blocks, chunks and the
//! fixed chunk grid of a world, together with the decision logic of the
//! client and server programs built on it.
//!
//! Positions are `nalgebra` vectors of [`base::PosScalar`]. Everything that
//! the engine computes from them is specified over their coordinates.

pub mod base;
pub mod model;
pub mod app;
pub mod server;
pub mod client;
pub mod rendering;
