//! The dimensions of the world.

use vstd::prelude::*;
use crate::base::types::SizeScalar;

verus! {

/// Edge length of a sub-chunk, in blocks.
pub const SUBCHUNK_SIZE: SizeScalar = 16;

/// Number of sub-chunks stacked in a chunk.
pub const BUILD_LIMIT: SizeScalar = 16;

/// Radius of the world, in chunks.
pub const MAP_SIZE: SizeScalar = 32;

} // verus!
