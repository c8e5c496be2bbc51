//! The world model: blocks, sub-chunks, chunks, the chunk grid and the world.

pub mod block;
pub mod chunk;
pub mod config;
pub mod map;
pub mod world;

pub use self::block::{Block, BlockType};
pub use self::chunk::{Chunk, SubChunk};
pub use self::map::WorldMap;
pub use self::world::World;
