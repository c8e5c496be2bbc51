//! The chunk grid of a world.
//!
//! A map holds one chunk for each grid position from `-MAP_SIZE` up to, but
//! not including, `MAP_SIZE` in both directions. It stores them row by row:
//! [`MAP_SIDE`] chunks to a row, the row of the lowest `y` first, each row
//! from the lowest `x`. [`WorldMap::index_of`] is the place of a grid
//! position in that order.

use vstd::prelude::*;
use nalgebra::Vector2;
use crate::base::math::{vector2_new, vector2_xy, x2, y2};
use crate::base::types::PosScalar;
use crate::model::chunk::Chunk;
use crate::model::config;

verus! {

/// Number of chunks in one quadrant of the grid.
pub const MAP_AREA: usize = (config::MAP_SIZE * config::MAP_SIZE) as usize;

/// Number of chunks along one side of the grid.
pub const MAP_SIDE: usize = (2 * config::MAP_SIZE) as usize;

/// Number of chunks that a map holds.
pub const MAP_CHUNKS: usize = (4 * config::MAP_SIZE * config::MAP_SIZE) as usize;

/// The sizes of the map, as numbers.
pub proof fn lemma_map_sizes()
    ensures
        MAP_AREA == 1024,
        MAP_SIDE == 64,
        MAP_CHUNKS == 4096,
{
}

/// The chunks of a world, row by row from the lowest `y`, each row from the
/// lowest `x`.
pub struct WorldMap {
    loaded_chunks: Vec<Chunk>,
}

impl Clone for WorldMap {
    fn clone(&self) -> (m: Self)
        ensures
            m.chunks() == self.chunks(),
    {
        proof {
            use_type_invariant(self);
        }
        WorldMap { loaded_chunks: self.loaded_chunks.clone() }
    }
}

impl WorldMap {
    #[verifier::type_invariant]
    spec fn holds_every_chunk(&self) -> bool {
        self.loaded_chunks@.len() == MAP_CHUNKS
    }

    /// The chunks of the map, in storage order.
    pub closed spec fn chunks(&self) -> Seq<Chunk> {
        self.loaded_chunks@
    }

    /// Whether `(x, y)` is a position of the grid.
    pub open spec fn contains(x: int, y: int) -> bool {
        &&& -config::MAP_SIZE <= x < config::MAP_SIZE
        &&& -config::MAP_SIZE <= y < config::MAP_SIZE
    }

    /// The index of the chunk for grid position `(x, y)`.
    pub open spec fn index_of(x: int, y: int) -> int {
        (y + config::MAP_SIZE) * MAP_SIDE + (x + config::MAP_SIZE)
    }

    /// The grid `x` of the chunk stored at index `i`.
    pub open spec fn stored_x(i: int) -> int {
        i % (MAP_SIDE as int) - config::MAP_SIZE
    }

    /// The grid `y` of the chunk stored at index `i`.
    pub open spec fn stored_y(i: int) -> int {
        i / (MAP_SIDE as int) - config::MAP_SIZE
    }

    /// The index of a chunk, with the sizes of the map as numbers.
    pub proof fn lemma_index_of(x: int, y: int)
        ensures
            Self::index_of(x, y) == 64 * y + x + 2080,
    {
        lemma_map_sizes();
    }

    /// Every position of the grid has an index among the chunks, and the
    /// chunk stored at that index is the one for the position.
    pub proof fn lemma_index_in_map(x: int, y: int)
        requires
            Self::contains(x, y),
        ensures
            0 <= Self::index_of(x, y) < MAP_CHUNKS,
            Self::stored_x(Self::index_of(x, y)) == x,
            Self::stored_y(Self::index_of(x, y)) == y,
    {
        lemma_map_sizes();
    }

    /// Two positions of the grid with one index are one position: each
    /// chunk belongs to a single position.
    pub proof fn lemma_index_injective(x: int, y: int, u: int, v: int)
        requires
            Self::contains(x, y),
            Self::contains(u, v),
            Self::index_of(x, y) == Self::index_of(u, v),
        ensures
            x == u,
            y == v,
    {
        Self::lemma_index_in_map(x, y);
        Self::lemma_index_in_map(u, v);
    }

    /// Whether `chunks` holds `n` chunks, each empty and at the grid position
    /// that goes with its index.
    pub open spec fn filled(chunks: Seq<Chunk>, n: int) -> bool {
        &&& chunks.len() == n
        &&& forall|i: int|
            0 <= i < n ==> {
                let c = #[trigger] chunks[i];
                &&& c.is_empty()
                &&& x2(c.spec_pos()) == Self::stored_x(i)
                &&& y2(c.spec_pos()) == Self::stored_y(i)
            }
    }

    /// Whether the map is as [`WorldMap::new`] makes it: [`MAP_CHUNKS`]
    /// chunks, each empty and at the grid position that goes with its index.
    pub open spec fn is_fresh(&self) -> bool {
        Self::filled(self.chunks(), MAP_CHUNKS as int)
    }

    /// A map of empty chunks, one for each position of the grid.
    pub fn new() -> (m: Box<WorldMap>)
        ensures
            m.is_fresh(),
    {
        let mut chunks = Vec::<Chunk>::new();
        chunks.reserve(MAP_AREA);
        let signed_size = config::MAP_SIZE as PosScalar;
        let mut y: PosScalar = -signed_size;
        while y < signed_size
            invariant
                signed_size == config::MAP_SIZE,
                -signed_size <= y <= signed_size,
                Self::filled(chunks@, (y + signed_size) * MAP_SIDE),
            decreases signed_size - y,
        {
            let mut x: PosScalar = -signed_size;
            while x < signed_size
                invariant
                    signed_size == config::MAP_SIZE,
                    -signed_size <= y < signed_size,
                    -signed_size <= x <= signed_size,
                    Self::filled(chunks@, (y + signed_size) * MAP_SIDE + (x + signed_size)),
                decreases signed_size - x,
            {
                let pos = vector2_new(x, y);
                chunks.push(Chunk::generate(pos));
                proof {
                    lemma_map_sizes();
                }
                x += 1;
            }
            proof {
                lemma_map_sizes();
            }
            y += 1;
        }
        Box::new(WorldMap { loaded_chunks: chunks })
    }

    /// The index of the chunk for `pos`, a position of the grid.
    pub fn pos_to_idx(pos: Vector2<PosScalar>) -> (idx: usize)
        requires
            Self::contains(x2(pos), y2(pos)),
        ensures
            idx == Self::index_of(x2(pos), y2(pos)),
            idx < MAP_CHUNKS,
    {
        let (x, y) = vector2_xy(&pos);
        let signed_map_size = config::MAP_SIZE as PosScalar;
        let signed_map_side = 2 * signed_map_size;
        proof {
            Self::lemma_index_in_map(x as int, y as int);
        }
        ((y + signed_map_size) * signed_map_side + (x + signed_map_size)) as usize
    }

    /// Whether `pos` is a position of the grid.
    pub fn contains_pos(pos: Vector2<PosScalar>) -> (held: bool)
        ensures
            held == Self::contains(x2(pos), y2(pos)),
    {
        let (x, y) = vector2_xy(&pos);
        let signed_map_size = config::MAP_SIZE as PosScalar;
        -signed_map_size <= x && x < signed_map_size && -signed_map_size <= y && y
            < signed_map_size
    }

    /// The chunk for `pos`, a position of the grid. In a fresh map it is the
    /// empty chunk that was generated for `pos`.
    pub fn loaded_chunk(&self, pos: Vector2<PosScalar>) -> (c: Option<&Chunk>)
        requires
            Self::contains(x2(pos), y2(pos)),
        ensures
            c == Some(&self.chunks()[Self::index_of(x2(pos), y2(pos))]),
            self.is_fresh() ==> {
                &&& c.unwrap().is_empty()
                &&& x2(c.unwrap().spec_pos()) == x2(pos)
                &&& y2(c.unwrap().spec_pos()) == y2(pos)
            },
    {
        proof {
            use_type_invariant(self);
            Self::lemma_index_in_map(x2(pos), y2(pos));
        }
        Some(&self.loaded_chunks[WorldMap::pos_to_idx(pos)])
    }
}

} // verus!
