//! Sub-chunks and chunks: fixed arrays of blocks, and how a position finds
//! its block in them.
//!
//! A sub-chunk is a cube of edge [`config::SUBCHUNK_SIZE`], and every
//! position of the cube has a block of its own. A chunk is a column of
//! [`SUBCHUNK_COUNT`] sub-chunks: the height of a position picks the
//! sub-chunk, and the remainders of its coordinates by the edge are the
//! position within it.

use vstd::prelude::*;
use nalgebra::{Vector2, Vector3};
use crate::base::math::{vector3_new, vector3_xyz, x3, y3, z3};
use crate::base::types::{PosScalar, SizeScalar};
use crate::model::block::Block;
use crate::model::config;

verus! {

/// Number of blocks in a sub-chunk.
pub const SUBCHUNK_VOLUME: usize = (config::SUBCHUNK_SIZE * config::SUBCHUNK_SIZE
    * config::SUBCHUNK_SIZE) as usize;

/// Number of sub-chunks in a chunk.
pub const SUBCHUNK_COUNT: usize = config::BUILD_LIMIT as usize;

/// Height of a chunk, in blocks.
pub const CHUNK_HEIGHT: usize = (config::BUILD_LIMIT * config::SUBCHUNK_SIZE) as usize;

/// A cube of blocks.
#[derive(Copy, Clone)]
pub struct SubChunk {
    blocks: [Block; SUBCHUNK_VOLUME],
}

/// A column of sub-chunks at a position of the chunk grid.
#[derive(Copy, Clone)]
pub struct Chunk {
    pos: Vector2<PosScalar>,
    sub_chunks: [SubChunk; SUBCHUNK_COUNT],
}

/// The sizes of sub-chunks and chunks, as numbers.
pub proof fn lemma_chunk_sizes()
    ensures
        SUBCHUNK_VOLUME == 4096,
        SUBCHUNK_COUNT == 16,
        CHUNK_HEIGHT == 256,
{
}

/// The remainder of `a` by a positive `n` that has the sign of `a`.
pub open spec fn rem_toward_zero(a: int, n: int) -> int {
    if a >= 0 {
        a % n
    } else {
        -((-a) % n)
    }
}

impl View for SubChunk {
    type V = Seq<Block>;

    closed spec fn view(&self) -> Seq<Block> {
        self.blocks@
    }
}

impl SubChunk {
    /// Whether `(x, y, z)` is a position of the cube.
    pub open spec fn contains(x: int, y: int, z: int) -> bool {
        &&& 0 <= x < config::SUBCHUNK_SIZE
        &&& 0 <= y < config::SUBCHUNK_SIZE
        &&& 0 <= z < config::SUBCHUNK_SIZE
    }

    /// The index of the block at `(x, y, z)`: layer by layer upwards, each
    /// layer row by row along `y`, each row along `x`.
    pub open spec fn index_of(x: int, y: int, z: int) -> int {
        z * config::SUBCHUNK_SIZE * config::SUBCHUNK_SIZE + y * config::SUBCHUNK_SIZE + x
    }

    /// Whether every block has all bits clear.
    pub open spec fn is_empty(&self) -> bool {
        forall|i: int| 0 <= i < SUBCHUNK_VOLUME ==> (#[trigger] self@[i])@ == 0
    }

    /// The index of a block, with the edge of the cube as a number.
    pub proof fn lemma_index_of(x: int, y: int, z: int)
        ensures
            Self::index_of(x, y, z) == 256 * z + 16 * y + x,
    {
        assert(z * config::SUBCHUNK_SIZE * config::SUBCHUNK_SIZE == 256 * z) by (nonlinear_arith)
            requires
                config::SUBCHUNK_SIZE == 16,
        ;
    }

    /// Every position of the cube has an index among the blocks.
    pub proof fn lemma_index_in_volume(x: int, y: int, z: int)
        requires
            Self::contains(x, y, z),
        ensures
            0 <= Self::index_of(x, y, z) < SUBCHUNK_VOLUME,
    {
        Self::lemma_index_of(x, y, z);
    }

    /// Two positions of the cube with one index are one position: each
    /// block belongs to a single position.
    pub proof fn lemma_index_injective(x: int, y: int, z: int, u: int, v: int, w: int)
        requires
            Self::contains(x, y, z),
            Self::contains(u, v, w),
            Self::index_of(x, y, z) == Self::index_of(u, v, w),
        ensures
            x == u,
            y == v,
            z == w,
    {
        Self::lemma_index_of(x, y, z);
        Self::lemma_index_of(u, v, w);
    }

    /// A sub-chunk holds [`SUBCHUNK_VOLUME`] blocks.
    pub proof fn lemma_volume(&self)
        ensures
            self@.len() == SUBCHUNK_VOLUME,
    {
    }

    /// A sub-chunk of blocks with all bits clear.
    pub fn empty() -> (s: SubChunk)
        ensures
            s@.len() == SUBCHUNK_VOLUME,
            s.is_empty(),
    {
        SubChunk { blocks: [Block::new();SUBCHUNK_VOLUME] }
    }

    /// The index of the block at `local_pos`, a position of the cube.
    pub fn pos_to_idx(local_pos: Vector3<PosScalar>) -> (idx: usize)
        requires
            Self::contains(x3(local_pos), y3(local_pos), z3(local_pos)),
        ensures
            idx == Self::index_of(x3(local_pos), y3(local_pos), z3(local_pos)),
            idx < SUBCHUNK_VOLUME,
    {
        let (x, y, z) = vector3_xyz(&local_pos);
        let signed_size = config::SUBCHUNK_SIZE as PosScalar;
        proof {
            Self::lemma_index_of(x as int, y as int, z as int);
        }
        (z * signed_size * signed_size + y * signed_size + x) as usize
    }

    /// Whether `local_pos` is a position of the cube.
    pub fn contains_pos(local_pos: Vector3<PosScalar>) -> (held: bool)
        ensures
            held == Self::contains(x3(local_pos), y3(local_pos), z3(local_pos)),
    {
        let (x, y, z) = vector3_xyz(&local_pos);
        let signed_size = config::SUBCHUNK_SIZE as PosScalar;
        0 <= x && x < signed_size && 0 <= y && y < signed_size && 0 <= z && z < signed_size
    }

    /// The block at `local_pos`, a position of the cube. In an empty
    /// sub-chunk it has all bits clear.
    pub fn block(&self, local_pos: Vector3<PosScalar>) -> (b: Option<&Block>)
        requires
            Self::contains(x3(local_pos), y3(local_pos), z3(local_pos)),
        ensures
            b == Some(&self@[Self::index_of(x3(local_pos), y3(local_pos), z3(local_pos))]),
            self.is_empty() ==> b.unwrap()@ == 0,
    {
        Some(&self.blocks[SubChunk::pos_to_idx(local_pos)])
    }
}

impl Chunk {
    /// The position of the chunk on the chunk grid.
    pub closed spec fn spec_pos(&self) -> Vector2<PosScalar> {
        self.pos
    }

    /// The sub-chunks of the chunk, lowest first.
    pub closed spec fn sub_chunks(&self) -> Seq<SubChunk> {
        self.sub_chunks@
    }

    /// Whether every sub-chunk is empty.
    pub open spec fn is_empty(&self) -> bool {
        forall|i: int| 0 <= i < SUBCHUNK_COUNT ==> (#[trigger] self.sub_chunks()[i]).is_empty()
    }

    /// The coordinate within a sub-chunk that goes with the coordinate `c`
    /// within the chunk.
    pub open spec fn local(c: int) -> int {
        rem_toward_zero(c, config::SUBCHUNK_SIZE as int)
    }

    /// A height as the [`SizeScalar`] with the same bits: a negative height
    /// comes out above every positive one.
    pub open spec fn unsigned_height(z: int) -> int {
        if z >= 0 {
            z
        } else {
            z + 0x1_0000_0000
        }
    }

    /// The index of the sub-chunk that holds height `z`.
    pub open spec fn index_of(z: int) -> int {
        Self::unsigned_height(z) / (config::SUBCHUNK_SIZE as int)
    }

    /// Whether the chunk has a sub-chunk at height `z`.
    pub open spec fn contains_height(z: int) -> bool {
        0 <= z < CHUNK_HEIGHT
    }

    /// Whether the chunk has a block at `(x, y, z)`: the height is within
    /// the chunk, and `x` and `y` are not negative, so that their remainders
    /// are a position of a sub-chunk.
    pub open spec fn contains(x: int, y: int, z: int) -> bool {
        &&& 0 <= x
        &&& 0 <= y
        &&& Self::contains_height(z)
    }

    /// A chunk holds [`SUBCHUNK_COUNT`] sub-chunks.
    pub proof fn lemma_count(&self)
        ensures
            self.sub_chunks().len() == SUBCHUNK_COUNT,
    {
    }

    /// A height within the chunk has a sub-chunk of the chunk, and only such
    /// a height has one.
    pub proof fn lemma_index_in_chunk(z: int)
        requires
            PosScalar::MIN <= z <= PosScalar::MAX,
        ensures
            Self::contains_height(z) <==> Self::index_of(z) < SUBCHUNK_COUNT,
            Self::contains_height(z) ==> Self::index_of(z) == z / 16,
    {
        lemma_chunk_sizes();
    }

    /// A position that the chunk contains has a position of the cube as its
    /// local position.
    pub proof fn lemma_local_in_subchunk(x: int, y: int, z: int)
        requires
            Self::contains(x, y, z),
        ensures
            SubChunk::contains(Self::local(x), Self::local(y), Self::local(z)),
    {
    }

    /// A chunk of empty sub-chunks at `pos`.
    pub fn generate(pos: Vector2<PosScalar>) -> (c: Chunk)
        ensures
            c.spec_pos() == pos,
            c.sub_chunks().len() == SUBCHUNK_COUNT,
            c.is_empty(),
    {
        let sub_chunks = [SubChunk::empty();SUBCHUNK_COUNT];
        Chunk { pos, sub_chunks }
    }

    /// The position of the chunk on the chunk grid.
    #[verifier::when_used_as_spec(spec_pos)]
    pub fn pos(&self) -> (pos: Vector2<PosScalar>)
        ensures
            pos == self.spec_pos(),
    {
        self.pos
    }

    /// The index of the sub-chunk that holds `pos`. The height is read as a
    /// [`SizeScalar`], so a negative height gives an index past every
    /// sub-chunk.
    pub fn pos_to_idx(pos: Vector3<PosScalar>) -> (idx: usize)
        ensures
            idx == Self::index_of(z3(pos)),
            idx < SUBCHUNK_COUNT <==> Self::contains_height(z3(pos)),
    {
        let (_x, _y, z) = vector3_xyz(&pos);
        let height = #[verifier::truncate] (z as SizeScalar);
        assert(height == Self::unsigned_height(z as int)) by {
            assert(z >= 0 ==> (z as u32) as i64 == z as i64) by (bit_vector);
            assert(z < 0 ==> (z as u32) as i64 == (z as i64) + 0x1_0000_0000i64) by (bit_vector);
        }
        proof {
            Self::lemma_index_in_chunk(z as int);
        }
        (height / config::SUBCHUNK_SIZE) as usize
    }

    /// The position of `pos` within its sub-chunk: each coordinate is the
    /// remainder by the edge of a sub-chunk, with the sign of the coordinate.
    pub fn local_subchunk_pos(pos: Vector3<PosScalar>) -> (local: Vector3<PosScalar>)
        ensures
            x3(local) == Self::local(x3(pos)),
            y3(local) == Self::local(y3(pos)),
            z3(local) == Self::local(z3(pos)),
    {
        let (x, y, z) = vector3_xyz(&pos);
        let signed_size = config::SUBCHUNK_SIZE as i32;
        vector3_new(x % signed_size, y % signed_size, z % signed_size)
    }

    /// Whether the chunk has a block at `pos`.
    pub fn contains_pos(pos: Vector3<PosScalar>) -> (held: bool)
        ensures
            held == Self::contains(x3(pos), y3(pos), z3(pos)),
    {
        let (x, y, _z) = vector3_xyz(&pos);
        0 <= x && 0 <= y && Chunk::pos_to_idx(pos) < SUBCHUNK_COUNT
    }

    /// The sub-chunk that holds `pos`, whose height must be within the chunk.
    pub fn subchunk(&self, pos: Vector3<PosScalar>) -> (s: Option<&SubChunk>)
        requires
            Self::contains_height(z3(pos)),
        ensures
            s == Some(&self.sub_chunks()[Self::index_of(z3(pos))]),
    {
        Some(&self.sub_chunks[Chunk::pos_to_idx(pos)])
    }

    /// The block at `pos`, which the chunk must contain: the block that the
    /// sub-chunk at the height of `pos` holds at the local position. In an
    /// empty chunk it has all bits clear.
    pub fn block(&self, pos: Vector3<PosScalar>) -> (b: Option<&Block>)
        requires
            Self::contains(x3(pos), y3(pos), z3(pos)),
        ensures
            b == Some(
                &self.sub_chunks()[Self::index_of(z3(pos))]@[SubChunk::index_of(
                    Self::local(x3(pos)),
                    Self::local(y3(pos)),
                    Self::local(z3(pos)),
                )],
            ),
            self.is_empty() ==> b.unwrap()@ == 0,
    {
        proof {
            Self::lemma_local_in_subchunk(x3(pos), y3(pos), z3(pos));
            Self::lemma_index_in_chunk(z3(pos));
        }
        match self.subchunk(pos) {
            Some(subchunk) => subchunk.block(Chunk::local_subchunk_pos(pos)),
            None => None,
        }
    }
}

} // verus!
