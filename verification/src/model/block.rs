//! A single block of the world, packed into sixteen bits.

use vstd::prelude::*;

verus! {

/// What a block is made of.
pub enum BlockType {
    Air,
    Grass,
}

/// The packed representation of a block.
pub type BlockData = u16;

/// A run of `size` bits that starts at bit `begin` of a [`BlockData`].
pub struct BitRange {
    pub begin: u8,
    pub size: u8,
}

/// The bits that hold the block type.
pub fn type_bits() -> (r: BitRange)
    ensures
        r == (BitRange { begin: 0, size: 10 }),
{
    BitRange { begin: 0, size: 10 }
}

/// The bits that hold the visibility of the six faces.
pub fn visible_bits() -> (r: BitRange)
    ensures
        r == (BitRange { begin: 10, size: 6 }),
{
    BitRange { begin: 10, size: 6 }
}

/// Accepts every list of bit ranges.
pub fn validate_bit_range<T>(ranges: &[BitRange]) -> (ok: bool)
    ensures
        ok,
{
    true
}

/// One block.
#[derive(Debug, Copy, Clone)]
pub struct Block {
    data: BlockData,
}

impl View for Block {
    type V = BlockData;

    /// The packed bits of the block.
    closed spec fn view(&self) -> BlockData {
        self.data
    }
}

impl Block {
    /// A block with all bits clear.
    pub fn new() -> (b: Block)
        ensures
            b@ == 0,
    {
        Block { data: 0 }
    }

    /// The type of the block: air, whatever bits it holds.
    pub fn block_type(&self) -> (t: BlockType)
        ensures
            t == BlockType::Air,
    {
        BlockType::Air
    }
}

} // verus!
