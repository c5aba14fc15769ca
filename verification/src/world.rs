//! Integer coordinates shared with the block-world glue.
//!
//! Chunks are 16 by 16 columns of blocks; a block position selects the
//! chunk containing it by flooring each horizontal coordinate to a
//! multiple of sixteen.

use vstd::prelude::*;

verus! {

/// The position of a chunk: its horizontal coordinates in chunk units.
#[derive(Clone, Copy, Debug, Default, PartialEq, Eq, Hash, Structural)]
pub struct ChunkPosition {
    pub x: i32,
    pub z: i32,
}

/// The integer absolute value, as a mathematical quantity.
pub open spec fn abs_val(x: int) -> int {
    if x < 0 {
        -x
    } else {
        x
    }
}

impl ChunkPosition {
    /// Creates a chunk position from its coordinates.
    pub fn new(x: i32, z: i32) -> (r: ChunkPosition)
        ensures
            r.x == x,
            r.z == z,
    {
        ChunkPosition { x, z }
    }

    /// Computes the Manhattan distance from this chunk to another: the
    /// sum of the absolute coordinate differences.
    pub fn manhattan_distance(self, other: ChunkPosition) -> (r: i32)
        requires
            abs_val(self.x - other.x) + abs_val(self.z - other.z) <= 0x7FFF_FFFF,
        ensures
            r == abs_val(self.x - other.x) + abs_val(self.z - other.z),
    {
        let dx: i32 = if self.x >= other.x {
            self.x - other.x
        } else {
            other.x - self.x
        };
        let dz: i32 = if self.z >= other.z {
            self.z - other.z
        } else {
            other.z - self.z
        };
        dx + dz
    }
}

/// The position of a block in world coordinates.
#[derive(Clone, Copy, Debug, Default, PartialEq, Eq, Hash, Structural)]
pub struct BlockPosition {
    pub x: i32,
    pub y: i32,
    pub z: i32,
}

impl BlockPosition {
    /// Creates a block position from its coordinates.
    pub fn new(x: i32, y: i32, z: i32) -> (r: BlockPosition)
        ensures
            r.x == x,
            r.y == y,
            r.z == z,
    {
        BlockPosition { x, y, z }
    }

    /// The position of the chunk containing this block: each horizontal
    /// coordinate floored to its multiple of sixteen (an arithmetic
    /// shift right by four).
    pub fn chunk_pos(&self) -> (r: ChunkPosition)
        ensures
            r.x == self.x >> 4u32,
            r.z == self.z >> 4u32,
            16 * (r.x as int) <= self.x as int,
            (self.x as int) < 16 * (r.x as int) + 16,
            16 * (r.z as int) <= self.z as int,
            (self.z as int) < 16 * (r.z as int) + 16,
    {
        proof {
            let x = self.x;
            let z = self.z;
            assert((x >> 4u32) * 16 <= x && x < (x >> 4u32) * 16 + 16) by (bit_vector);
            assert((z >> 4u32) * 16 <= z && z < (z >> 4u32) * 16 + 16) by (bit_vector);
        }
        ChunkPosition { x: self.x >> 4u32, z: self.z >> 4u32 }
    }
}

impl core::ops::Add<BlockPosition> for BlockPosition {
    type Output = BlockPosition;

    /// Componentwise translation of a block position by another.
    fn add(self, rhs: BlockPosition) -> BlockPosition {
        BlockPosition { x: self.x + rhs.x, y: self.y + rhs.y, z: self.z + rhs.z }
    }
}

impl vstd::std_specs::ops::AddSpecImpl<BlockPosition> for BlockPosition {
    open spec fn obeys_add_spec() -> bool {
        true
    }

    /// Each coordinate sum must stay within its machine width.
    open spec fn add_req(self, rhs: BlockPosition) -> bool {
        &&& -0x8000_0000 <= self.x + rhs.x <= 0x7FFF_FFFF
        &&& -0x8000_0000 <= self.y + rhs.y <= 0x7FFF_FFFF
        &&& -0x8000_0000 <= self.z + rhs.z <= 0x7FFF_FFFF
    }

    open spec fn add_spec(self, rhs: BlockPosition) -> BlockPosition {
        (BlockPosition {
            x: (self.x + rhs.x) as i32,
            y: (self.y + rhs.y) as i32,
            z: (self.z + rhs.z) as i32,
        })
    }
}

/// The coordinates of a block within its chunk: the low four bits of
/// each horizontal coordinate, and the vertical coordinate unchanged.
/// Together with [`BlockPosition::chunk_pos`] this decomposes a block
/// position: the world coordinate is sixteen times the chunk coordinate
/// plus the chunk-relative one.
pub fn chunk_relative_pos(block_pos: BlockPosition) -> (r: (usize, usize, usize))
    ensures
        r.0 == (block_pos.x & 0xf) as usize,
        r.2 == (block_pos.z & 0xf) as usize,
        r.0 < 16,
        r.2 < 16,
        block_pos.x as int == 16 * ((block_pos.x >> 4u32) as int) + r.0,
        block_pos.z as int == 16 * ((block_pos.z >> 4u32) as int) + r.2,
        block_pos.y >= 0 ==> r.1 == block_pos.y,
{
    proof {
        let x = block_pos.x;
        let z = block_pos.z;
        assert(0 <= (x & 0xf) && (x & 0xf) < 16 && x == 16 * (x >> 4u32) + (x & 0xf))
            by (bit_vector);
        assert(0 <= (z & 0xf) && (z & 0xf) < 16 && z == 16 * (z >> 4u32) + (z & 0xf))
            by (bit_vector);
    }
    (
        (block_pos.x & 0xf) as usize,
        #[verifier::truncate] (block_pos.y as usize),
        (block_pos.z & 0xf) as usize,
    )
}

} // verus!
