//! Sizes of vertex buffers. Device memory is handed out in whole blocks.

use vstd::prelude::*;

verus! {

/// The size of one block of buffer memory, in bytes.
pub const BLOCK_SIZE: u64 = 4096;

/// The least number of blocks that hold the given number of bytes.
pub open spec fn minimum_block_count(bytes: int) -> int {
    if bytes % (BLOCK_SIZE as int) > 0 {
        bytes / (BLOCK_SIZE as int) + 1
    } else {
        bytes / (BLOCK_SIZE as int)
    }
}

/// The minimum block count holds the bytes, and no smaller count does.
pub proof fn lemma_minimum_block_count_is_least(bytes: int, blocks: int)
    requires
        0 <= bytes,
        0 <= blocks,
    ensures
        bytes <= minimum_block_count(bytes) * BLOCK_SIZE,
        bytes <= blocks * BLOCK_SIZE ==> minimum_block_count(bytes) <= blocks,
{
}

/// Computes the least number of blocks that hold the given number of bytes.
pub fn calculate_minimum_block_count(bytes: u64) -> (blocks: u64)
    ensures
        blocks == minimum_block_count(bytes as int),
{
    let blocks = bytes / BLOCK_SIZE;
    let remainder = bytes - (blocks * BLOCK_SIZE);
    if remainder > 0 {
        blocks + 1
    } else {
        blocks
    }
}

/// Mathematical model of a [`VertexBuffer`].
pub struct VertexBufferView {
    /// How many blocks the device buffer has.
    pub allocated_blocks: int,
    /// How many bytes of it the vertices take.
    pub used_bytes: int,
}

/// Keeps the books of a vertex buffer on the device: how much is allocated
/// and how much of it is used. The buffer itself is the caller's.
pub struct VertexBuffer {
    allocated_blocks: u64,
    used_bytes: u64,
}

impl View for VertexBuffer {
    type V = VertexBufferView;

    closed spec fn view(&self) -> VertexBufferView {
        VertexBufferView {
            allocated_blocks: self.allocated_blocks as int,
            used_bytes: self.used_bytes as int,
        }
    }
}

impl VertexBuffer {
    /// The books of a fresh buffer: one block, nothing used.
    pub fn new() -> (buffer: VertexBuffer)
        ensures
            buffer@ == (VertexBufferView { allocated_blocks: 1, used_bytes: 0 }),
    {
        VertexBuffer { allocated_blocks: 1, used_bytes: 0 }
    }

    /// How many blocks the device buffer has, or has to have after a
    /// reallocation was called for.
    pub fn allocated_blocks(&self) -> (blocks: u64)
        ensures
            blocks == self@.allocated_blocks,
    {
        self.allocated_blocks
    }

    /// How many bytes of the buffer the vertices take.
    pub fn used_bytes(&self) -> (bytes: u64)
        ensures
            bytes == self@.used_bytes,
    {
        self.used_bytes
    }

    /// Makes room for `count` vertices of `vertex_size` bytes each. Says
    /// whether the device buffer is too small and has to be allocated anew,
    /// then with the minimum block count for the vertices. A buffer that is
    /// large enough is kept, however much larger it is.
    pub fn reallocate_vertices(&mut self, count: u64, vertex_size: u64) -> (reallocate: bool)
        requires
            count * vertex_size <= u64::MAX,
        ensures
            reallocate == (old(self)@.allocated_blocks < minimum_block_count(count * vertex_size)),
            final(self)@.used_bytes == count * vertex_size,
            final(self)@.allocated_blocks == (if reallocate {
                minimum_block_count(count * vertex_size)
            } else {
                old(self)@.allocated_blocks
            }),
    {
        let target_byte_count = count * vertex_size;
        let target_block_count = calculate_minimum_block_count(target_byte_count);
        let reallocate = self.allocated_blocks < target_block_count;
        if reallocate {
            self.allocated_blocks = target_block_count;
        }
        self.used_bytes = target_byte_count;
        reallocate
    }
}

} // verus!
