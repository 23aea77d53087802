//! The voxels of one chunk.

use vstd::prelude::*;
use crate::world::chunk::size::{CHUNK_SIZE_X, CHUNK_SIZE_Y, CHUNK_SIZE_Z};
use crate::world::voxel::Voxel;

verus! {

/// How many voxels a chunk holds.
pub open spec fn chunk_volume() -> int {
    CHUNK_SIZE_X * CHUNK_SIZE_Y * CHUNK_SIZE_Z
}

/// Where the voxel at a position within the chunk stands in the array: the
/// voxels are laid out along `x` first, then `y`, then `z`.
pub open spec fn voxel_index(x: int, y: int, z: int) -> int {
    z * (CHUNK_SIZE_X * CHUNK_SIZE_Y) + y * CHUNK_SIZE_X + x
}

/// A chunk holds 4096 voxels, in 16 layers of 256.
pub proof fn lemma_chunk_volume()
    ensures
        CHUNK_SIZE_X * CHUNK_SIZE_Y == 256,
        chunk_volume() == 4096,
{
    assert(CHUNK_SIZE_X * CHUNK_SIZE_Y == 256) by (nonlinear_arith)
        requires
            CHUNK_SIZE_X == 16,
            CHUNK_SIZE_Y == 16,
    ;
    assert(256 * CHUNK_SIZE_Z == 4096) by (nonlinear_arith)
        requires
            CHUNK_SIZE_Z == 16,
    ;
}

/// Every position inside the chunk has a place in the array.
pub proof fn lemma_voxel_index_in_bounds(x: int, y: int, z: int)
    requires
        0 <= x < CHUNK_SIZE_X,
        0 <= y < CHUNK_SIZE_Y,
        0 <= z < CHUNK_SIZE_Z,
    ensures
        0 <= voxel_index(x, y, z) < chunk_volume(),
{
    lemma_chunk_volume();
}

/// Two positions inside the chunk that share a place in the array are the
/// same position.
pub proof fn lemma_voxel_index_injective(a: (int, int, int), b: (int, int, int))
    requires
        0 <= a.0 < CHUNK_SIZE_X,
        0 <= a.1 < CHUNK_SIZE_Y,
        0 <= a.2 < CHUNK_SIZE_Z,
        0 <= b.0 < CHUNK_SIZE_X,
        0 <= b.1 < CHUNK_SIZE_Y,
        0 <= b.2 < CHUNK_SIZE_Z,
        voxel_index(a.0, a.1, a.2) == voxel_index(b.0, b.1, b.2),
    ensures
        a == b,
{
    lemma_chunk_volume();
}

/// A chunk's grid of voxels.
pub struct VoxelArray {
    array: Vec<Voxel>,
}

impl View for VoxelArray {
    type V = Seq<Voxel>;

    closed spec fn view(&self) -> Seq<Voxel> {
        self.array@
    }
}

impl VoxelArray {
    /// An array holds one voxel for each position of a chunk.
    #[verifier::type_invariant]
    pub open spec fn well_formed(self) -> bool {
        self@.len() == chunk_volume()
    }

    /// A chunk filled with one voxel.
    pub fn new(default_voxel: Voxel) -> (array: VoxelArray)
        ensures
            array@.len() == chunk_volume(),
            forall|i: int| 0 <= i < chunk_volume() ==> array@[i] == default_voxel,
    {
        let mut array: Vec<Voxel> = Vec::new();
        let volume: usize = CHUNK_SIZE_X * CHUNK_SIZE_Y * CHUNK_SIZE_Z;
        while array.len() < volume
            invariant
                volume == chunk_volume(),
                array@.len() <= volume,
                forall|i: int| 0 <= i < array@.len() ==> array@[i] == default_voxel,
            decreases volume - array@.len(),
        {
            array.push(default_voxel);
        }
        VoxelArray { array }
    }

    /// The voxel at a position, given by its coordinates within the chunk.
    pub fn get_voxel_at_position(&self, x: usize, y: usize, z: usize) -> (voxel: &Voxel)
        requires
            voxel_index(x as int, y as int, z as int) < chunk_volume(),
        ensures
            *voxel == self@[voxel_index(x as int, y as int, z as int)],
    {
        proof {
            use_type_invariant(self);
        }
        &self.array[VoxelArray::get_voxel_index(x, y, z)]
    }

    /// Mutable access to the voxel at a position, given by its coordinates
    /// within the chunk. No other voxel changes.
    pub fn get_voxel_at_position_mut(&mut self, x: usize, y: usize, z: usize) -> (voxel: &mut Voxel)
        requires
            voxel_index(x as int, y as int, z as int) < chunk_volume(),
        ensures
            *voxel == old(self)@[voxel_index(x as int, y as int, z as int)],
            final(self)@ == old(self)@.update(
                voxel_index(x as int, y as int, z as int),
                *final(voxel),
            ),
    {
        proof {
            use_type_invariant(&*self);
        }
        let i = VoxelArray::get_voxel_index(x, y, z);
        &mut self.array[i]
    }

    /// The voxel at a place of the array.
    pub fn get_voxel_at_index(&self, i: usize) -> (voxel: &Voxel)
        requires
            i < chunk_volume(),
        ensures
            *voxel == self@[i as int],
    {
        proof {
            use_type_invariant(self);
        }
        &self.array[i]
    }

    /// Mutable access to the voxel at a place of the array. No other voxel
    /// changes.
    pub fn get_voxel_at_index_mut(&mut self, i: usize) -> (voxel: &mut Voxel)
        requires
            i < chunk_volume(),
        ensures
            *voxel == old(self)@[i as int],
            final(self)@ == old(self)@.update(i as int, *final(voxel)),
    {
        proof {
            use_type_invariant(&*self);
        }
        &mut self.array[i]
    }

    /// The place in the array of the voxel at a position.
    pub fn get_voxel_index(x: usize, y: usize, z: usize) -> (i: usize)
        requires
            voxel_index(x as int, y as int, z as int) <= usize::MAX,
        ensures
            i == voxel_index(x as int, y as int, z as int),
    {
        z * (CHUNK_SIZE_X * CHUNK_SIZE_Y) + y * CHUNK_SIZE_X + x
    }
}

} // verus!
