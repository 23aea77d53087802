//! The simulated world: chunks of voxels, addressed by integer coordinates.

pub mod chunk;
pub mod coords;
pub mod voxel;

use vstd::prelude::*;
use crate::world::voxel::array::{VoxelArray, chunk_volume};
use crate::world::voxel::Voxel;

verus! {

/// Produces the voxels of a chunk from the chunk's position.
pub trait ChunkGenerator {
    /// Generates the chunk at a position.
    fn generate(&self, x: i32, y: i32, z: i32) -> VoxelArray;
}

/// A world of generated chunks. For now it holds the chunk at the origin
/// only.
pub struct World {
    test_chunk: VoxelArray,
    chunk_generator: Box<dyn ChunkGenerator>,
}

impl World {
    /// The voxels of the chunk at the origin.
    pub closed spec fn origin_chunk(&self) -> Seq<Voxel> {
        self.test_chunk@
    }

    /// A world whose chunks come from the generator. The chunk at the
    /// origin is generated at once.
    pub fn new(chunk_generator: Box<dyn ChunkGenerator>) -> (world: World)
        ensures
            world.origin_chunk().len() == chunk_volume(),
    {
        let test_chunk = chunk_generator.generate(0, 0, 0);
        proof {
            use_type_invariant(&test_chunk);
        }
        World::with_origin_chunk(test_chunk, chunk_generator)
    }

    /// A world that holds the given chunk at the origin.
    pub fn with_origin_chunk(test_chunk: VoxelArray, chunk_generator: Box<dyn ChunkGenerator>) -> (world:
        World)
        ensures
            world.origin_chunk() == test_chunk@,
    {
        World { test_chunk, chunk_generator }
    }

    /// The chunk at a chunk position. Only the origin is there.
    pub fn get_chunk_at_position(&self, x_chunk: i32, y_chunk: i32, z_chunk: i32) -> (chunk:
        &VoxelArray)
        requires
            x_chunk == 0,
            y_chunk == 0,
            z_chunk == 0,
        ensures
            chunk@ == self.origin_chunk(),
    {
        &self.test_chunk
    }
}

} // verus!
