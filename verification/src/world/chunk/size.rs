//! The extent of a chunk, in voxels along each axis.

use vstd::prelude::*;

verus! {

pub const CHUNK_SIZE_X: usize = 16;

pub const CHUNK_SIZE_Y: usize = 16;

pub const CHUNK_SIZE_Z: usize = 16;

} // verus!
