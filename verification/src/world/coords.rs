//! Conversions between the coordinate frames of voxels.
//!
//! There are three kinds of coordinates:
//! - chunk-local voxel coordinates (local coordinates, `u32`), which index
//!   the voxels within one chunk, relative to the chunk's origin;
//! - global chunk coordinates (chunk coordinates, `i32`), which say where a
//!   chunk lies in the world;
//! - global voxel coordinates (global coordinates, `i32`), which are
//!   relative to the world's origin.
//!
//! Coordinates are passed with their components apart, or as tuples named
//! `xyz_*` where a function takes more than one set.

use vstd::prelude::*;
use crate::world::chunk::size::{CHUNK_SIZE_X, CHUNK_SIZE_Y, CHUNK_SIZE_Z};

verus! {

/// A local coordinate read as a signed number: itself up to `i32::MAX`, and
/// wrapped around beyond.
pub open spec fn local_as_signed(local: u32) -> int {
    if local <= i32::MAX {
        local as int
    } else {
        local - 0x1_0000_0000
    }
}

/// A chunk coordinate read as an unsigned number: itself from zero on, and
/// wrapped around below.
pub open spec fn chunk_as_unsigned(chunk: i32) -> int {
    if chunk >= 0 {
        chunk as int
    } else {
        chunk + 0x1_0000_0000
    }
}

/// One component of the global position of a voxel: as many chunk widths as
/// the chunk coordinate says, and the local coordinate on top.
pub open spec fn global_component(local: u32, chunk: i32) -> int {
    local_as_signed(local) + chunk * CHUNK_SIZE_X
}

/// The chunk coordinate that a global coordinate falls into, for chunks of
/// the given extent: the quotient, rounded down.
pub open spec fn chunk_of(global: int, extent: int) -> int {
    global / extent
}

/// How far a global coordinate lies from the origin of its chunk, for chunks
/// of the given extent: the remainder, never negative.
pub open spec fn offset_in_chunk(global: int, extent: int) -> int {
    global % extent
}

/// Whether a component of a global position can be computed in 32 bits: the
/// chunk's origin and the voxel's position are both in range.
pub open spec fn fits(local: u32, chunk: i32) -> bool {
    &&& i32::MIN <= chunk * CHUNK_SIZE_X <= i32::MAX
    &&& i32::MIN <= global_component(local, chunk) <= i32::MAX
}

/// The global coordinates of the voxel at local coordinates within the chunk
/// at chunk coordinates. Every axis is scaled by the chunk's extent along
/// `x`.
pub fn local_to_global(xyz_local: (u32, u32, u32), xyz_chunk: (i32, i32, i32)) -> (xyz_global: (
    i32,
    i32,
    i32,
))
    requires
        fits(xyz_local.0, xyz_chunk.0),
        fits(xyz_local.1, xyz_chunk.1),
        fits(xyz_local.2, xyz_chunk.2),
    ensures
        xyz_global.0 == global_component(xyz_local.0, xyz_chunk.0),
        xyz_global.1 == global_component(xyz_local.1, xyz_chunk.1),
        xyz_global.2 == global_component(xyz_local.2, xyz_chunk.2),
{
    let width: i32 = CHUNK_SIZE_X as i32;
    (
        signed(xyz_local.0) + xyz_chunk.0 * width,
        signed(xyz_local.1) + xyz_chunk.1 * width,
        signed(xyz_local.2) + xyz_chunk.2 * width,
    )
}

/// The local coordinates and the chunk coordinates that belong to global
/// coordinates. The chunk coordinates are the global ones divided by the
/// chunk's extent, rounded down. The local `x` is the remainder of that
/// division; the local `y` and `z` repeat the chunk coordinate, read as an
/// unsigned number.
pub fn global_to_local(x: i32, y: i32, z: i32) -> (split: ((u32, u32, u32), (i32, i32, i32)))
    ensures
        split.1.0 == chunk_of(x as int, CHUNK_SIZE_X as int),
        split.1.1 == chunk_of(y as int, CHUNK_SIZE_Y as int),
        split.1.2 == chunk_of(z as int, CHUNK_SIZE_Z as int),
        split.0.0 == offset_in_chunk(x as int, CHUNK_SIZE_X as int),
        split.0.1 == chunk_as_unsigned(split.1.1),
        split.0.2 == chunk_as_unsigned(split.1.2),
{
    let chunk_coords = (
        floor_div(x, CHUNK_SIZE_X as i32),
        floor_div(y, CHUNK_SIZE_Y as i32),
        floor_div(z, CHUNK_SIZE_Z as i32),
    );
    let local_coords = (
        floor_rem(x, CHUNK_SIZE_X as i32),
        unsigned(chunk_coords.1),
        unsigned(chunk_coords.2),
    );
    (local_coords, chunk_coords)
}

/// The global `x` is found again from what [`global_to_local`] makes of it.
pub proof fn lemma_global_x_round_trip(x: i32)
    ensures
        global_component(
            offset_in_chunk(x as int, CHUNK_SIZE_X as int) as u32,
            chunk_of(x as int, CHUNK_SIZE_X as int) as i32,
        ) == x,
{
}

fn signed(local: u32) -> (value: i32)
    ensures
        value == local_as_signed(local),
{
    let value =
    #[verifier::truncate]
    (local as i32);
    assert(value as i64 == (if local <= 0x7fff_ffffu32 {
        local as i64
    } else {
        (local as i64 - 0x1_0000_0000i64) as i64
    })) by (bit_vector)
        requires
            value == local as i32,
    ;
    value
}

fn unsigned(chunk: i32) -> (value: u32)
    ensures
        value == chunk_as_unsigned(chunk),
{
    let value =
    #[verifier::truncate]
    (chunk as u32);
    assert(value as i64 == (if chunk >= 0i32 {
        chunk as i64
    } else {
        (chunk as i64 + 0x1_0000_0000i64) as i64
    })) by (bit_vector)
        requires
            value == chunk as u32,
    ;
    value
}

fn floor_div(value: i32, extent: i32) -> (quotient: i32)
    requires
        extent > 1,
    ensures
        quotient == chunk_of(value as int, extent as int),
{
    assert(i32::MIN <= (value as int) / (extent as int) <= i32::MAX) by (nonlinear_arith)
        requires
            extent > 1,
            i32::MIN <= value <= i32::MAX,
    ;
    match value.checked_div_euclid(extent) {
        Some(quotient) => quotient,
        None => 0,
    }
}

fn floor_rem(value: i32, extent: i32) -> (remainder: u32)
    requires
        extent > 1,
    ensures
        remainder == offset_in_chunk(value as int, extent as int),
{
    assert(0 <= (value as int) % (extent as int) < extent) by (nonlinear_arith)
        requires
            extent > 1,
    ;
    match value.checked_rem_euclid(extent) {
        Some(remainder) => remainder as u32,
        None => 0,
    }
}

} // verus!
