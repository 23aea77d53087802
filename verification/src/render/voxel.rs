//! How voxels are turned into what the graphics device draws.

pub mod mesh;

pub use crate::render::voxel::mesh::AppearanceAttribute;
