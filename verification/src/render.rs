//! What the renderer has to decide without touching the graphics device.

pub mod buffer;
pub mod voxel;
