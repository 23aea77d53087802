//! Engine core of a voxel game: the windowing command bus that lets worker
//! threads drive a window owned by the platform's event loop thread, the
//! voxel world model that the renderer reads, and the bookkeeping of the
//! resources and buffers around them.

pub mod event_loop;
pub mod render;
pub mod res;
pub mod world;
