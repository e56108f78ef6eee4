//! A chunked voxel world: sparse chunk storage with coordinate
//! normalisation, a face mesh builder, a view-distance mesh cache, the
//! packed object-ID codec used for GPU picking, and the held-key movement
//! state of the camera.

pub mod types;
pub mod block;
pub mod chunk;
pub mod chunks;
pub mod game;
pub mod picking;
pub mod camera;
pub mod chunk_buffer;
pub mod event;
