//! A voxel-world core: chunks of occupied cells, face-culling surface
//! extraction into flat vertex/index buffers, and the per-tick scene
//! pipeline (scene lifecycle, event queue, input edge state, tick timing)
//! that drives a renderer living outside this crate.

pub mod builder;
pub mod chunk;
pub mod events;
pub mod input;
pub mod light;
pub mod scene;
pub mod time;
pub mod vertex;
