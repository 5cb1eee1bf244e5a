//! Drawable triangle meshes whose vertex and index buffers may live in host
//! memory, device memory, or both, and may be shared by several meshes.

pub mod buffer;
pub mod normals;
pub mod mesh;
