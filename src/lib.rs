//! Integer and byte logic of a small OpenGL renderer: the vertex attribute
//! layout handed to the GPU, the outcome of shader compilation and linking,
//! texture preparation, and the discrete part of the free-fly camera's
//! keyboard movement.

pub mod layout;
pub mod shader;
pub mod texture;
pub mod camera;
