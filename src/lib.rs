//! The scene of a small rendering demo, as plain values: the camera and how
//! keys move it, the triangle drawn through a custom pipeline, its index
//! buffer, vertex layout, uniform block and color, and the shader sources.

pub mod camera;
pub mod scene;
pub mod shaders;
