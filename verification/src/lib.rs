//! Verified core of an OpenGL wrapper: enum conversions, vertex attribute formats,
//! client-side images, buffer slices, texture dimensions and GLSL helpers.

pub mod glenum;
pub mod layout;
pub mod buffer;
pub mod pixels;
pub mod image;
pub mod texture;
pub mod glsl;
pub mod pixel_data;
pub mod vertex;
pub mod context;
pub mod label;
pub mod program;
