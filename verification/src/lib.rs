//! A software 3D rendering pipeline over fixed-point arithmetic.
//!
//! The crate renders a triangle mesh to a pixel buffer in several verified
//! stages: transform-matrix construction, a vertex stage, an edge-function
//! rasterizer with barycentric interpolation, a family of procedural
//! fragment shaders, and a depth-tested pixel sink.
//!
//! All geometry is carried in signed 64-bit fixed-point scalars with a
//! decimal scale of one million units per 1.0 (see [`fx`]).

pub mod color;
pub mod fragment;
pub mod framebuffer;
pub mod fx;
pub mod matrix;
pub mod raster;
pub mod render;
pub mod shaders;
pub mod uniforms;
pub mod vec3;
pub mod vertex;
