//! A CPU-only 3D triangle rasterizer over fixed-point coordinates.
//!
//! The pipeline transforms textured, lit meshes into a 2D color buffer:
//! a transform stack (model, look-at view, perspective or orthographic
//! projection), a vertex/fragment shader abstraction, a bounding-box
//! triangle rasterizer with a depth test, and a two-pass shadow-mapping
//! orchestrator.  All geometry is carried as 48.16 fixed-point numbers,
//! so every arithmetic step has an exact integer specification.
pub mod framebuffer;
pub mod fx;
pub mod mat;
pub mod model;
pub mod mygl;
pub mod myimage;
pub mod render;
pub mod shader;
pub mod vec;
pub mod vertex;
