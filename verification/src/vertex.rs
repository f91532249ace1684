//! The per-vertex record carried through the pipeline.
use vstd::prelude::*;

use crate::vec::{Vec2, Vec3};

verus! {

/// Bound on raster-space coordinates (4096 pixels in fixed point);
/// products of differences of such values stay well inside `i64`.
pub const RASTER_LIMIT: i64 = 0x1000_0000;

/// Data carried per vertex from the vertex stage to the rasterizer
/// and the fragment stage.  `gl_position` is the raster-space
/// position with depth retained in `z`; `a_pos` is the original local
/// position, kept for world-space lighting.
#[derive(Clone, Copy, PartialEq, Eq, Structural, Debug)]
pub struct Vertex {
    pub gl_position: Vec3,
    pub tex_coord: Vec2,
    pub normal: Vec3,
    pub a_pos: Vec3,
}

/// All components of a vertex are within the raster bound.
pub open spec fn vertex_in_range(v: Vertex) -> bool {
    &&& in_raster(v.gl_position.x)
    &&& in_raster(v.gl_position.y)
    &&& in_raster(v.gl_position.z)
    &&& in_raster(v.tex_coord.x)
    &&& in_raster(v.tex_coord.y)
    &&& in_raster(v.normal.x)
    &&& in_raster(v.normal.y)
    &&& in_raster(v.normal.z)
    &&& in_raster(v.a_pos.x)
    &&& in_raster(v.a_pos.y)
    &&& in_raster(v.a_pos.z)
}

/// A scalar within the raster bound.
pub open spec fn in_raster(c: i64) -> bool {
    -RASTER_LIMIT <= c <= RASTER_LIMIT
}

/// Model-supplied attributes within the raster bound.
pub open spec fn attrs_in_range(local: Vec3, tex: Vec2, normal: Vec3) -> bool {
    &&& in_raster(local.x)
    &&& in_raster(local.y)
    &&& in_raster(local.z)
    &&& in_raster(tex.x)
    &&& in_raster(tex.y)
    &&& in_raster(normal.x)
    &&& in_raster(normal.y)
    &&& in_raster(normal.z)
}

} // verus!
