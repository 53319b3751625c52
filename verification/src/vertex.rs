//! Mesh vertices and their per-frame transformed copies.

use vstd::prelude::*;
use crate::vec3::{V2, V3, v2_in_range, v3_in_range};

verus! {

/// One mesh vertex. The two transformed fields are meaningful only after
/// the vertex stage has run; a raw mesh vertex carries zeros there.
#[derive(Clone, Copy, PartialEq, Eq, Structural, Debug)]
pub struct Vertex {
    /// Object-space position.
    pub position: V3,
    /// Object-space normal.
    pub normal: V3,
    /// Texture coordinates; carried through, unused by shading.
    pub tex_coords: V2,
    /// Screen-space position: x and y in pixel units, z the post-divide depth.
    pub transformed_position: V3,
    /// Transformed, renormalized normal.
    pub transformed_normal: V3,
}

/// Every field lies in the representable band.
pub open spec fn vertex_in_range(v: Vertex) -> bool {
    v3_in_range(v.position) && v3_in_range(v.normal) && v2_in_range(v.tex_coords)
        && v3_in_range(v.transformed_position) && v3_in_range(v.transformed_normal)
}

impl Vertex {
    /// Build a raw mesh vertex; the transformed fields start at zero.
    pub fn new(position: V3, normal: V3, tex_coords: V2) -> (v: Vertex)
        ensures
            v == (Vertex {
                position,
                normal,
                tex_coords,
                transformed_position: V3 { x: 0, y: 0, z: 0 },
                transformed_normal: V3 { x: 0, y: 0, z: 0 },
            }),
    {
        Vertex {
            position,
            normal,
            tex_coords,
            transformed_position: V3 { x: 0, y: 0, z: 0 },
            transformed_normal: V3 { x: 0, y: 0, z: 0 },
        }
    }
}

} // verus!
