//! Rasterizer output samples.

use vstd::prelude::*;
use crate::vec3::{V3, v3_in_range};
use crate::fx::fx_in_range;

verus! {

/// One shading sample: a candidate pixel with interpolated attributes.
/// Created by the rasterizer, consumed by the shading system within a
/// single pass.
#[derive(Clone, Copy, PartialEq, Eq, Structural, Debug)]
pub struct Fragment {
    /// Pixel coordinates in whole units in x and y; z repeats the depth.
    pub position: V3,
    /// Interpolated, renormalized surface normal.
    pub normal: V3,
    /// Interpolated depth.
    pub depth: i64,
    /// Interpolated object-space position.
    pub vertex_position: V3,
    /// Interpolated intensity placeholder; shading computes lighting itself.
    pub intensity: i64,
}

/// Every field lies in the representable band.
pub open spec fn fragment_in_range(f: Fragment) -> bool {
    v3_in_range(f.position) && v3_in_range(f.normal) && fx_in_range(f.depth as int)
        && v3_in_range(f.vertex_position) && fx_in_range(f.intensity as int)
}

impl Fragment {
    /// Bundle a rasterizer sample.
    pub fn new(position: V3, normal: V3, depth: i64, vertex_position: V3, intensity: i64)
        -> (f: Fragment)
        ensures
            f == (Fragment { position, normal, depth, vertex_position, intensity }),
    {
        Fragment { position, normal, depth, vertex_position, intensity }
    }
}

} // verus!
