//! Per-draw-call uniform values.

use vstd::prelude::*;
use crate::matrix::{M4, m4_in_range};
use crate::vec3::{V3, v3_in_range};

verus! {

/// The values constant across all vertices and fragments of one draw
/// call: the four transform matrices, the frame counter, and a random
/// offset kept for future shaders (no current shader reads it).
#[derive(Clone, Copy, PartialEq, Eq, Structural, Debug)]
pub struct Uniforms {
    pub model_matrix: M4,
    pub view_matrix: M4,
    pub projection_matrix: M4,
    pub viewport_matrix: M4,
    pub time: u32,
    pub noise_offset: V3,
}

/// Every matrix entry and the noise offset lie in the representable band.
pub open spec fn uniforms_in_range(u: Uniforms) -> bool {
    m4_in_range(u.model_matrix) && m4_in_range(u.view_matrix)
        && m4_in_range(u.projection_matrix) && m4_in_range(u.viewport_matrix)
        && v3_in_range(u.noise_offset)
}

impl Uniforms {
    /// Bundle the per-draw-call values.
    pub fn new(
        model_matrix: M4,
        view_matrix: M4,
        projection_matrix: M4,
        viewport_matrix: M4,
        time: u32,
        noise_offset: V3,
    ) -> (u: Uniforms)
        ensures
            u == (Uniforms {
                model_matrix,
                view_matrix,
                projection_matrix,
                viewport_matrix,
                time,
                noise_offset,
            }),
    {
        Uniforms {
            model_matrix,
            view_matrix,
            projection_matrix,
            viewport_matrix,
            time,
            noise_offset,
        }
    }
}

/// Relies on `rand::random`: draws one sample of the standard
/// distribution; nothing is promised of the value.
pub assume_specification<T>[ rand::random::<T> ]() -> (r: T)
    where
        rand::distr::StandardUniform: rand::distr::Distribution<T>,
;

/// A random offset vector with each component in `[0, 100)` units.
pub fn create_noise() -> (n: V3)
    ensures
        0 <= n.x < 100_000_000,
        0 <= n.y < 100_000_000,
        0 <= n.z < 100_000_000,
        v3_in_range(n),
{
    let a: u32 = rand::random::<u32>();
    let b: u32 = rand::random::<u32>();
    let c: u32 = rand::random::<u32>();
    V3 {
        x: (a % 100_000_000) as i64,
        y: (b % 100_000_000) as i64,
        z: (c % 100_000_000) as i64,
    }
}

} // verus!
