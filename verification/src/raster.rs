//! Triangle rasterization by edge functions, with barycentric
//! interpolation of depth, normal and object-space position.
//!
//! The rasterizer walks the integer bounding box of a triangle's screen
//! footprint in row-major order, samples each pixel at its center, and
//! emits one fragment per covered pixel. Its result is pinned exactly:
//! it equals [`triangle_spec`], the row-major sequence of the fragments
//! of all covered pixels.

use vstd::prelude::*;
use crate::fx::{
    FX_ONE, fx_in_range, fx_clamped, fx_tdiv, fx_mag,
    fx_min_spec, fx_max_spec,
    fx_min, fx_max, fx_floor_units, fx_ceil_units, px_center_fx, px_fx,
    fx_clamp_wide, wide_tdiv,
};
use crate::vec3::{V3, v3_in_range, v3_normalized_spec};
use crate::vertex::{Vertex, vertex_in_range};
use crate::fragment::{Fragment, fragment_in_range};

verus! {

/// The signed doubled area of the triangle `(a, b, c)` read at `c`
/// against the directed edge `a -> b`.
pub open spec fn edge_spec(a: V3, b: V3, c: V3) -> int {
    (c.x - a.x) * (b.y - a.y) - (c.y - a.y) * (b.x - a.x)
}

/// An upper bound on the magnitude of any edge value of in-band
/// coordinates.
pub const EDGE_BOUND: i128 = 8_000_000_000_000_000_000_000_000_000_000;

/// The 2D edge function on screen positions.
pub fn edge_function(a: &V3, b: &V3, c: &V3) -> (r: i128)
    requires
        v3_in_range(*a),
        v3_in_range(*b),
        v3_in_range(*c),
    ensures
        r as int == edge_spec(*a, *b, *c),
        -EDGE_BOUND <= r <= EDGE_BOUND,
{
    let d1: i128 = c.x as i128 - a.x as i128;
    let d2: i128 = b.y as i128 - a.y as i128;
    let d3: i128 = c.y as i128 - a.y as i128;
    let d4: i128 = b.x as i128 - a.x as i128;
    proof {
        assert(fx_mag((d1 as int) * (d2 as int)) <= 4_000_000_000_000_000_000_000_000_000_000
            && fx_mag((d3 as int) * (d4 as int)) <= 4_000_000_000_000_000_000_000_000_000_000)
            by (nonlinear_arith)
            requires
                fx_mag(d1 as int) <= 2_000_000_000_000_000,
                fx_mag(d2 as int) <= 2_000_000_000_000_000,
                fx_mag(d3 as int) <= 2_000_000_000_000_000,
                fx_mag(d4 as int) <= 2_000_000_000_000_000,
        ;
    }
    d1 * d2 - d3 * d4
}

/// A product of two differences, written out monomial by monomial.
proof fn lemma_expand_product(u: int, v: int, s: int, t: int)
    by (nonlinear_arith)
    ensures
        (u - v) * (s - t) == u * s - u * t - v * s + v * t,
{
}

/// The three edge values of one triangle sum to the triangle's own edge
/// value, whatever the sample point.
pub proof fn lemma_edge_sum(a: V3, b: V3, c: V3, p: V3)
    ensures
        edge_spec(b, c, p) + edge_spec(c, a, p) + edge_spec(a, b, p) == edge_spec(a, b, c),
{
    lemma_expand_product(p.x as int, b.x as int, c.y as int, b.y as int);
    lemma_expand_product(p.y as int, b.y as int, c.x as int, b.x as int);
    lemma_expand_product(p.x as int, c.x as int, a.y as int, c.y as int);
    lemma_expand_product(p.y as int, c.y as int, a.x as int, c.x as int);
    lemma_expand_product(p.x as int, a.x as int, b.y as int, a.y as int);
    lemma_expand_product(p.y as int, a.y as int, b.x as int, a.x as int);
    lemma_expand_product(c.x as int, a.x as int, b.y as int, a.y as int);
    lemma_expand_product(c.y as int, a.y as int, b.x as int, a.x as int);
}

/// The center of pixel `(x, y)` as a screen-space point.
pub open spec fn sample_point_spec(x: int, y: int) -> V3 {
    V3 {
        x: fx_clamped(x * (FX_ONE as int) + 500_000) as i64,
        y: fx_clamped(y * (FX_ONE as int) + 500_000) as i64,
        z: 0,
    }
}

/// The signed doubled area of the whole triangle.
pub open spec fn tri_area_spec(v1: Vertex, v2: Vertex, v3: Vertex) -> int {
    edge_spec(v1.transformed_position, v2.transformed_position, v3.transformed_position)
}

/// The three raw edge values at the center of pixel `(x, y)`.
pub open spec fn raw_weights_spec(v1: Vertex, v2: Vertex, v3: Vertex, x: int, y: int)
    -> (int, int, int) {
    let p = sample_point_spec(x, y);
    (
        edge_spec(v2.transformed_position, v3.transformed_position, p),
        edge_spec(v3.transformed_position, v1.transformed_position, p),
        edge_spec(v1.transformed_position, v2.transformed_position, p),
    )
}

/// The pixel is covered: no edge value at its center is negative.
pub open spec fn pixel_covered_spec(v1: Vertex, v2: Vertex, v3: Vertex, x: int, y: int) -> bool {
    let w = raw_weights_spec(v1, v2, v3, x, y);
    w.0 >= 0 && w.1 >= 0 && w.2 >= 0
}

/// A raw edge value normalized by the triangle area into a barycentric
/// weight in micro-units.
pub open spec fn bary_weight_spec(raw: int, area: int) -> int
    recommends area > 0,
{
    (raw * (FX_ONE as int)) / area
}

/// A barycentric combination of three scalars, rescaled and clamped.
pub open spec fn interp3_spec(va: int, vb: int, vc: int, w1: int, w2: int, w3: int) -> int {
    fx_clamped(fx_tdiv(va * w1 + vb * w2 + vc * w3, FX_ONE as int))
}

/// The fragment emitted for the covered pixel `(x, y)`.
pub open spec fn fragment_at_spec(v1: Vertex, v2: Vertex, v3: Vertex, x: int, y: int) -> Fragment {
    let area = tri_area_spec(v1, v2, v3);
    let raw = raw_weights_spec(v1, v2, v3, x, y);
    let w1 = bary_weight_spec(raw.0, area);
    let w2 = bary_weight_spec(raw.1, area);
    let w3 = bary_weight_spec(raw.2, area);
    let a = v1.transformed_position;
    let b = v2.transformed_position;
    let c = v3.transformed_position;
    let depth = interp3_spec(a.z as int, b.z as int, c.z as int, w1, w2, w3);
    let normal = v3_normalized_spec(V3 {
        x: interp3_spec(v1.transformed_normal.x as int, v2.transformed_normal.x as int,
            v3.transformed_normal.x as int, w1, w2, w3) as i64,
        y: interp3_spec(v1.transformed_normal.y as int, v2.transformed_normal.y as int,
            v3.transformed_normal.y as int, w1, w2, w3) as i64,
        z: interp3_spec(v1.transformed_normal.z as int, v2.transformed_normal.z as int,
            v3.transformed_normal.z as int, w1, w2, w3) as i64,
    });
    let vertex_position = V3 {
        x: interp3_spec(v1.position.x as int, v2.position.x as int,
            v3.position.x as int, w1, w2, w3) as i64,
        y: interp3_spec(v1.position.y as int, v2.position.y as int,
            v3.position.y as int, w1, w2, w3) as i64,
        z: interp3_spec(v1.position.z as int, v2.position.z as int,
            v3.position.z as int, w1, w2, w3) as i64,
    };
    Fragment {
        position: V3 {
            x: fx_clamped(x * (FX_ONE as int)) as i64,
            y: fx_clamped(y * (FX_ONE as int)) as i64,
            z: depth as i64,
        },
        normal,
        depth: depth as i64,
        vertex_position,
        intensity: 0,
    }
}

/// The fragments of one covered pixel: one, or none.
pub open spec fn cell_frags_spec(v1: Vertex, v2: Vertex, v3: Vertex, x: int, y: int)
    -> Seq<Fragment> {
    if pixel_covered_spec(v1, v2, v3, x, y) {
        seq![fragment_at_spec(v1, v2, v3, x, y)]
    } else {
        Seq::empty()
    }
}

/// The fragments of row `y` for pixels `x_lo ..= x`, in order.
pub open spec fn row_frags_spec(v1: Vertex, v2: Vertex, v3: Vertex, y: int, x_lo: int, x: int)
    -> Seq<Fragment>
    decreases x - x_lo + 1,
{
    if x < x_lo {
        Seq::empty()
    } else {
        row_frags_spec(v1, v2, v3, y, x_lo, x - 1) + cell_frags_spec(v1, v2, v3, x, y)
    }
}

/// The fragments of rows `y_lo ..= y`, row-major.
pub open spec fn rows_frags_spec(
    v1: Vertex, v2: Vertex, v3: Vertex, x_lo: int, x_hi: int, y_lo: int, y: int)
    -> Seq<Fragment>
    decreases y - y_lo + 1,
{
    if y < y_lo {
        Seq::empty()
    } else {
        rows_frags_spec(v1, v2, v3, x_lo, x_hi, y_lo, y - 1)
            + row_frags_spec(v1, v2, v3, y, x_lo, x_hi)
    }
}

/// The left column of the bounding box: the floor of the least x.
pub open spec fn min_x_px_spec(v1: Vertex, v2: Vertex, v3: Vertex) -> int {
    fx_min_spec(fx_min_spec(v1.transformed_position.x as int, v2.transformed_position.x as int),
        v3.transformed_position.x as int) / (FX_ONE as int)
}

/// The top row of the bounding box: the floor of the least y.
pub open spec fn min_y_px_spec(v1: Vertex, v2: Vertex, v3: Vertex) -> int {
    fx_min_spec(fx_min_spec(v1.transformed_position.y as int, v2.transformed_position.y as int),
        v3.transformed_position.y as int) / (FX_ONE as int)
}

/// The right column of the bounding box: the ceiling of the greatest x.
pub open spec fn max_x_px_spec(v1: Vertex, v2: Vertex, v3: Vertex) -> int {
    -((-fx_max_spec(fx_max_spec(v1.transformed_position.x as int,
        v2.transformed_position.x as int), v3.transformed_position.x as int))
        / (FX_ONE as int))
}

/// The bottom row of the bounding box: the ceiling of the greatest y.
pub open spec fn max_y_px_spec(v1: Vertex, v2: Vertex, v3: Vertex) -> int {
    -((-fx_max_spec(fx_max_spec(v1.transformed_position.y as int,
        v2.transformed_position.y as int), v3.transformed_position.y as int))
        / (FX_ONE as int))
}

/// Everything the rasterizer emits for one triangle: nothing when the
/// signed area is not positive (degenerate or opposite winding),
/// otherwise the row-major fragments of every covered bounding-box pixel.
pub open spec fn triangle_spec(v1: Vertex, v2: Vertex, v3: Vertex) -> Seq<Fragment> {
    if tri_area_spec(v1, v2, v3) <= 0 {
        Seq::empty()
    } else {
        rows_frags_spec(v1, v2, v3,
            min_x_px_spec(v1, v2, v3), max_x_px_spec(v1, v2, v3),
            min_y_px_spec(v1, v2, v3), max_y_px_spec(v1, v2, v3))
    }
}

/// Normalize one raw edge value by the triangle area.
fn bary_weight(raw: i128, area: i128) -> (r: i64)
    requires
        0 <= raw <= area,
        0 < area <= EDGE_BOUND,
    ensures
        r as int == bary_weight_spec(raw as int, area as int),
        0 <= r <= FX_ONE,
{
    let n: u128 = (raw as u128) * 1_000_000u128;
    let q: u128 = n / (area as u128);
    proof {
        vstd::arithmetic::mul::lemma_mul_inequality(raw as int, area as int, FX_ONE as int);
        vstd::arithmetic::div_mod::lemma_div_is_ordered(
            (raw as int) * (FX_ONE as int), (area as int) * (FX_ONE as int), area as int);
        vstd::arithmetic::div_mod::lemma_div_multiples_vanish(
            FX_ONE as int, area as int);
        vstd::arithmetic::div_mod::lemma_div_pos_is_pos(
            (raw as int) * (FX_ONE as int), area as int);
        vstd::arithmetic::mul::lemma_mul_nonnegative(raw as int, FX_ONE as int);
    }
    q as i64
}

/// One barycentric interpolation of three scalars.
pub fn interp3(va: i64, vb: i64, vc: i64, w1: i64, w2: i64, w3: i64) -> (r: i64)
    requires
        fx_in_range(va as int),
        fx_in_range(vb as int),
        fx_in_range(vc as int),
        0 <= w1 <= FX_ONE,
        0 <= w2 <= FX_ONE,
        0 <= w3 <= FX_ONE,
    ensures
        r as int == interp3_spec(va as int, vb as int, vc as int,
            w1 as int, w2 as int, w3 as int),
        fx_in_range(r as int),
{
    proof {
        assert(fx_mag((va as int) * (w1 as int)) <= 1_000_000_000_000_000_000_000
            && fx_mag((vb as int) * (w2 as int)) <= 1_000_000_000_000_000_000_000
            && fx_mag((vc as int) * (w3 as int)) <= 1_000_000_000_000_000_000_000)
            by (nonlinear_arith)
            requires
                fx_mag(va as int) <= 1_000_000_000_000_000,
                fx_mag(vb as int) <= 1_000_000_000_000_000,
                fx_mag(vc as int) <= 1_000_000_000_000_000,
                0 <= w1 as int <= 1_000_000,
                0 <= w2 as int <= 1_000_000,
                0 <= w3 as int <= 1_000_000,
        ;
    }
    let s: i128 = (va as i128) * (w1 as i128) + (vb as i128) * (w2 as i128)
        + (vc as i128) * (w3 as i128);
    fx_clamp_wide(wide_tdiv(s, FX_ONE as i128))
}

/// Rasterize one triangle of transformed vertices into its fragments,
/// row-major over the bounding box of its screen footprint.
#[verifier::loop_isolation(false)]
pub fn triangle(v1: &Vertex, v2: &Vertex, v3: &Vertex) -> (fragments: Vec<Fragment>)
    requires
        vertex_in_range(*v1),
        vertex_in_range(*v2),
        vertex_in_range(*v3),
    ensures
        fragments@ == triangle_spec(*v1, *v2, *v3),
        forall|i: int| 0 <= i < fragments@.len()
            ==> fragment_in_range(#[trigger] fragments@[i]),
{
    let mut fragments: Vec<Fragment> = Vec::new();
    let a: V3 = v1.transformed_position;
    let b: V3 = v2.transformed_position;
    let c: V3 = v3.transformed_position;

    let min_x: i64 = fx_floor_units(fx_min(fx_min(a.x, b.x), c.x));
    let min_y: i64 = fx_floor_units(fx_min(fx_min(a.y, b.y), c.y));
    let max_x: i64 = fx_ceil_units(fx_max(fx_max(a.x, b.x), c.x));
    let max_y: i64 = fx_ceil_units(fx_max(fx_max(a.y, b.y), c.y));

    let triangle_area: i128 = edge_function(&a, &b, &c);
    if triangle_area <= 0 {
        return fragments;
    }

    let mut y: i64 = min_y;
    while y <= max_y
        invariant
            min_y <= y <= max_y + 1,
            fragments@ == rows_frags_spec(*v1, *v2, *v3,
                min_x as int, max_x as int, min_y as int, y - 1),
            forall|i: int| 0 <= i < fragments@.len()
                ==> fragment_in_range(#[trigger] fragments@[i]),
        decreases max_y + 1 - y,
    {
        let mut x: i64 = min_x;
        while x <= max_x
            invariant
                min_x <= x <= max_x + 1,
                min_y <= y <= max_y,
                fragments@ == rows_frags_spec(*v1, *v2, *v3,
                        min_x as int, max_x as int, min_y as int, y - 1)
                    + row_frags_spec(*v1, *v2, *v3, y as int, min_x as int, x - 1),
                forall|i: int| 0 <= i < fragments@.len()
                    ==> fragment_in_range(#[trigger] fragments@[i]),
            decreases max_x + 1 - x,
        {
            let point: V3 = V3 { x: px_center_fx(x), y: px_center_fx(y), z: 0 };

            let w1: i128 = edge_function(&b, &c, &point);
            let w2: i128 = edge_function(&c, &a, &point);
            let w3: i128 = edge_function(&a, &b, &point);

            if w1 >= 0 && w2 >= 0 && w3 >= 0 {
                proof {
                    lemma_edge_sum(a, b, c, point);
                }
                let w1f: i64 = bary_weight(w1, triangle_area);
                let w2f: i64 = bary_weight(w2, triangle_area);
                let w3f: i64 = bary_weight(w3, triangle_area);

                let depth: i64 = interp3(a.z, b.z, c.z, w1f, w2f, w3f);

                let normal: V3 = V3 {
                    x: interp3(v1.transformed_normal.x, v2.transformed_normal.x,
                        v3.transformed_normal.x, w1f, w2f, w3f),
                    y: interp3(v1.transformed_normal.y, v2.transformed_normal.y,
                        v3.transformed_normal.y, w1f, w2f, w3f),
                    z: interp3(v1.transformed_normal.z, v2.transformed_normal.z,
                        v3.transformed_normal.z, w1f, w2f, w3f),
                }.normalize();

                let position: V3 = V3 {
                    x: interp3(v1.position.x, v2.position.x, v3.position.x, w1f, w2f, w3f),
                    y: interp3(v1.position.y, v2.position.y, v3.position.y, w1f, w2f, w3f),
                    z: interp3(v1.position.z, v2.position.z, v3.position.z, w1f, w2f, w3f),
                };

                let frag: Fragment = Fragment::new(
                    V3 { x: px_fx(x), y: px_fx(y), z: depth },
                    normal,
                    depth,
                    position,
                    0,
                );
                proof {
                    assert(frag == fragment_at_spec(*v1, *v2, *v3, x as int, y as int));
                }
                fragments.push(frag);
                proof {
                    assert(fragments@ =~= rows_frags_spec(*v1, *v2, *v3,
                            min_x as int, max_x as int, min_y as int, y - 1)
                        + row_frags_spec(*v1, *v2, *v3, y as int, min_x as int, x as int));
                }
            } else {
                proof {
                    assert(fragments@ =~= rows_frags_spec(*v1, *v2, *v3,
                            min_x as int, max_x as int, min_y as int, y - 1)
                        + row_frags_spec(*v1, *v2, *v3, y as int, min_x as int, x as int));
                }
            }
            x = x + 1;
        }
        proof {
            assert(fragments@ =~= rows_frags_spec(*v1, *v2, *v3,
                min_x as int, max_x as int, min_y as int, y as int));
        }
        y = y + 1;
    }
    fragments
}

/// At every covered pixel of a positively wound, non-degenerate
/// triangle, each barycentric weight lies in `[0, 1]` and the three sum
/// to one within rounding: never above one full unit, and less than
/// three micro-units below it.
pub proof fn lemma_barycentric_weights(v1: Vertex, v2: Vertex, v3: Vertex, x: int, y: int)
    requires
        tri_area_spec(v1, v2, v3) > 0,
        pixel_covered_spec(v1, v2, v3, x, y),
    ensures
        ({
            let area = tri_area_spec(v1, v2, v3);
            let raw = raw_weights_spec(v1, v2, v3, x, y);
            let w1 = bary_weight_spec(raw.0, area);
            let w2 = bary_weight_spec(raw.1, area);
            let w3 = bary_weight_spec(raw.2, area);
            &&& 0 <= w1 <= FX_ONE
            &&& 0 <= w2 <= FX_ONE
            &&& 0 <= w3 <= FX_ONE
            &&& FX_ONE - 3 < w1 + w2 + w3 <= FX_ONE
        }),
{
    let area = tri_area_spec(v1, v2, v3);
    let p = sample_point_spec(x, y);
    let raw = raw_weights_spec(v1, v2, v3, x, y);
    lemma_edge_sum(v1.transformed_position, v2.transformed_position,
        v3.transformed_position, p);
    assert(raw.0 + raw.1 + raw.2 == area);
    lemma_one_weight(raw.0, area);
    lemma_one_weight(raw.1, area);
    lemma_one_weight(raw.2, area);

    let s = FX_ONE as int;
    let w1 = bary_weight_spec(raw.0, area);
    let w2 = bary_weight_spec(raw.1, area);
    let w3 = bary_weight_spec(raw.2, area);
    vstd::arithmetic::div_mod::lemma_fundamental_div_mod(raw.0 * s, area);
    vstd::arithmetic::div_mod::lemma_fundamental_div_mod(raw.1 * s, area);
    vstd::arithmetic::div_mod::lemma_fundamental_div_mod(raw.2 * s, area);
    vstd::arithmetic::div_mod::lemma_mod_bound(raw.0 * s, area);
    vstd::arithmetic::div_mod::lemma_mod_bound(raw.1 * s, area);
    vstd::arithmetic::div_mod::lemma_mod_bound(raw.2 * s, area);
    let r1 = (raw.0 * s) % area;
    let r2 = (raw.1 * s) % area;
    let r3 = (raw.2 * s) % area;
    assert((raw.0 + raw.1 + raw.2) * s == raw.0 * s + raw.1 * s + raw.2 * s)
        by (nonlinear_arith);
    assert(area * w1 + area * w2 + area * w3 == area * (w1 + w2 + w3))
        by (nonlinear_arith);
    assert(area * s == area * (w1 + w2 + w3) + (r1 + r2 + r3));
    let gap = s - (w1 + w2 + w3);
    assert(area * gap == r1 + r2 + r3) by (nonlinear_arith)
        requires
            gap == s - (w1 + w2 + w3),
            area * s == area * (w1 + w2 + w3) + (r1 + r2 + r3),
    ;
    assert(0 <= gap < 3) by (nonlinear_arith)
        requires
            area > 0,
            area * gap == r1 + r2 + r3,
            0 <= r1 < area,
            0 <= r2 < area,
            0 <= r3 < area,
    ;
}

/// One nonnegative raw weight under the area normalizes into `[0, 1]`.
proof fn lemma_one_weight(raw: int, area: int)
    requires
        0 <= raw <= area,
        0 < area,
    ensures
        0 <= bary_weight_spec(raw, area) <= FX_ONE,
{
    let s = FX_ONE as int;
    vstd::arithmetic::mul::lemma_mul_nonnegative(raw, s);
    vstd::arithmetic::div_mod::lemma_div_pos_is_pos(raw * s, area);
    vstd::arithmetic::mul::lemma_mul_inequality(raw, area, s);
    vstd::arithmetic::div_mod::lemma_div_is_ordered(raw * s, area * s, area);
    vstd::arithmetic::div_mod::lemma_div_multiples_vanish(s, area);
}

/// How many fragments of a sequence carry the pixel coordinates `(x, y)`.
pub open spec fn count_frags_at(s: Seq<Fragment>, x: int, y: int) -> int
    decreases s.len(),
{
    if s.len() == 0 {
        0int
    } else {
        count_frags_at(s.drop_last(), x, y)
            + if s.last().position.x as int == x * (FX_ONE as int)
                && s.last().position.y as int == y * (FX_ONE as int) { 1int } else { 0int }
    }
}

/// The count distributes over concatenation.
proof fn lemma_count_concat(s1: Seq<Fragment>, s2: Seq<Fragment>, x: int, y: int)
    ensures
        count_frags_at(s1 + s2, x, y) == count_frags_at(s1, x, y) + count_frags_at(s2, x, y),
    decreases s2.len(),
{
    if s2.len() == 0 {
        assert(s1 + s2 =~= s1);
    } else {
        lemma_count_concat(s1, s2.drop_last(), x, y);
        assert((s1 + s2).drop_last() =~= s1 + s2.drop_last());
        assert((s1 + s2).last() == s2.last());
    }
}

/// The count over one row: one exactly at a covered in-range pixel of
/// that row, zero anywhere else.
proof fn lemma_count_row(
    v1: Vertex, v2: Vertex, v3: Vertex, yr: int, x_lo: int, x_hi: int, x: int, y: int)
    requires
        -1_000_000_000 <= x_lo,
        x_hi <= 1_000_000_000,
        -1_000_000_000 <= x <= 1_000_000_000,
        -1_000_000_000 <= yr <= 1_000_000_000,
        -1_000_000_000 <= y <= 1_000_000_000,
    ensures
        count_frags_at(row_frags_spec(v1, v2, v3, yr, x_lo, x_hi), x, y)
            == if yr == y && x_lo <= x <= x_hi && pixel_covered_spec(v1, v2, v3, x, y) {
                1int
            } else {
                0int
            },
    decreases x_hi - x_lo + 1,
{
    if x_hi < x_lo {
    } else {
        lemma_count_row(v1, v2, v3, yr, x_lo, x_hi - 1, x, y);
        lemma_count_concat(row_frags_spec(v1, v2, v3, yr, x_lo, x_hi - 1),
            cell_frags_spec(v1, v2, v3, x_hi, yr), x, y);
        if pixel_covered_spec(v1, v2, v3, x_hi, yr) {
            let f = fragment_at_spec(v1, v2, v3, x_hi, yr);
            assert(f.position.x as int == x_hi * (FX_ONE as int));
            assert(f.position.y as int == yr * (FX_ONE as int));
            assert(count_frags_at(Seq::<Fragment>::empty(), x, y) == 0);
            assert(seq![f].drop_last() =~= Seq::<Fragment>::empty());
            assert(seq![f].len() == 1 && seq![f].last() == f);
            assert(count_frags_at(seq![f], x, y)
                == if x_hi == x && yr == y { 1int } else { 0int });
        }
    }
}

/// The count over a block of rows.
proof fn lemma_count_rows(
    v1: Vertex, v2: Vertex, v3: Vertex,
    x_lo: int, x_hi: int, y_lo: int, y_hi: int, x: int, y: int)
    requires
        -1_000_000_000 <= x_lo,
        x_hi <= 1_000_000_000,
        -1_000_000_000 <= y_lo,
        y_hi <= 1_000_000_000,
        -1_000_000_000 <= x <= 1_000_000_000,
        -1_000_000_000 <= y <= 1_000_000_000,
    ensures
        count_frags_at(rows_frags_spec(v1, v2, v3, x_lo, x_hi, y_lo, y_hi), x, y)
            == if y_lo <= y <= y_hi && x_lo <= x <= x_hi
                && pixel_covered_spec(v1, v2, v3, x, y) {
                1int
            } else {
                0int
            },
    decreases y_hi - y_lo + 1,
{
    if y_hi < y_lo {
    } else {
        lemma_count_rows(v1, v2, v3, x_lo, x_hi, y_lo, y_hi - 1, x, y);
        lemma_count_concat(rows_frags_spec(v1, v2, v3, x_lo, x_hi, y_lo, y_hi - 1),
            row_frags_spec(v1, v2, v3, y_hi, x_lo, x_hi), x, y);
        lemma_count_row(v1, v2, v3, y_hi, x_lo, x_hi, x, y);
    }
}

/// A pixel whose three edge values are all nonnegative — in particular
/// one strictly inside the triangle — is emitted exactly once when it
/// lies in the scanned bounding box; every other pixel, in particular
/// any strictly outside the triangle, is never emitted.
pub proof fn lemma_coverage_exact(v1: Vertex, v2: Vertex, v3: Vertex, x: int, y: int)
    requires
        vertex_in_range(v1),
        vertex_in_range(v2),
        vertex_in_range(v3),
        tri_area_spec(v1, v2, v3) > 0,
        -1_000_000_000 <= x <= 1_000_000_000,
        -1_000_000_000 <= y <= 1_000_000_000,
    ensures
        count_frags_at(triangle_spec(v1, v2, v3), x, y)
            == if min_x_px_spec(v1, v2, v3) <= x <= max_x_px_spec(v1, v2, v3)
                && min_y_px_spec(v1, v2, v3) <= y <= max_y_px_spec(v1, v2, v3)
                && pixel_covered_spec(v1, v2, v3, x, y) {
                1int
            } else {
                0int
            },
{
    let s = FX_ONE as int;
    let minx = fx_min_spec(fx_min_spec(v1.transformed_position.x as int,
        v2.transformed_position.x as int), v3.transformed_position.x as int);
    let miny = fx_min_spec(fx_min_spec(v1.transformed_position.y as int,
        v2.transformed_position.y as int), v3.transformed_position.y as int);
    let maxx = fx_max_spec(fx_max_spec(v1.transformed_position.x as int,
        v2.transformed_position.x as int), v3.transformed_position.x as int);
    let maxy = fx_max_spec(fx_max_spec(v1.transformed_position.y as int,
        v2.transformed_position.y as int), v3.transformed_position.y as int);
    vstd::arithmetic::div_mod::lemma_div_is_ordered(-1_000_000_000_000_000, minx, s);
    vstd::arithmetic::div_mod::lemma_div_is_ordered(-1_000_000_000_000_000, miny, s);
    vstd::arithmetic::div_mod::lemma_div_is_ordered(-maxx, 1_000_000_000_000_000, s);
    vstd::arithmetic::div_mod::lemma_div_is_ordered(-maxy, 1_000_000_000_000_000, s);
    assert((-1_000_000_000_000_000int) / 1_000_000 == -1_000_000_000int);
    assert(1_000_000_000_000_000int / 1_000_000 == 1_000_000_000int);
    lemma_count_rows(v1, v2, v3,
        min_x_px_spec(v1, v2, v3), max_x_px_spec(v1, v2, v3),
        min_y_px_spec(v1, v2, v3), max_y_px_spec(v1, v2, v3), x, y);
}

/// Two edge values against the spanning sides reconstruct a point's
/// offset from the first vertex, scaled by the area: all in coordinates
/// relative to that vertex.
proof fn lemma_reconstruct_offset(qx: int, qy: int, rx: int, ry: int, sx: int, sy: int)
    by (nonlinear_arith)
    ensures
        (qy * sx - qx * sy) * rx + (qx * ry - qy * rx) * sx
            == (sx * ry - sy * rx) * qx,
{
}

/// The mirrored reconstruction along the other axis.
proof fn lemma_reconstruct_offset_y(qx: int, qy: int, rx: int, ry: int, sx: int, sy: int)
    by (nonlinear_arith)
    ensures
        (qy * sx - qx * sy) * ry + (qx * ry - qy * rx) * sy
            == (sx * ry - sy * rx) * qy,
{
}

/// A coordinate reconstructed from nonnegative weights that sum to at
/// most the positive area stays between the least and the greatest
/// vertex coordinate.
proof fn lemma_reconstructed_between(
    area: int, w2: int, w3: int, av: int, bv: int, cv: int, pv: int, lo: int, hi: int)
    requires
        area > 0,
        w2 >= 0,
        w3 >= 0,
        w2 + w3 <= area,
        area * (pv - av) == w2 * (bv - av) + w3 * (cv - av),
        lo <= av <= hi,
        lo <= bv <= hi,
        lo <= cv <= hi,
    ensures
        lo <= pv <= hi,
{
    vstd::arithmetic::mul::lemma_mul_inequality(bv - av, hi - av, w2);
    vstd::arithmetic::mul::lemma_mul_inequality(cv - av, hi - av, w3);
    assert((hi - av) * w2 + (hi - av) * w3 == (w2 + w3) * (hi - av)) by (nonlinear_arith);
    vstd::arithmetic::mul::lemma_mul_inequality(w2 + w3, area, hi - av);
    assert(area * (pv - av) <= (hi - av) * area);
    vstd::arithmetic::mul::lemma_mul_inequality_converse(pv - av, hi - av, area);

    vstd::arithmetic::mul::lemma_mul_inequality(lo - av, bv - av, w2);
    vstd::arithmetic::mul::lemma_mul_inequality(lo - av, cv - av, w3);
    assert((lo - av) * w2 + (lo - av) * w3 == (w2 + w3) * (lo - av)) by (nonlinear_arith);
    assert((w2 + w3) * (lo - av) >= area * (lo - av)) by (nonlinear_arith)
        requires
            w2 + w3 <= area,
            lo - av <= 0,
    ;
    vstd::arithmetic::mul::lemma_mul_inequality_converse(lo - av, pv - av, area);
}

/// Every covered pixel of a positively wound triangle lies within the
/// scanned bounding box: the sample point is a nonnegative barycentric
/// combination of the vertices, so each of its coordinates stays between
/// the least and the greatest vertex coordinate.
pub proof fn lemma_covered_in_bbox(v1: Vertex, v2: Vertex, v3: Vertex, x: int, y: int)
    requires
        vertex_in_range(v1),
        vertex_in_range(v2),
        vertex_in_range(v3),
        tri_area_spec(v1, v2, v3) > 0,
        pixel_covered_spec(v1, v2, v3, x, y),
        -999_999_999 <= x <= 999_999_999,
        -999_999_999 <= y <= 999_999_999,
    ensures
        min_x_px_spec(v1, v2, v3) <= x <= max_x_px_spec(v1, v2, v3),
        min_y_px_spec(v1, v2, v3) <= y <= max_y_px_spec(v1, v2, v3),
{
    let s = FX_ONE as int;
    let a = v1.transformed_position;
    let b = v2.transformed_position;
    let c = v3.transformed_position;
    let p = sample_point_spec(x, y);
    assert(p.x as int == x * s + 500_000);
    assert(p.y as int == y * s + 500_000);
    let area = tri_area_spec(v1, v2, v3);
    let raw = raw_weights_spec(v1, v2, v3, x, y);
    lemma_edge_sum(a, b, c, p);

    let qx = p.x as int - a.x as int;
    let qy = p.y as int - a.y as int;
    let rx = b.x as int - a.x as int;
    let ry = b.y as int - a.y as int;
    let sx = c.x as int - a.x as int;
    let sy = c.y as int - a.y as int;
    assert(raw.1 == qy * sx - qx * sy) by (nonlinear_arith)
        requires
            raw.1 == (p.x - c.x) * (a.y - c.y) - (p.y - c.y) * (a.x - c.x),
            qx == p.x - a.x,
            qy == p.y - a.y,
            sx == c.x - a.x,
            sy == c.y - a.y,
    ;
    assert(raw.2 == qx * ry - qy * rx);
    assert(area == sx * ry - sy * rx);
    lemma_reconstruct_offset(qx, qy, rx, ry, sx, sy);
    lemma_reconstruct_offset_y(qx, qy, rx, ry, sx, sy);
    assert(area * (p.x as int - a.x as int)
        == raw.1 * (b.x as int - a.x as int) + raw.2 * (c.x as int - a.x as int));
    assert(area * (p.y as int - a.y as int)
        == raw.1 * (b.y as int - a.y as int) + raw.2 * (c.y as int - a.y as int));

    let lo_x = fx_min_spec(fx_min_spec(a.x as int, b.x as int), c.x as int);
    let hi_x = fx_max_spec(fx_max_spec(a.x as int, b.x as int), c.x as int);
    let lo_y = fx_min_spec(fx_min_spec(a.y as int, b.y as int), c.y as int);
    let hi_y = fx_max_spec(fx_max_spec(a.y as int, b.y as int), c.y as int);
    lemma_reconstructed_between(area, raw.1, raw.2,
        a.x as int, b.x as int, c.x as int, p.x as int, lo_x, hi_x);
    lemma_reconstructed_between(area, raw.1, raw.2,
        a.y as int, b.y as int, c.y as int, p.y as int, lo_y, hi_y);

    vstd::arithmetic::div_mod::lemma_fundamental_div_mod(lo_x, s);
    vstd::arithmetic::div_mod::lemma_mod_bound(lo_x, s);
    vstd::arithmetic::div_mod::lemma_fundamental_div_mod(lo_y, s);
    vstd::arithmetic::div_mod::lemma_mod_bound(lo_y, s);
    vstd::arithmetic::div_mod::lemma_fundamental_div_mod(-hi_x, s);
    vstd::arithmetic::div_mod::lemma_mod_bound(-hi_x, s);
    vstd::arithmetic::div_mod::lemma_fundamental_div_mod(-hi_y, s);
    vstd::arithmetic::div_mod::lemma_mod_bound(-hi_y, s);
}

/// A pixel whose three edge values are all nonnegative — in particular
/// one strictly inside the triangle — receives exactly one fragment.
pub proof fn lemma_inside_pixel_emitted_once(
    v1: Vertex, v2: Vertex, v3: Vertex, x: int, y: int)
    requires
        vertex_in_range(v1),
        vertex_in_range(v2),
        vertex_in_range(v3),
        tri_area_spec(v1, v2, v3) > 0,
        pixel_covered_spec(v1, v2, v3, x, y),
        -999_999_999 <= x <= 999_999_999,
        -999_999_999 <= y <= 999_999_999,
    ensures
        count_frags_at(triangle_spec(v1, v2, v3), x, y) == 1,
{
    lemma_covered_in_bbox(v1, v2, v3, x, y);
    lemma_coverage_exact(v1, v2, v3, x, y);
}

/// A pixel with a strictly negative edge value — strictly outside the
/// triangle — never receives a fragment.
pub proof fn lemma_outside_pixel_never_emitted(
    v1: Vertex, v2: Vertex, v3: Vertex, x: int, y: int)
    requires
        vertex_in_range(v1),
        vertex_in_range(v2),
        vertex_in_range(v3),
        tri_area_spec(v1, v2, v3) > 0,
        -1_000_000_000 <= x <= 1_000_000_000,
        -1_000_000_000 <= y <= 1_000_000_000,
        !pixel_covered_spec(v1, v2, v3, x, y),
    ensures
        count_frags_at(triangle_spec(v1, v2, v3), x, y) == 0,
{
    lemma_coverage_exact(v1, v2, v3, x, y);
}

} // verus!
