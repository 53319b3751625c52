//! The frame orchestrator: one draw call from mesh to pixel sink.
//!
//! A draw call transforms every mesh vertex, groups the results into
//! consecutive triples, rasterizes each triangle, shades each fragment
//! and writes it — depth-tested — to the sink, discarding fragments
//! whose pixel falls outside the sink.

use vstd::prelude::*;
use crate::fx::{FX_ONE, fx_floor_units};
use crate::vertex::{Vertex, vertex_in_range};
use crate::fragment::{Fragment, fragment_in_range};
use crate::uniforms::{Uniforms, uniforms_in_range};
use crate::color::{Color, color_packed};
use crate::framebuffer::{Framebuffer, framebuffer_wf};
use crate::shaders::{vertex_shader, vertex_shader_spec, fragment_shader, fragment_shader_spec};
use crate::raster::{triangle, triangle_spec};

verus! {

/// Every vertex of a mesh lies in the representable band.
pub open spec fn mesh_in_range(verts: Seq<Vertex>) -> bool {
    forall|i: int| 0 <= i < verts.len() ==> vertex_in_range(#[trigger] verts[i])
}

/// The mesh after the vertex stage, one transformed copy per vertex.
pub open spec fn transformed_spec(verts: Seq<Vertex>, u: Uniforms) -> Seq<Vertex> {
    Seq::new(verts.len(), |i: int| vertex_shader_spec(verts[i], u))
}

/// The transformed mesh grouped into consecutive non-overlapping triples;
/// one or two trailing vertices that cannot form a triangle are dropped.
pub open spec fn triangles_spec(tv: Seq<Vertex>) -> Seq<(Vertex, Vertex, Vertex)> {
    Seq::new(tv.len() / 3, |i: int| (tv[3 * i], tv[3 * i + 1], tv[3 * i + 2]))
}

/// The fragments of a list of triangles, concatenated in order.
pub open spec fn frags_of_triangles_spec(tris: Seq<(Vertex, Vertex, Vertex)>) -> Seq<Fragment>
    decreases tris.len(),
{
    if tris.len() == 0 {
        Seq::empty()
    } else {
        frags_of_triangles_spec(tris.drop_last())
            + triangle_spec(tris.last().0, tris.last().1, tris.last().2)
    }
}

/// What one fragment leaves in the sink state (color buffer, depth
/// buffer, current draw color): a fragment whose pixel lies outside the
/// sink is discarded; any other is shaded, becomes the draw color, and
/// is written under the depth test.
pub open spec fn write_fragment_spec(
    buf: Seq<u32>, zbuf: Seq<i64>, cur: u32, width: int, height: int,
    frag: Fragment, u: Uniforms, shader_type: u8) -> (Seq<u32>, Seq<i64>, u32)
{
    let px = (frag.position.x as int) / (FX_ONE as int);
    let py = (frag.position.y as int) / (FX_ONE as int);
    if frag.position.x >= 0 && frag.position.y >= 0 && px < width && py < height {
        let packed = color_packed(fragment_shader_spec(frag, u, shader_type)) as u32;
        let idx = py * width + px;
        if (frag.depth as int) < zbuf[idx] {
            (buf.update(idx, packed), zbuf.update(idx, frag.depth), packed)
        } else {
            (buf, zbuf, packed)
        }
    } else {
        (buf, zbuf, cur)
    }
}

/// The sink state after a whole list of fragments, written in order.
pub open spec fn write_frags_spec(
    buf: Seq<u32>, zbuf: Seq<i64>, cur: u32, width: int, height: int,
    frags: Seq<Fragment>, u: Uniforms, shader_type: u8) -> (Seq<u32>, Seq<i64>, u32)
    decreases frags.len(),
{
    if frags.len() == 0 {
        (buf, zbuf, cur)
    } else {
        let prev = write_frags_spec(buf, zbuf, cur, width, height,
            frags.drop_last(), u, shader_type);
        write_fragment_spec(prev.0, prev.1, prev.2, width, height,
            frags.last(), u, shader_type)
    }
}

/// A triple index within the first third of a length reaches only
/// in-bounds elements.
proof fn lemma_triple_index_bound(n: int, j: int)
    requires
        0 <= j < n / 3,
    ensures
        3 * j + 2 < n,
{
    vstd::arithmetic::div_mod::lemma_fundamental_div_mod(n, 3);
    vstd::arithmetic::div_mod::lemma_mod_bound(n, 3);
}

/// Run the vertex stage over a whole mesh.
pub fn transform_mesh(vertex_array: &Vec<Vertex>, uniforms: &Uniforms) -> (tv: Vec<Vertex>)
    requires
        mesh_in_range(vertex_array@),
        uniforms_in_range(*uniforms),
    ensures
        tv@ == transformed_spec(vertex_array@, *uniforms),
        mesh_in_range(tv@),
{
    let mut transformed_vertices: Vec<Vertex> = Vec::new();
    let mut i: usize = 0;
    while i < vertex_array.len()
        invariant
            i <= vertex_array.len(),
            mesh_in_range(vertex_array@),
            uniforms_in_range(*uniforms),
            transformed_vertices@.len() == i,
            forall|j: int| 0 <= j < i ==> transformed_vertices@[j]
                == vertex_shader_spec(vertex_array@[j], *uniforms),
            forall|j: int| 0 <= j < i
                ==> vertex_in_range(#[trigger] transformed_vertices@[j]),
        decreases vertex_array.len() - i,
    {
        let transformed: Vertex = vertex_shader(&vertex_array[i], uniforms);
        transformed_vertices.push(transformed);
        i = i + 1;
    }
    proof {
        assert(transformed_vertices@ =~= transformed_spec(vertex_array@, *uniforms));
    }
    transformed_vertices
}

/// Group transformed vertices into consecutive triples; exactly
/// `len / 3` triangles come out, and trailing leftovers are dropped.
pub fn group_triangles(tv: &Vec<Vertex>) -> (tris: Vec<(Vertex, Vertex, Vertex)>)
    ensures
        tris@ == triangles_spec(tv@),
        tris@.len() == tv@.len() / 3,
{
    let mut tris: Vec<(Vertex, Vertex, Vertex)> = Vec::new();
    let mut i: usize = 0;
    while i < tv.len() && tv.len() - i >= 3
        invariant
            i <= tv@.len(),
            i == 3 * tris@.len(),
            forall|j: int| 0 <= j < tris@.len() ==> tris@[j]
                == (tv@[3 * j], tv@[3 * j + 1], tv@[3 * j + 2]),
        decreases tv@.len() - i,
    {
        tris.push((tv[i], tv[i + 1], tv[i + 2]));
        i = i + 3;
    }
    proof {
        vstd::arithmetic::div_mod::lemma_fundamental_div_mod_converse_div(
            tv@.len() as int, 3, tris@.len() as int, tv@.len() - 3 * tris@.len());
        assert(tris@ =~= triangles_spec(tv@));
    }
    tris
}

/// Rasterize a list of triangles, concatenating their fragments in order.
pub fn rasterize_triangles(tris: &Vec<(Vertex, Vertex, Vertex)>) -> (frags: Vec<Fragment>)
    requires
        forall|j: int| 0 <= j < tris@.len() ==> {
            &&& vertex_in_range((#[trigger] tris@[j]).0)
            &&& vertex_in_range(tris@[j].1)
            &&& vertex_in_range(tris@[j].2)
        },
    ensures
        frags@ == frags_of_triangles_spec(tris@),
        forall|j: int| 0 <= j < frags@.len()
            ==> fragment_in_range(#[trigger] frags@[j]),
{
    let mut fragments: Vec<Fragment> = Vec::new();
    let mut ti: usize = 0;
    while ti < tris.len()
        invariant
            ti <= tris@.len(),
            forall|j: int| 0 <= j < tris@.len() ==> {
                &&& vertex_in_range((#[trigger] tris@[j]).0)
                &&& vertex_in_range(tris@[j].1)
                &&& vertex_in_range(tris@[j].2)
            },
            fragments@ == frags_of_triangles_spec(tris@.take(ti as int)),
            forall|j: int| 0 <= j < fragments@.len()
                ==> fragment_in_range(#[trigger] fragments@[j]),
        decreases tris@.len() - ti,
    {
        let tri: (Vertex, Vertex, Vertex) = tris[ti];
        let tri_frags: Vec<Fragment> = triangle(&tri.0, &tri.1, &tri.2);
        let mut fi: usize = 0;
        while fi < tri_frags.len()
            invariant
                fi <= tri_frags@.len(),
                ti < tris@.len(),
                tri == tris@[ti as int],
                tri_frags@ == triangle_spec(tri.0, tri.1, tri.2),
                fragments@ == frags_of_triangles_spec(tris@.take(ti as int))
                    + tri_frags@.take(fi as int),
                forall|j: int| 0 <= j < fragments@.len()
                    ==> fragment_in_range(#[trigger] fragments@[j]),
                forall|j: int| 0 <= j < tri_frags@.len()
                    ==> fragment_in_range(#[trigger] tri_frags@[j]),
            decreases tri_frags@.len() - fi,
        {
            fragments.push(tri_frags[fi]);
            proof {
                assert(tri_frags@.take(fi as int + 1)
                    =~= tri_frags@.take(fi as int) + seq![tri_frags@[fi as int]]);
                assert(fragments@ =~= frags_of_triangles_spec(tris@.take(ti as int))
                    + tri_frags@.take(fi as int + 1));
            }
            fi = fi + 1;
        }
        proof {
            assert(tris@.take(ti as int + 1).drop_last() =~= tris@.take(ti as int));
            assert(tris@.take(ti as int + 1).last() == tri);
            assert(tri_frags@.take(tri_frags@.len() as int) =~= tri_frags@);
            assert(fragments@ =~= frags_of_triangles_spec(tris@.take(ti as int + 1)));
        }
        ti = ti + 1;
    }
    proof {
        assert(tris@.take(tris@.len() as int) =~= tris@);
    }
    fragments
}

/// Write one fragment to the sink: discard it when its pixel lies
/// outside, otherwise shade it, set the draw color and apply the
/// depth-tested write.
pub fn write_fragment(
    framebuffer: &mut Framebuffer, fragment: &Fragment, uniforms: &Uniforms, shader_type: u8)
    requires
        framebuffer_wf(*old(framebuffer)),
        old(framebuffer).width <= 2_000_000_000,
        old(framebuffer).height <= 2_000_000_000,
        fragment_in_range(*fragment),
    ensures
        framebuffer_wf(*final(framebuffer)),
        final(framebuffer).width == old(framebuffer).width,
        final(framebuffer).height == old(framebuffer).height,
        final(framebuffer).background_color == old(framebuffer).background_color,
        ({
            let st = write_fragment_spec(
                old(framebuffer).buffer@, old(framebuffer).zbuffer@,
                old(framebuffer).current_color,
                old(framebuffer).width as int, old(framebuffer).height as int,
                *fragment, *uniforms, shader_type);
            final(framebuffer).buffer@ == st.0
                && final(framebuffer).zbuffer@ == st.1
                && final(framebuffer).current_color == st.2
        }),
{
    let px: i64 = fx_floor_units(fragment.position.x);
    let py: i64 = fx_floor_units(fragment.position.y);
    if fragment.position.x >= 0 && fragment.position.y >= 0 {
        proof {
            vstd::arithmetic::div_mod::lemma_div_pos_is_pos(
                fragment.position.x as int, FX_ONE as int);
            vstd::arithmetic::div_mod::lemma_div_pos_is_pos(
                fragment.position.y as int, FX_ONE as int);
        }
        let x: usize = px as usize;
        let y: usize = py as usize;
        if x < framebuffer.width && y < framebuffer.height {
            let shaded_color: Color = fragment_shader(fragment, uniforms, shader_type);
            let color: u32 = shaded_color.to_hex();
            framebuffer.set_current_color(color);
            framebuffer.point(x, y, fragment.depth);
        }
    }
}

/// A fragment whose pixel falls outside the sink — a negative coordinate,
/// or one at or beyond the declared width or height (the boundary itself
/// is excluded) — is discarded: the sink state stays exactly as it was.
pub proof fn lemma_out_of_bounds_fragment_discarded(
    buf: Seq<u32>, zbuf: Seq<i64>, cur: u32, width: int, height: int,
    frag: Fragment, u: Uniforms, shader_type: u8)
    requires
        frag.position.x < 0 || frag.position.y < 0
            || (frag.position.x as int) / (FX_ONE as int) >= width
            || (frag.position.y as int) / (FX_ONE as int) >= height,
    ensures
        write_fragment_spec(buf, zbuf, cur, width, height, frag, u, shader_type)
            == (buf, zbuf, cur),
{
}

/// One draw call: run the vertex stage over the whole mesh, group into
/// triangles, rasterize, shade and write every fragment. The final sink
/// state is exactly the fold of the depth-tested writes of all fragments
/// over the starting state.
#[verifier::loop_isolation(false)]
#[verifier::rlimit(100)]
pub fn render(
    framebuffer: &mut Framebuffer, uniforms: &Uniforms, vertex_array: &Vec<Vertex>,
    shader_type: u8)
    requires
        framebuffer_wf(*old(framebuffer)),
        old(framebuffer).width <= 2_000_000_000,
        old(framebuffer).height <= 2_000_000_000,
        mesh_in_range(vertex_array@),
        uniforms_in_range(*uniforms),
    ensures
        framebuffer_wf(*final(framebuffer)),
        final(framebuffer).width == old(framebuffer).width,
        final(framebuffer).height == old(framebuffer).height,
        final(framebuffer).background_color == old(framebuffer).background_color,
        ({
            let frags = frags_of_triangles_spec(
                triangles_spec(transformed_spec(vertex_array@, *uniforms)));
            let st = write_frags_spec(
                old(framebuffer).buffer@, old(framebuffer).zbuffer@,
                old(framebuffer).current_color,
                old(framebuffer).width as int, old(framebuffer).height as int,
                frags, *uniforms, shader_type);
            final(framebuffer).buffer@ == st.0
                && final(framebuffer).zbuffer@ == st.1
                && final(framebuffer).current_color == st.2
        }),
{
    let transformed_vertices: Vec<Vertex> = transform_mesh(vertex_array, uniforms);
    let triangles: Vec<(Vertex, Vertex, Vertex)> = group_triangles(&transformed_vertices);
    proof {
        assert forall|j: int| 0 <= j < triangles@.len() implies {
            &&& vertex_in_range((#[trigger] triangles@[j]).0)
            &&& vertex_in_range(triangles@[j].1)
            &&& vertex_in_range(triangles@[j].2)
        } by {
            lemma_triple_index_bound(transformed_vertices@.len() as int, j);
        }
    }
    let fragments: Vec<Fragment> = rasterize_triangles(&triangles);

    let ghost frag_seq = frags_of_triangles_spec(
        triangles_spec(transformed_spec(vertex_array@, *uniforms)));
    let ghost buf0 = framebuffer.buffer@;
    let ghost zbuf0 = framebuffer.zbuffer@;
    let ghost cur0 = framebuffer.current_color;
    let mut wi: usize = 0;
    while wi < fragments.len()
        invariant
            wi <= fragments.len(),
            fragments@ == frag_seq,
            framebuffer_wf(*framebuffer),
            framebuffer.width == old(framebuffer).width,
            framebuffer.height == old(framebuffer).height,
            framebuffer.background_color == old(framebuffer).background_color,
            ({
                let st = write_frags_spec(buf0, zbuf0, cur0,
                    framebuffer.width as int, framebuffer.height as int,
                    frag_seq.take(wi as int), *uniforms, shader_type);
                framebuffer.buffer@ == st.0
                    && framebuffer.zbuffer@ == st.1
                    && framebuffer.current_color == st.2
            }),
        decreases fragments.len() - wi,
    {
        write_fragment(framebuffer, &fragments[wi], uniforms, shader_type);
        proof {
            assert(frag_seq.take(wi as int + 1).drop_last() =~= frag_seq.take(wi as int));
            assert(frag_seq.take(wi as int + 1).last() == frag_seq[wi as int]);
        }
        wi = wi + 1;
    }
    proof {
        assert(frag_seq.take(frag_seq.len() as int) =~= frag_seq);
    }
}

} // verus!
