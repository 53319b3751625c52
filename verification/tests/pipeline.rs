use softrast::color::Color;
use softrast::fragment::Fragment;
use softrast::framebuffer::{Framebuffer, DEPTH_EMPTY};
use softrast::matrix::{
    create_model_matrix, create_perspective_matrix, create_view_matrix,
    create_viewport_matrix, M4,
};
use softrast::render::{render, write_fragment};
use softrast::shaders::{fragment_shader, sun_shader, vertex_shader};
use softrast::uniforms::{create_noise, Uniforms};
use softrast::vec3::{V2, V3, V4};
use softrast::vertex::Vertex;

fn identity_uniforms(time: u32) -> Uniforms {
    Uniforms::new(
        M4::identity(),
        M4::identity(),
        M4::identity(),
        M4::identity(),
        time,
        V3::new(0, 0, 0),
    )
}

fn sample_fragment() -> Fragment {
    Fragment::new(
        V3::new(10_000_000, 20_000_000, 400_000),
        V3::new(0, 0, 1_000_000),
        400_000,
        V3::new(300_000, -200_000, 800_000),
        0,
    )
}

#[test]
fn unknown_shader_id_yields_opaque_white() {
    let u = identity_uniforms(1234);
    let f = sample_fragment();
    assert_eq!(fragment_shader(&f, &u, 99), Color::new(255, 255, 255));
    assert_eq!(fragment_shader(&f, &u, 0), Color::new(255, 255, 255));
    assert_eq!(fragment_shader(&f, &u, 7), Color::new(255, 255, 255));
}

#[test]
fn shading_is_deterministic() {
    let u = identity_uniforms(77);
    let f = sample_fragment();
    for id in 1..=6u8 {
        assert_eq!(fragment_shader(&f, &u, id), fragment_shader(&f, &u, id));
    }
}

#[test]
fn shading_ignores_matrices_and_noise() {
    // Two uniform sets sharing only the frame counter; every shader reads
    // the fragment and the counter alone, so the colors agree.
    let u1 = identity_uniforms(77);
    let u2 = Uniforms::new(
        create_model_matrix(V3::new(1_000_000, 0, 0), 2_000_000, V3::new(0, 314_159, 0)),
        create_view_matrix(
            V3::new(0, 0, 5_000_000),
            V3::new(0, 0, 0),
            V3::new(0, 1_000_000, 0),
        ),
        create_perspective_matrix(800_000_000, 600_000_000),
        create_viewport_matrix(800_000_000, 600_000_000),
        77,
        create_noise(),
    );
    let f = sample_fragment();
    for id in 1..=6u8 {
        assert_eq!(fragment_shader(&f, &u1, id), fragment_shader(&f, &u2, id));
    }
}

#[test]
fn moon_shader_exact_color_at_origin() {
    // At the origin every trig mask is zero: the base gray survives and
    // is scaled by the diffuse term (0,0,1) . (1,1,1)/sqrt(3) = 0.577350,
    // so each channel is trunc(150 * 0.577350) = 86.
    let u = identity_uniforms(0);
    let f = Fragment::new(
        V3::new(0, 0, 0),
        V3::new(0, 0, 1_000_000),
        0,
        V3::new(0, 0, 0),
        0,
    );
    let c = softrast::shaders::moon_shader(&f, &u);
    assert_eq!(c, Color::new(86, 86, 86));
}

#[test]
fn sun_shader_exact_color_at_origin() {
    // At the origin with frame counter zero the plasma and spot terms
    // vanish; the corona pulls the base orange toward yellow by 0.15 and
    // the radial glow scales the result by 1.5, clamped per channel.
    let u = identity_uniforms(0);
    let f = Fragment::new(
        V3::new(0, 0, 0),
        V3::new(0, 0, 1_000_000),
        0,
        V3::new(0, 0, 0),
        0,
    );
    let c = sun_shader(&f, &u);
    assert_eq!(c, Color::new(255, 172, 10));
}

#[test]
fn overshooting_normal_cannot_brighten() {
    // A tiny normal: fixed-point normalization overshoots unit length
    // ((0.0015, 0.0015, 0.0015) normalizes to about 1.06), so the raw
    // light dot product exceeds one. The diffuse factor is capped at one:
    // at the origin the moon's unlit gray comes through unchanged, never
    // brightened.
    let u = identity_uniforms(0);
    let f = Fragment::new(
        V3::new(0, 0, 0),
        V3::new(1_500, 1_500, 1_500),
        0,
        V3::new(0, 0, 0),
        0,
    );
    let c = softrast::shaders::moon_shader(&f, &u);
    assert_eq!(c, Color::new(150, 150, 150));
}

#[test]
fn sun_shader_output_in_range() {
    let u = identity_uniforms(3);
    let f = sample_fragment();
    let c = sun_shader(&f, &u);
    // The star keeps a strong red channel: the base colors all carry 255
    // red and the spot mask darkens by at most a factor 0.6.
    assert!(c.r > 100);
}

#[test]
fn vertex_shader_under_identity_transforms_keeps_position() {
    let u = identity_uniforms(0);
    let v = Vertex::new(
        V3::new(250_000, -125_000, 700_000),
        V3::new(0, 0, 2_000_000),
        V2::new(0, 0),
    );
    let t = vertex_shader(&v, &u);
    assert_eq!(t.transformed_position, V3::new(250_000, -125_000, 700_000));
    // The normal is renormalized to unit length.
    assert_eq!(t.transformed_normal, V3::new(0, 0, 1_000_000));
    assert_eq!(t.position, v.position);
    assert_eq!(t.normal, v.normal);
}

#[test]
fn viewport_matrix_maps_origin_to_screen_center() {
    let m = create_viewport_matrix(800_000_000, 600_000_000);
    let center = m.apply(&V4::new(0, 0, 0, 1_000_000));
    assert_eq!(center.x, 400_000_000);
    assert_eq!(center.y, 300_000_000);
    assert_eq!(center.z, 0);
    // The vertical axis is flipped: positive device y goes up the screen.
    let top = m.apply(&V4::new(0, 1_000_000, 0, 1_000_000));
    assert_eq!(top.y, 0);
}

#[test]
fn perspective_matrix_fixed_entries() {
    let m = create_perspective_matrix(800_000_000, 600_000_000);
    assert_eq!(m.r1.y, 2_414_214);
    assert_eq!(m.r3.z, -1_000_000);
    assert_eq!(m.r3.w, 0);
    assert_eq!(m.r0.y, 0);
}

#[test]
fn view_matrix_along_negative_z() {
    let m = create_view_matrix(
        V3::new(0, 0, 5_000_000),
        V3::new(0, 0, 0),
        V3::new(0, 1_000_000, 0),
    );
    assert_eq!(m.r0.x, 1_000_000);
    assert_eq!(m.r1.y, 1_000_000);
    assert_eq!(m.r2.z, 1_000_000);
    assert_eq!(m.r2.w, -5_000_000);
}

#[test]
fn model_matrix_zero_rotation_unit_scale_is_identity() {
    let m = create_model_matrix(V3::new(0, 0, 0), 1_000_000, V3::new(0, 0, 0));
    assert_eq!(m, M4::identity());
}

#[test]
fn model_matrix_carries_translation_and_scale_exactly() {
    let m = create_model_matrix(
        V3::new(1_000_000, 2_000_000, 3_000_000),
        500_000,
        V3::new(0, 0, 0),
    );
    assert_eq!(m.r0.w, 1_000_000);
    assert_eq!(m.r1.w, 2_000_000);
    assert_eq!(m.r2.w, 3_000_000);
    // Zero rotation leaves the block exactly scale times the identity.
    assert_eq!(m.r0.x, 500_000);
    assert_eq!(m.r1.y, 500_000);
    assert_eq!(m.r2.z, 500_000);
    assert_eq!(m.r0.y, 0);
    assert_eq!(m.r3.w, 1_000_000);
}

#[test]
fn depth_test_smaller_depth_wins_first_order() {
    let mut fb = Framebuffer::new(4, 4);
    fb.set_current_color(0xAA);
    fb.point(1, 1, 300_000);
    fb.set_current_color(0xBB);
    fb.point(1, 1, 700_000);
    assert_eq!(fb.buffer[5], 0xAA);
    assert_eq!(fb.zbuffer[5], 300_000);
}

#[test]
fn depth_test_smaller_depth_wins_reverse_order() {
    let mut fb = Framebuffer::new(4, 4);
    fb.set_current_color(0xBB);
    fb.point(1, 1, 700_000);
    fb.set_current_color(0xAA);
    fb.point(1, 1, 300_000);
    assert_eq!(fb.buffer[5], 0xAA);
    assert_eq!(fb.zbuffer[5], 300_000);
}

#[test]
fn clear_resets_pixels_and_depths() {
    let mut fb = Framebuffer::new(2, 2);
    fb.set_background_color(0x123456);
    fb.set_current_color(0x77);
    fb.point(0, 0, 10);
    fb.clear();
    for i in 0..4 {
        assert_eq!(fb.buffer[i], 0x123456);
        assert_eq!(fb.zbuffer[i], DEPTH_EMPTY);
    }
}

#[test]
fn fragment_at_declared_width_is_discarded() {
    // A sink four pixels wide; a fragment at pixel (4, 0) sits on the
    // exclusive boundary and must be dropped.
    let mut fb = Framebuffer::new(4, 4);
    let u = identity_uniforms(0);
    let f = Fragment::new(
        V3::new(4_000_000, 0, 100_000),
        V3::new(0, 0, 1_000_000),
        100_000,
        V3::new(0, 0, 0),
        0,
    );
    write_fragment(&mut fb, &f, &u, 1);
    for i in 0..16 {
        assert_eq!(fb.buffer[i], 0);
        assert_eq!(fb.zbuffer[i], DEPTH_EMPTY);
    }
    assert_eq!(fb.current_color, 0);
}

#[test]
fn fragment_with_negative_coordinate_is_discarded() {
    let mut fb = Framebuffer::new(4, 4);
    let u = identity_uniforms(0);
    let f = Fragment::new(
        V3::new(-1_000_000, 2_000_000, 100_000),
        V3::new(0, 0, 1_000_000),
        100_000,
        V3::new(0, 0, 0),
        0,
    );
    write_fragment(&mut fb, &f, &u, 1);
    for i in 0..16 {
        assert_eq!(fb.buffer[i], 0);
    }
}

#[test]
fn render_writes_depth_tested_shaded_pixels() {
    // Identity transforms: screen coordinates equal object coordinates.
    // One right triangle covering the upper-left of an 8x8 sink.
    let mut fb = Framebuffer::new(8, 8);
    let u = identity_uniforms(0);
    let mesh = vec![
        Vertex::new(V3::new(0, 0, 500_000), V3::new(0, 0, 1_000_000), V2::new(0, 0)),
        Vertex::new(
            V3::new(0, 4_000_000, 500_000),
            V3::new(0, 0, 1_000_000),
            V2::new(0, 0),
        ),
        Vertex::new(
            V3::new(4_000_000, 0, 500_000),
            V3::new(0, 0, 1_000_000),
            V2::new(0, 0),
        ),
    ];
    render(&mut fb, &u, &mesh, 1);
    let idx = 1 * 8 + 1;
    assert_eq!(fb.zbuffer[idx], 500_000);
    assert_ne!(fb.buffer[idx], 0);
    // A pixel outside the triangle stays untouched.
    let outside = 7 * 8 + 7;
    assert_eq!(fb.buffer[outside], 0);
    assert_eq!(fb.zbuffer[outside], DEPTH_EMPTY);
}

#[test]
fn two_draw_calls_composite_by_depth() {
    // The same triangle drawn twice: first far with the moon shader, then
    // near with the sun shader. The near draw wins the shared pixels.
    let mut fb = Framebuffer::new(8, 8);
    let u = identity_uniforms(0);
    let mesh_far = vec![
        Vertex::new(V3::new(0, 0, 800_000), V3::new(0, 0, 1_000_000), V2::new(0, 0)),
        Vertex::new(
            V3::new(0, 4_000_000, 800_000),
            V3::new(0, 0, 1_000_000),
            V2::new(0, 0),
        ),
        Vertex::new(
            V3::new(4_000_000, 0, 800_000),
            V3::new(0, 0, 1_000_000),
            V2::new(0, 0),
        ),
    ];
    let mesh_near = vec![
        Vertex::new(V3::new(0, 0, 200_000), V3::new(0, 0, 1_000_000), V2::new(0, 0)),
        Vertex::new(
            V3::new(0, 4_000_000, 200_000),
            V3::new(0, 0, 1_000_000),
            V2::new(0, 0),
        ),
        Vertex::new(
            V3::new(4_000_000, 0, 200_000),
            V3::new(0, 0, 1_000_000),
            V2::new(0, 0),
        ),
    ];
    let idx = 1 * 8 + 1;

    render(&mut fb, &u, &mesh_far, 6);
    let far_color = fb.buffer[idx];
    render(&mut fb, &u, &mesh_near, 1);
    let near_color = fb.buffer[idx];
    assert_eq!(fb.zbuffer[idx], 200_000);

    // Same scene with the draw calls swapped: the near surface still wins.
    let mut fb2 = Framebuffer::new(8, 8);
    render(&mut fb2, &u, &mesh_near, 1);
    render(&mut fb2, &u, &mesh_far, 6);
    assert_eq!(fb2.zbuffer[idx], 200_000);
    assert_eq!(fb2.buffer[idx], near_color);
    assert_ne!(far_color, near_color);
}

#[test]
fn noise_components_stay_in_range() {
    for _ in 0..32 {
        let n = create_noise();
        assert!((0..100_000_000).contains(&n.x));
        assert!((0..100_000_000).contains(&n.y));
        assert!((0..100_000_000).contains(&n.z));
    }
}
