//! The vertex stage and the procedural fragment-shading system.
//!
//! Each shader is a pure function of a fragment's object-space position,
//! its normal and the frame counter; its specification mirrors the
//! fixed-point computation step by step. Every diffuse lighting factor is
//! held to `[floor, 1]`: the ambient floor keeps lit pixels from going
//! black, and the cap at one keeps lighting from brightening a surface
//! beyond its unlit color even where fixed-point normalization of a tiny
//! normal overshoots unit length.

use vstd::prelude::*;
use crate::fx::{
    FX_ONE,
    fx_add_spec, fx_sub_spec, fx_abs_spec, fx_min_spec, fx_max_spec,
    fx_mul_spec, fx_div_spec, fx_sin_spec, fx_cos_spec,
    fx_add, fx_sub, fx_abs, fx_min, fx_max, fx_mul, fx_div, fx_sin, fx_cos,
};
use crate::vec3::{V3, V4, v3_norm_spec, v3_normalized_spec, v3_dot_spec};
use crate::matrix::{M4, m4_mul_spec, m4_apply_spec, m4_identity_spec};
use crate::vertex::{Vertex, vertex_in_range};
use crate::fragment::{Fragment, fragment_in_range};
use crate::uniforms::{Uniforms, uniforms_in_range};
use crate::color::{Color, color_lerp, color_scaled, color_added};

verus! {

/// Smallest magnitude the homogeneous divisor is allowed: a vertex at or
/// behind the eye plane is pushed this far off zero instead of dividing
/// by zero.
pub const FX_W_MIN: i64 = 1_000;

/// The divisor for the perspective divide: the transformed w, pushed away
/// from zero while keeping its sign (zero counts as positive).
pub open spec fn divide_w_spec(w: int) -> int {
    if -(FX_W_MIN as int) < w < FX_W_MIN as int {
        if w < 0 {
            -(FX_W_MIN as int)
        } else {
            FX_W_MIN as int
        }
    } else {
        w
    }
}

/// The vertex stage: object space through model, view and projection,
/// perspective divide, then the viewport transform; the normal goes
/// through the identity normal matrix and is renormalized.
pub open spec fn vertex_shader_spec(vertex: Vertex, u: Uniforms) -> Vertex {
    let position = V4 {
        x: vertex.position.x,
        y: vertex.position.y,
        z: vertex.position.z,
        w: FX_ONE,
    };
    let pv = m4_mul_spec(u.projection_matrix, u.view_matrix);
    let pvm = m4_mul_spec(pv, u.model_matrix);
    let transformed = m4_apply_spec(pvm, position);
    let w = divide_w_spec(transformed.w as int);
    let ndc = V4 {
        x: fx_div_spec(transformed.x as int, w) as i64,
        y: fx_div_spec(transformed.y as int, w) as i64,
        z: fx_div_spec(transformed.z as int, w) as i64,
        w: FX_ONE,
    };
    let screen = m4_apply_spec(u.viewport_matrix, ndc);
    let normal4 = m4_apply_spec(
        m4_identity_spec(),
        V4 { x: vertex.normal.x, y: vertex.normal.y, z: vertex.normal.z, w: 0 },
    );
    let transformed_normal = v3_normalized_spec(
        V3 { x: normal4.x, y: normal4.y, z: normal4.z });
    Vertex {
        position: vertex.position,
        normal: vertex.normal,
        tex_coords: vertex.tex_coords,
        transformed_position: V3 { x: screen.x, y: screen.y, z: screen.z },
        transformed_normal,
    }
}

/// Run the vertex stage over one vertex.
#[verifier::rlimit(60)]
pub fn vertex_shader(vertex: &Vertex, uniforms: &Uniforms) -> (v: Vertex)
    requires
        vertex_in_range(*vertex),
        uniforms_in_range(*uniforms),
    ensures
        v == vertex_shader_spec(*vertex, *uniforms),
        vertex_in_range(v),
{
    let position: V4 = V4::new(
        vertex.position.x, vertex.position.y, vertex.position.z, FX_ONE);
    let pv: M4 = uniforms.projection_matrix.mul_mat(&uniforms.view_matrix);
    let pvm: M4 = pv.mul_mat(&uniforms.model_matrix);
    let transformed: V4 = pvm.apply(&position);

    let w: i64 = if -FX_W_MIN < transformed.w && transformed.w < FX_W_MIN {
        if transformed.w < 0 { -FX_W_MIN } else { FX_W_MIN }
    } else {
        transformed.w
    };
    let ndc_position: V4 = V4::new(
        fx_div(transformed.x, w),
        fx_div(transformed.y, w),
        fx_div(transformed.z, w),
        FX_ONE,
    );
    let screen_position: V4 = uniforms.viewport_matrix.apply(&ndc_position);

    let normal_matrix: M4 = M4::identity();
    let normal_vector: V4 = V4::new(vertex.normal.x, vertex.normal.y, vertex.normal.z, 0);
    let transformed_normal4: V4 = normal_matrix.apply(&normal_vector);
    let transformed_normal: V3 = V3::new(
        transformed_normal4.x, transformed_normal4.y, transformed_normal4.z).normalize();

    Vertex {
        position: vertex.position,
        normal: vertex.normal,
        tex_coords: vertex.tex_coords,
        transformed_position: V3::new(
            screen_position.x, screen_position.y, screen_position.z),
        transformed_normal,
    }
}

/// The star surface: plasma blend of two phase-shifted waves, an animated
/// corona toward the rim, dark spots, and a radial glow.
pub open spec fn sun_shader_spec(pos: V3, time_raw: int) -> Color {
    let time = time_raw * 10_000;
    let plasma1 = fx_abs_spec(fx_mul_spec(
        fx_sin_spec(fx_add_spec(fx_mul_spec(pos.x as int, 3_000_000), time)),
        fx_cos_spec(fx_add_spec(fx_mul_spec(pos.y as int, 3_000_000),
            fx_mul_spec(time, 1_300_000)))));
    let plasma2 = fx_abs_spec(fx_mul_spec(
        fx_sin_spec(fx_sub_spec(fx_mul_spec(pos.y as int, 3_000_000),
            fx_mul_spec(time, 800_000))),
        fx_cos_spec(fx_add_spec(fx_mul_spec(pos.z as int, 3_000_000), time))));
    let plasma = fx_mul_spec(fx_add_spec(plasma1, plasma2), 500_000);

    let distance_from_center = v3_norm_spec(pos);
    let corona_effect = fx_max_spec(fx_sub_spec(FX_ONE as int, distance_from_center), 0);
    let corona_pulse = fx_add_spec(
        fx_mul_spec(fx_sin_spec(fx_mul_spec(time, 2_000_000)), 500_000), 500_000);
    let corona = fx_mul_spec(fx_mul_spec(corona_effect, corona_pulse), 300_000);

    let spot = fx_abs_spec(fx_mul_spec(fx_mul_spec(
        fx_sin_spec(fx_mul_spec(pos.x as int, 8_000_000)),
        fx_cos_spec(fx_mul_spec(pos.y as int, 8_000_000))),
        fx_sin_spec(fx_add_spec(fx_mul_spec(pos.z as int, 8_000_000), time))));
    let dark_spots: int = if spot > 850_000 { 600_000 } else { 1_000_000 };

    let radial_glow = fx_sub_spec(FX_ONE as int, fx_min_spec(distance_from_center, FX_ONE as int));
    let glow_intensity = fx_mul_spec(fx_mul_spec(radial_glow, radial_glow), 500_000);

    let base_color = Color { r: 255, g: 100, b: 0 };
    let bright_color = Color { r: 255, g: 255, b: 100 };
    let corona_color = Color { r: 255, g: 200, b: 50 };

    let mixed = color_lerp(base_color, bright_color, plasma);
    let with_corona = color_lerp(mixed, corona_color, corona);
    let with_spots = color_scaled(with_corona, dark_spots);
    color_scaled(with_spots, fx_add_spec(FX_ONE as int, glow_intensity))
}

/// Shade one fragment of the star surface.
pub fn sun_shader(fragment: &Fragment, uniforms: &Uniforms) -> (c: Color)
    requires
        fragment_in_range(*fragment),
    ensures
        c == sun_shader_spec(fragment.vertex_position, uniforms.time as int),
{
    let pos: V3 = fragment.vertex_position;
    let time: i64 = (uniforms.time as i64) * 10_000;

    let plasma1: i64 = fx_abs(fx_mul(
        fx_sin(fx_add(fx_mul(pos.x, 3_000_000), time)),
        fx_cos(fx_add(fx_mul(pos.y, 3_000_000), fx_mul(time, 1_300_000)))));
    let plasma2: i64 = fx_abs(fx_mul(
        fx_sin(fx_sub(fx_mul(pos.y, 3_000_000), fx_mul(time, 800_000))),
        fx_cos(fx_add(fx_mul(pos.z, 3_000_000), time))));
    let plasma: i64 = fx_mul(fx_add(plasma1, plasma2), 500_000);

    let distance_from_center: i64 = pos.norm();
    let corona_effect: i64 = fx_max(fx_sub(FX_ONE, distance_from_center), 0);
    let corona_pulse: i64 = fx_add(fx_mul(fx_sin(fx_mul(time, 2_000_000)), 500_000), 500_000);
    let corona: i64 = fx_mul(fx_mul(corona_effect, corona_pulse), 300_000);

    let spot: i64 = fx_abs(fx_mul(fx_mul(
        fx_sin(fx_mul(pos.x, 8_000_000)),
        fx_cos(fx_mul(pos.y, 8_000_000))),
        fx_sin(fx_add(fx_mul(pos.z, 8_000_000), time))));
    let dark_spots: i64 = if spot > 850_000 { 600_000 } else { 1_000_000 };

    let radial_glow: i64 = fx_sub(FX_ONE, fx_min(distance_from_center, FX_ONE));
    let glow_intensity: i64 = fx_mul(fx_mul(radial_glow, radial_glow), 500_000);

    let base_color: Color = Color::new(255, 100, 0);
    let bright_color: Color = Color::new(255, 255, 100);
    let corona_color: Color = Color::new(255, 200, 50);

    let mixed: Color = base_color.lerp(&bright_color, plasma);
    let with_corona: Color = mixed.lerp(&corona_color, corona);
    let with_spots: Color = with_corona.mul(dark_spots);
    with_spots.mul(fx_add(FX_ONE, glow_intensity))
}

/// The moon surface: gray base, two crater masks, a brightness variation
/// and strong diffuse lighting.
pub open spec fn moon_shader_spec(pos: V3, normal: V3) -> Color {
    let crater1 = fx_abs_spec(fx_mul_spec(
        fx_sin_spec(fx_mul_spec(pos.x as int, 15_000_000)),
        fx_cos_spec(fx_mul_spec(pos.y as int, 15_000_000))));
    let crater2 = fx_abs_spec(fx_mul_spec(
        fx_sin_spec(fx_mul_spec(pos.y as int, 19_500_000)),
        fx_cos_spec(fx_mul_spec(pos.z as int, 19_500_000))));
    let has_crater = crater1 > 800_000 || crater2 > 800_000;

    let variation = fx_abs_spec(fx_mul_spec(
        fx_sin_spec(fx_mul_spec(pos.x as int, 8_000_000)),
        fx_cos_spec(fx_mul_spec(pos.z as int, 8_000_000))));

    let base_color = Color { r: 150, g: 150, b: 150 };
    let dark_gray = Color { r: 100, g: 100, b: 100 };
    let light_gray = Color { r: 180, g: 180, b: 180 };

    let final_color = if has_crater {
        dark_gray
    } else {
        color_lerp(base_color, light_gray, variation)
    };

    let light_dir = v3_normalized_spec(V3 { x: FX_ONE, y: FX_ONE, z: FX_ONE });
    let n = v3_normalized_spec(normal);
    let diffuse = fx_min_spec(fx_max_spec(v3_dot_spec(n, light_dir), 150_000), FX_ONE as int);
    color_scaled(final_color, diffuse)
}

/// Shade one fragment of the moon surface.
pub fn moon_shader(fragment: &Fragment, _uniforms: &Uniforms) -> (c: Color)
    requires
        fragment_in_range(*fragment),
    ensures
        c == moon_shader_spec(fragment.vertex_position, fragment.normal),
{
    let pos: V3 = fragment.vertex_position;

    let base_color: Color = Color::new(150, 150, 150);

    let crater1: i64 = fx_abs(fx_mul(
        fx_sin(fx_mul(pos.x, 15_000_000)),
        fx_cos(fx_mul(pos.y, 15_000_000))));
    let crater2: i64 = fx_abs(fx_mul(
        fx_sin(fx_mul(pos.y, 19_500_000)),
        fx_cos(fx_mul(pos.z, 19_500_000))));
    let has_crater: bool = crater1 > 800_000 || crater2 > 800_000;

    let variation: i64 = fx_abs(fx_mul(
        fx_sin(fx_mul(pos.x, 8_000_000)),
        fx_cos(fx_mul(pos.z, 8_000_000))));

    let dark_gray: Color = Color::new(100, 100, 100);
    let light_gray: Color = Color::new(180, 180, 180);

    let final_color: Color = if has_crater {
        dark_gray
    } else {
        base_color.lerp(&light_gray, variation)
    };

    let light_dir: V3 = V3::new(FX_ONE, FX_ONE, FX_ONE).normalize();
    let normal: V3 = fragment.normal.normalize();
    let diffuse: i64 = fx_min(fx_max(normal.dot(&light_dir), 150_000), FX_ONE);

    final_color.mul(diffuse)
}

/// The rocky planet: land and ocean masks, animated clouds, a rim
/// atmosphere and diffuse lighting.
pub open spec fn rocky_planet_shader_spec(pos: V3, normal: V3, time_raw: int) -> Color {
    let time = time_raw * 5_000;
    let land_noise1 = fx_abs_spec(fx_mul_spec(
        fx_sin_spec(fx_mul_spec(pos.x as int, 5_000_000)),
        fx_cos_spec(fx_mul_spec(pos.y as int, 5_000_000))));
    let land_noise2 = fx_abs_spec(fx_mul_spec(
        fx_sin_spec(fx_mul_spec(pos.y as int, 7_500_000)),
        fx_cos_spec(fx_mul_spec(pos.z as int, 7_500_000))));
    let land = fx_mul_spec(fx_add_spec(land_noise1, land_noise2), 500_000);

    let variation = fx_abs_spec(fx_mul_spec(
        fx_sin_spec(fx_mul_spec(pos.x as int, 10_000_000)),
        fx_cos_spec(fx_mul_spec(pos.z as int, 10_000_000))));
    let base_color = if land > 500_000 {
        if variation > 600_000 {
            Color { r: 34, g: 139, b: 34 }
        } else {
            Color { r: 139, g: 90, b: 43 }
        }
    } else {
        Color { r: 30, g: 60, b: 140 }
    };

    let cloud_offset = fx_mul_spec(time, 500_000);
    let clouds = fx_abs_spec(fx_mul_spec(fx_mul_spec(
        fx_sin_spec(fx_add_spec(fx_mul_spec(pos.x as int, 8_000_000), cloud_offset)),
        fx_cos_spec(fx_mul_spec(pos.y as int, 8_000_000))),
        fx_sin_spec(fx_sub_spec(fx_mul_spec(pos.z as int, 8_000_000),
            fx_mul_spec(cloud_offset, 700_000)))));

    let distance_from_center = v3_norm_spec(pos);
    let rim = fx_max_spec(fx_sub_spec(FX_ONE as int, distance_from_center), 0);
    let atmosphere = fx_mul_spec(fx_mul_spec(fx_mul_spec(rim, rim), rim), 200_000);
    let atmo_color = Color { r: 100, g: 150, b: 255 };

    let with_clouds = if clouds > 700_000 {
        color_lerp(base_color, Color { r: 255, g: 255, b: 255 },
            fx_mul_spec(fx_sub_spec(clouds, 700_000), 2_000_000))
    } else {
        base_color
    };
    let with_atmo = color_lerp(with_clouds, atmo_color, atmosphere);

    let light_dir = v3_normalized_spec(V3 { x: FX_ONE, y: FX_ONE, z: FX_ONE });
    let n = v3_normalized_spec(normal);
    let diffuse = fx_min_spec(fx_max_spec(v3_dot_spec(n, light_dir), 200_000), FX_ONE as int);
    color_scaled(with_atmo, diffuse)
}

/// Shade one fragment of the rocky planet.
pub fn rocky_planet_shader(fragment: &Fragment, uniforms: &Uniforms) -> (c: Color)
    requires
        fragment_in_range(*fragment),
    ensures
        c == rocky_planet_shader_spec(
            fragment.vertex_position, fragment.normal, uniforms.time as int),
{
    let pos: V3 = fragment.vertex_position;
    let time: i64 = (uniforms.time as i64) * 5_000;

    let land_noise1: i64 = fx_abs(fx_mul(
        fx_sin(fx_mul(pos.x, 5_000_000)),
        fx_cos(fx_mul(pos.y, 5_000_000))));
    let land_noise2: i64 = fx_abs(fx_mul(
        fx_sin(fx_mul(pos.y, 7_500_000)),
        fx_cos(fx_mul(pos.z, 7_500_000))));
    let land: i64 = fx_mul(fx_add(land_noise1, land_noise2), 500_000);

    let is_land: bool = land > 500_000;
    let base_color: Color = if is_land {
        let variation: i64 = fx_abs(fx_mul(
            fx_sin(fx_mul(pos.x, 10_000_000)),
            fx_cos(fx_mul(pos.z, 10_000_000))));
        if variation > 600_000 {
            Color::new(34, 139, 34)
        } else {
            Color::new(139, 90, 43)
        }
    } else {
        Color::new(30, 60, 140)
    };

    let cloud_offset: i64 = fx_mul(time, 500_000);
    let clouds: i64 = fx_abs(fx_mul(fx_mul(
        fx_sin(fx_add(fx_mul(pos.x, 8_000_000), cloud_offset)),
        fx_cos(fx_mul(pos.y, 8_000_000))),
        fx_sin(fx_sub(fx_mul(pos.z, 8_000_000), fx_mul(cloud_offset, 700_000)))));
    let cloud_threshold: i64 = 700_000;

    let distance_from_center: i64 = pos.norm();
    let rim: i64 = fx_max(fx_sub(FX_ONE, distance_from_center), 0);
    let atmosphere: i64 = fx_mul(fx_mul(fx_mul(rim, rim), rim), 200_000);
    let atmo_color: Color = Color::new(100, 150, 255);

    let mut final_color: Color = base_color;
    if clouds > cloud_threshold {
        let cloud_color: Color = Color::new(255, 255, 255);
        final_color = final_color.lerp(&cloud_color,
            fx_mul(fx_sub(clouds, cloud_threshold), 2_000_000));
    }
    final_color = final_color.lerp(&atmo_color, atmosphere);

    let light_dir: V3 = V3::new(FX_ONE, FX_ONE, FX_ONE).normalize();
    let normal: V3 = fragment.normal.normalize();
    let diffuse: i64 = fx_min(fx_max(normal.dot(&light_dir), 200_000), FX_ONE);

    final_color.mul(diffuse)
}

/// The gas giant: undulating horizontal bands with turbulence, a three-way
/// color ramp, a localized storm spot and diffuse lighting.
pub open spec fn gas_giant_shader_spec(pos: V3, normal: V3, time_raw: int) -> Color {
    let time = time_raw * 8_000;
    let band_y = fx_add_spec(pos.y as int,
        fx_mul_spec(fx_sin_spec(fx_mul_spec(pos.x as int, 2_000_000)), 100_000));
    let bands = fx_mul_spec(
        fx_add_spec(fx_sin_spec(fx_mul_spec(band_y, 15_000_000)), FX_ONE as int), 500_000);

    let turbulence = fx_abs_spec(fx_mul_spec(fx_mul_spec(
        fx_sin_spec(fx_add_spec(fx_mul_spec(pos.x as int, 20_000_000), time)),
        fx_cos_spec(fx_mul_spec(pos.y as int, 10_000_000))),
        fx_sin_spec(fx_sub_spec(fx_mul_spec(pos.z as int, 20_000_000),
            fx_mul_spec(time, 800_000)))));
    let turb_offset = fx_mul_spec(turbulence, 200_000);

    let dx = fx_sub_spec(pos.x as int, 300_000);
    let dy = fx_sub_spec(pos.y as int, -200_000);
    let dz = fx_sub_spec(pos.z as int, 0);
    let dist_to_spot = crate::fx::fx_sqrt_spec(fx_add_spec(fx_add_spec(
        fx_mul_spec(dx, dx), fx_mul_spec(dy, dy)), fx_mul_spec(dz, dz)));
    let red_spot = fx_max_spec(fx_sub_spec(FX_ONE as int,
        fx_min_spec(fx_div_spec(dist_to_spot, 300_000), FX_ONE as int)), 0);
    let spot_swirl = fx_abs_spec(fx_mul_spec(
        fx_sin_spec(fx_add_spec(fx_mul_spec(pos.x as int, 30_000_000),
            fx_mul_spec(time, 2_000_000))),
        fx_cos_spec(fx_mul_spec(pos.y as int, 30_000_000))));
    let spot_intensity = fx_mul_spec(red_spot, spot_swirl);

    let band_value = fx_add_spec(bands, turb_offset);
    let color1 = Color { r: 220, g: 180, b: 140 };
    let color2 = Color { r: 180, g: 120, b: 80 };
    let color3 = Color { r: 240, g: 220, b: 200 };
    let ramped = if band_value < 330_000 {
        color_lerp(color1, color2, fx_mul_spec(band_value, 3_000_000))
    } else if band_value < 660_000 {
        color_lerp(color2, color3, fx_mul_spec(fx_sub_spec(band_value, 330_000), 3_000_000))
    } else {
        color_lerp(color3, color1, fx_mul_spec(fx_sub_spec(band_value, 660_000), 3_000_000))
    };

    let with_spot = if spot_intensity > 300_000 {
        color_lerp(ramped, Color { r: 200, g: 80, b: 60 }, spot_intensity)
    } else {
        ramped
    };

    let light_dir = v3_normalized_spec(V3 { x: FX_ONE, y: 500_000, z: FX_ONE });
    let n = v3_normalized_spec(normal);
    let diffuse = fx_min_spec(fx_max_spec(v3_dot_spec(n, light_dir), 300_000), FX_ONE as int);
    color_scaled(with_spot, diffuse)
}

/// Shade one fragment of the gas giant.
pub fn gas_giant_shader(fragment: &Fragment, uniforms: &Uniforms) -> (c: Color)
    requires
        fragment_in_range(*fragment),
    ensures
        c == gas_giant_shader_spec(
            fragment.vertex_position, fragment.normal, uniforms.time as int),
{
    let pos: V3 = fragment.vertex_position;
    let time: i64 = (uniforms.time as i64) * 8_000;

    let band_y: i64 = fx_add(pos.y, fx_mul(fx_sin(fx_mul(pos.x, 2_000_000)), 100_000));
    let bands: i64 = fx_mul(fx_add(fx_sin(fx_mul(band_y, 15_000_000)), FX_ONE), 500_000);

    let turbulence: i64 = fx_abs(fx_mul(fx_mul(
        fx_sin(fx_add(fx_mul(pos.x, 20_000_000), time)),
        fx_cos(fx_mul(pos.y, 10_000_000))),
        fx_sin(fx_sub(fx_mul(pos.z, 20_000_000), fx_mul(time, 800_000)))));
    let turb_offset: i64 = fx_mul(turbulence, 200_000);

    let dx: i64 = fx_sub(pos.x, 300_000);
    let dy: i64 = fx_sub(pos.y, -200_000);
    let dz: i64 = fx_sub(pos.z, 0);
    let dist_to_spot: i64 = crate::fx::fx_sqrt(fx_add(fx_add(
        fx_mul(dx, dx), fx_mul(dy, dy)), fx_mul(dz, dz)));
    let red_spot: i64 = fx_max(fx_sub(FX_ONE,
        fx_min(fx_div(dist_to_spot, 300_000), FX_ONE)), 0);
    let spot_swirl: i64 = fx_abs(fx_mul(
        fx_sin(fx_add(fx_mul(pos.x, 30_000_000), fx_mul(time, 2_000_000))),
        fx_cos(fx_mul(pos.y, 30_000_000))));
    let spot_intensity: i64 = fx_mul(red_spot, spot_swirl);

    let band_value: i64 = fx_add(bands, turb_offset);
    let color1: Color = Color::new(220, 180, 140);
    let color2: Color = Color::new(180, 120, 80);
    let color3: Color = Color::new(240, 220, 200);

    let mut final_color: Color = if band_value < 330_000 {
        color1.lerp(&color2, fx_mul(band_value, 3_000_000))
    } else if band_value < 660_000 {
        color2.lerp(&color3, fx_mul(fx_sub(band_value, 330_000), 3_000_000))
    } else {
        color3.lerp(&color1, fx_mul(fx_sub(band_value, 660_000), 3_000_000))
    };

    if spot_intensity > 300_000 {
        let red_color: Color = Color::new(200, 80, 60);
        final_color = final_color.lerp(&red_color, spot_intensity);
    }

    let light_dir: V3 = V3::new(FX_ONE, 500_000, FX_ONE).normalize();
    let normal: V3 = fragment.normal.normalize();
    let diffuse: i64 = fx_min(fx_max(normal.dot(&light_dir), 300_000), FX_ONE);

    final_color.mul(diffuse)
}

/// The ringed planet: subtle pale bands, fine turbulence, a projected
/// ring-shadow band around the equator and diffuse lighting.
pub open spec fn ringed_planet_shader_spec(pos: V3, normal: V3, time_raw: int) -> Color {
    let time = time_raw * 5_000;
    let bands = fx_mul_spec(fx_add_spec(fx_sin_spec(fx_add_spec(
        fx_mul_spec(pos.y as int, 12_000_000),
        fx_mul_spec(fx_sin_spec(fx_mul_spec(pos.x as int, 3_000_000)), 150_000))),
        FX_ONE as int), 500_000);
    let band_color1 = Color { r: 230, g: 210, b: 170 };
    let band_color2 = Color { r: 250, g: 230, b: 190 };
    let banded = color_lerp(band_color1, band_color2, bands);

    let turb = fx_abs_spec(fx_mul_spec(
        fx_sin_spec(fx_add_spec(fx_mul_spec(pos.x as int, 25_000_000), time)),
        fx_cos_spec(fx_mul_spec(pos.z as int, 25_000_000))));
    let turb_factor = fx_add_spec(900_000, fx_mul_spec(turb, 100_000));

    let ring_shadow: int = if fx_abs_spec(pos.y as int) < 150_000 {
        let shadow_pattern = fx_abs_spec(fx_mul_spec(
            fx_sin_spec(fx_mul_spec(pos.x as int, 50_000_000)),
            fx_cos_spec(fx_mul_spec(pos.z as int, 50_000_000))));
        fx_add_spec(500_000, fx_mul_spec(shadow_pattern, 200_000))
    } else {
        FX_ONE as int
    };

    let shaded = color_scaled(banded, fx_mul_spec(turb_factor, ring_shadow));

    let light_dir = v3_normalized_spec(V3 { x: FX_ONE, y: 800_000, z: FX_ONE });
    let n = v3_normalized_spec(normal);
    let diffuse = fx_min_spec(fx_max_spec(v3_dot_spec(n, light_dir), 250_000), FX_ONE as int);
    color_scaled(shaded, diffuse)
}

/// Shade one fragment of the ringed planet.
pub fn ringed_planet_shader(fragment: &Fragment, uniforms: &Uniforms) -> (c: Color)
    requires
        fragment_in_range(*fragment),
    ensures
        c == ringed_planet_shader_spec(
            fragment.vertex_position, fragment.normal, uniforms.time as int),
{
    let pos: V3 = fragment.vertex_position;
    let time: i64 = (uniforms.time as i64) * 5_000;

    let bands: i64 = fx_mul(fx_add(fx_sin(fx_add(
        fx_mul(pos.y, 12_000_000),
        fx_mul(fx_sin(fx_mul(pos.x, 3_000_000)), 150_000))), FX_ONE), 500_000);
    let band_color1: Color = Color::new(230, 210, 170);
    let band_color2: Color = Color::new(250, 230, 190);
    let banded: Color = band_color1.lerp(&band_color2, bands);

    let turb: i64 = fx_abs(fx_mul(
        fx_sin(fx_add(fx_mul(pos.x, 25_000_000), time)),
        fx_cos(fx_mul(pos.z, 25_000_000))));
    let turb_factor: i64 = fx_add(900_000, fx_mul(turb, 100_000));

    let ring_shadow: i64 = if fx_abs(pos.y) < 150_000 {
        let shadow_pattern: i64 = fx_abs(fx_mul(
            fx_sin(fx_mul(pos.x, 50_000_000)),
            fx_cos(fx_mul(pos.z, 50_000_000))));
        fx_add(500_000, fx_mul(shadow_pattern, 200_000))
    } else {
        FX_ONE
    };

    let final_color: Color = banded.mul(fx_mul(turb_factor, ring_shadow));

    let light_dir: V3 = V3::new(FX_ONE, 800_000, FX_ONE).normalize();
    let normal: V3 = fragment.normal.normalize();
    let diffuse: i64 = fx_min(fx_max(normal.dot(&light_dir), 250_000), FX_ONE);

    final_color.mul(diffuse)
}

/// The lava planet: pulsing lava base, a dark crust mask, bright crack
/// overrides, an additive heat glow and diffuse lighting.
pub open spec fn planet_with_moon_shader_spec(pos: V3, normal: V3, time_raw: int) -> Color {
    let time = time_raw * 10_000;
    let lava_pulse = fx_add_spec(
        fx_mul_spec(fx_sin_spec(fx_mul_spec(time, 3_000_000)), 500_000), 500_000);
    let lava_color = Color { r: 255, g: 100, b: 0 };

    let crust_noise = fx_abs_spec(fx_mul_spec(fx_mul_spec(
        fx_sin_spec(fx_mul_spec(pos.x as int, 8_000_000)),
        fx_cos_spec(fx_mul_spec(pos.y as int, 8_000_000))),
        fx_sin_spec(fx_mul_spec(pos.z as int, 8_000_000))));

    let cracks = fx_abs_spec(fx_mul_spec(
        fx_sin_spec(fx_add_spec(fx_mul_spec(pos.x as int, 20_000_000), time)),
        fx_cos_spec(fx_sub_spec(fx_mul_spec(pos.y as int, 20_000_000),
            fx_mul_spec(time, 700_000)))));

    let heat_glow = fx_mul_spec(fx_abs_spec(fx_mul_spec(
        fx_sin_spec(fx_add_spec(fx_mul_spec(pos.x as int, 5_000_000),
            fx_mul_spec(time, 2_000_000))),
        fx_cos_spec(fx_sub_spec(fx_mul_spec(pos.z as int, 5_000_000), time)))), 300_000);

    let crust_color = Color { r: 40, g: 40, b: 40 };
    let crack_color = Color { r: 255, g: 150, b: 0 };

    let base = if crust_noise > 400_000 {
        crust_color
    } else {
        color_scaled(lava_color, fx_add_spec(700_000, fx_mul_spec(lava_pulse, 300_000)))
    };
    let with_cracks = if cracks > 850_000 { crack_color } else { base };

    let glow_add = Color {
        r: crate::color::chan_of_fx(fx_mul_spec(heat_glow, 100_000_000)) as u8,
        g: crate::color::chan_of_fx(fx_mul_spec(heat_glow, 50_000_000)) as u8,
        b: 0,
    };
    let with_glow = color_added(with_cracks, glow_add);

    let light_dir = v3_normalized_spec(V3 { x: FX_ONE, y: FX_ONE, z: FX_ONE });
    let n = v3_normalized_spec(normal);
    let diffuse = fx_min_spec(fx_max_spec(v3_dot_spec(n, light_dir), 300_000), FX_ONE as int);
    color_scaled(with_glow, diffuse)
}

/// Shade one fragment of the lava planet.
pub fn planet_with_moon_shader(fragment: &Fragment, uniforms: &Uniforms) -> (c: Color)
    requires
        fragment_in_range(*fragment),
    ensures
        c == planet_with_moon_shader_spec(
            fragment.vertex_position, fragment.normal, uniforms.time as int),
{
    let pos: V3 = fragment.vertex_position;
    let time: i64 = (uniforms.time as i64) * 10_000;

    let lava_pulse: i64 = fx_add(fx_mul(fx_sin(fx_mul(time, 3_000_000)), 500_000), 500_000);
    let lava_color: Color = Color::new(255, 100, 0);

    let crust_noise: i64 = fx_abs(fx_mul(fx_mul(
        fx_sin(fx_mul(pos.x, 8_000_000)),
        fx_cos(fx_mul(pos.y, 8_000_000))),
        fx_sin(fx_mul(pos.z, 8_000_000))));
    let is_crust: bool = crust_noise > 400_000;

    let cracks: i64 = fx_abs(fx_mul(
        fx_sin(fx_add(fx_mul(pos.x, 20_000_000), time)),
        fx_cos(fx_sub(fx_mul(pos.y, 20_000_000), fx_mul(time, 700_000)))));
    let has_crack: bool = cracks > 850_000;

    let heat_glow: i64 = fx_mul(fx_abs(fx_mul(
        fx_sin(fx_add(fx_mul(pos.x, 5_000_000), fx_mul(time, 2_000_000))),
        fx_cos(fx_sub(fx_mul(pos.z, 5_000_000), time)))), 300_000);

    let crust_color: Color = Color::new(40, 40, 40);
    let crack_color: Color = Color::new(255, 150, 0);

    let mut final_color: Color = if is_crust {
        crust_color
    } else {
        lava_color.mul(fx_add(700_000, fx_mul(lava_pulse, 300_000)))
    };

    if has_crack {
        final_color = crack_color;
    }

    let glow_add: Color = Color::new(
        crate::color::fx_to_channel(fx_mul(heat_glow, 100_000_000)),
        crate::color::fx_to_channel(fx_mul(heat_glow, 50_000_000)),
        0,
    );
    final_color = final_color.add(&glow_add);

    let light_dir: V3 = V3::new(FX_ONE, FX_ONE, FX_ONE).normalize();
    let normal: V3 = fragment.normal.normalize();
    let diffuse: i64 = fx_min(fx_max(normal.dot(&light_dir), 300_000), FX_ONE);

    final_color.mul(diffuse)
}

/// What the shading system returns for every fragment, uniform set and
/// shader identifier; identifiers outside the six variants fall back to
/// opaque white.
pub open spec fn fragment_shader_spec(f: Fragment, u: Uniforms, shader_type: u8) -> Color {
    if shader_type == 1 {
        sun_shader_spec(f.vertex_position, u.time as int)
    } else if shader_type == 2 {
        rocky_planet_shader_spec(f.vertex_position, f.normal, u.time as int)
    } else if shader_type == 3 {
        gas_giant_shader_spec(f.vertex_position, f.normal, u.time as int)
    } else if shader_type == 4 {
        ringed_planet_shader_spec(f.vertex_position, f.normal, u.time as int)
    } else if shader_type == 5 {
        planet_with_moon_shader_spec(f.vertex_position, f.normal, u.time as int)
    } else if shader_type == 6 {
        moon_shader_spec(f.vertex_position, f.normal)
    } else {
        Color { r: 255, g: 255, b: 255 }
    }
}

/// Dispatch one fragment to the selected shader variant.
pub fn fragment_shader(fragment: &Fragment, uniforms: &Uniforms, shader_type: u8) -> (c: Color)
    requires
        fragment_in_range(*fragment),
    ensures
        c == fragment_shader_spec(*fragment, *uniforms, shader_type),
{
    match shader_type {
        1 => sun_shader(fragment, uniforms),
        2 => rocky_planet_shader(fragment, uniforms),
        3 => gas_giant_shader(fragment, uniforms),
        4 => ringed_planet_shader(fragment, uniforms),
        5 => planet_with_moon_shader(fragment, uniforms),
        6 => moon_shader(fragment, uniforms),
        _ => Color::new(255, 255, 255),
    }
}

/// Shading is a pure function of the fragment's object-space position,
/// its normal, the frame counter and the variant identifier: two calls
/// agreeing there return the same color, whatever the fragments' other
/// fields and the other uniform values.
pub proof fn lemma_shading_pure(
    f1: Fragment, u1: Uniforms, f2: Fragment, u2: Uniforms, shader_type: u8)
    requires
        f1.vertex_position == f2.vertex_position,
        f1.normal == f2.normal,
        u1.time == u2.time,
    ensures
        fragment_shader_spec(f1, u1, shader_type) == fragment_shader_spec(f2, u2, shader_type),
{
}

/// An identifier outside the six variants always yields opaque white,
/// whatever the fragment holds.
pub proof fn lemma_unknown_shader_white(f: Fragment, u: Uniforms, shader_type: u8)
    requires
        shader_type < 1 || shader_type > 6,
    ensures
        fragment_shader_spec(f, u, shader_type) == (Color { r: 255, g: 255, b: 255 }),
{
}

} // verus!
