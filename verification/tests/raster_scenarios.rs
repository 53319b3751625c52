use softrast::vec3::{V2, V3};
use softrast::vertex::Vertex;
use softrast::raster::{edge_function, triangle};
use softrast::render::group_triangles;

fn screen_vertex(x: i64, y: i64, z: i64) -> Vertex {
    Vertex {
        position: V3::new(0, 0, 0),
        normal: V3::new(0, 0, 1_000_000),
        tex_coords: V2::new(0, 0),
        transformed_position: V3::new(x, y, z),
        transformed_normal: V3::new(0, 0, 1_000_000),
    }
}

#[test]
fn edge_function_signed_area() {
    let a = V3::new(0, 0, 0);
    let b = V3::new(4_000_000, 0, 0);
    let c = V3::new(0, 4_000_000, 0);
    assert_eq!(edge_function(&a, &b, &c), -16_000_000_000_000i128);
    assert_eq!(edge_function(&a, &c, &b), 16_000_000_000_000i128);
}

#[test]
fn right_triangle_interpolates_uniform_depth_exactly() {
    // Screen vertices (0,0), (4,0), (0,4), all at depth 0.5, wound so the
    // signed area is positive.
    let v1 = screen_vertex(0, 0, 500_000);
    let v2 = screen_vertex(0, 4_000_000, 500_000);
    let v3 = screen_vertex(4_000_000, 0, 500_000);
    let frags = triangle(&v1, &v2, &v3);
    let at_1_1: Vec<_> = frags
        .iter()
        .filter(|f| f.position.x == 1_000_000 && f.position.y == 1_000_000)
        .collect();
    assert_eq!(at_1_1.len(), 1);
    assert_eq!(at_1_1[0].depth, 500_000);
    assert_eq!(at_1_1[0].position.z, 500_000);
}

#[test]
fn pixel_strictly_outside_is_never_emitted() {
    let v1 = screen_vertex(0, 0, 500_000);
    let v2 = screen_vertex(0, 4_000_000, 500_000);
    let v3 = screen_vertex(4_000_000, 0, 500_000);
    let frags = triangle(&v1, &v2, &v3);
    // The center of pixel (3, 3) lies outside the hypotenuse.
    assert!(!frags
        .iter()
        .any(|f| f.position.x == 3_000_000 && f.position.y == 3_000_000));
}

#[test]
fn opposite_winding_emits_nothing() {
    let v1 = screen_vertex(0, 0, 500_000);
    let v2 = screen_vertex(4_000_000, 0, 500_000);
    let v3 = screen_vertex(0, 4_000_000, 500_000);
    assert!(triangle(&v1, &v2, &v3).is_empty());
}

#[test]
fn degenerate_triangle_emits_nothing() {
    // Three collinear points: zero area.
    let v1 = screen_vertex(0, 0, 500_000);
    let v2 = screen_vertex(1_000_000, 1_000_000, 500_000);
    let v3 = screen_vertex(2_000_000, 2_000_000, 500_000);
    assert!(triangle(&v1, &v2, &v3).is_empty());
}

#[test]
fn coincident_vertices_emit_nothing() {
    let v = screen_vertex(1_000_000, 1_000_000, 500_000);
    assert!(triangle(&v, &v, &v).is_empty());
}

#[test]
fn barycentric_depth_blends_three_values() {
    // Depths 0, 1 and 1 at the corners; at pixel (1,1) the weights are
    // 1/4, 3/8, 3/8, so the depth is exactly 0.75.
    let v1 = screen_vertex(0, 0, 0);
    let v2 = screen_vertex(0, 4_000_000, 1_000_000);
    let v3 = screen_vertex(4_000_000, 0, 1_000_000);
    let frags = triangle(&v1, &v2, &v3);
    let f = frags
        .iter()
        .find(|f| f.position.x == 1_000_000 && f.position.y == 1_000_000)
        .unwrap();
    assert_eq!(f.depth, 750_000);
}

#[test]
fn seven_vertices_form_exactly_two_triangles() {
    let raw: Vec<Vertex> = (0..7)
        .map(|i| {
            Vertex::new(
                V3::new(i * 1_000_000, 0, 0),
                V3::new(0, 0, 1_000_000),
                V2::new(0, 0),
            )
        })
        .collect();
    let tris = group_triangles(&raw);
    assert_eq!(tris.len(), 2);
    assert_eq!(tris[0].0.position.x, 0);
    assert_eq!(tris[0].2.position.x, 2_000_000);
    assert_eq!(tris[1].0.position.x, 3_000_000);
    assert_eq!(tris[1].2.position.x, 5_000_000);
}

#[test]
fn six_vertices_form_exactly_two_triangles() {
    let raw: Vec<Vertex> = (0..6)
        .map(|i| {
            Vertex::new(
                V3::new(i * 1_000_000, 0, 0),
                V3::new(0, 0, 1_000_000),
                V2::new(0, 0),
            )
        })
        .collect();
    assert_eq!(group_triangles(&raw).len(), 2);
}

#[test]
fn two_vertices_form_no_triangle() {
    let raw: Vec<Vertex> = (0..2)
        .map(|i| {
            Vertex::new(
                V3::new(i * 1_000_000, 0, 0),
                V3::new(0, 0, 1_000_000),
                V2::new(0, 0),
            )
        })
        .collect();
    assert!(group_triangles(&raw).is_empty());
}
