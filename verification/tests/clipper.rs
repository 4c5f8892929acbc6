use tinyrender::color::Color;
use tinyrender::rasterizer::{
    bounding_sphere, clip_instance, clip_instance_against_plane, clip_triangle,
    clip_triangles_against_plane, segment_plane_intersection, signed_distance, Plane, Triangle,
};
use tinyrender::vec3::Vec3;

fn v(x: i64, y: i64, z: i64) -> Vec3 {
    Vec3::new(x, y, z)
}

// The half-space z >= 1.
fn z_at_least_one() -> Plane {
    Plane::new(v(0, 0, 1_000_000), 1_000_000)
}

#[test]
fn plane_stores_the_negated_offset() {
    let p = z_at_least_one();
    assert_eq!(p.d, -1_000_000);
    assert_eq!(signed_distance(p, v(0, 0, 3_000_000)), 2_000_000);
    assert_eq!(signed_distance(p, v(0, 0, 0)), -1_000_000);
}

#[test]
fn segment_meets_plane_at_the_parametric_point() {
    let p = z_at_least_one();
    let a = v(0, 0, 2_000_000);
    let b = v(0, 0, 0);
    assert_eq!(segment_plane_intersection(p, a, b), v(0, 0, 1_000_000));
}

#[test]
fn segment_parallel_to_plane_returns_the_first_endpoint() {
    let p = z_at_least_one();
    let a = v(1_000_000, 0, 3_000_000);
    let b = v(2_000_000, 0, 3_000_000);
    assert_eq!(segment_plane_intersection(p, a, b), a);
}

#[test]
fn bounding_sphere_of_two_points() {
    let pts = [v(0, 0, 0), v(2_000_000, 0, 0)];
    let (center, radius) = bounding_sphere(&pts);
    assert_eq!(center, v(1_000_000, 0, 0));
    assert_eq!(radius, 1_000_000);
}

#[test]
fn triangle_fully_inside_passes_unchanged() {
    let mut vertices = vec![v(0, 0, 2_000_000), v(0, 1_000_000, 2_000_000), v(1_000_000, 0, 2_000_000)];
    let mut out: Vec<Triangle> = Vec::new();
    let t = Triangle::new([0, 1, 2], Color::new(7, 8, 9));
    clip_triangle(&mut vertices, &mut out, z_at_least_one(), t);
    assert_eq!(vertices.len(), 3);
    assert_eq!(out.len(), 1);
    assert_eq!(out[0], t);
}

#[test]
fn triangle_fully_outside_is_discarded() {
    let mut vertices = vec![v(0, 0, 0), v(0, 1_000_000, 0), v(1_000_000, 0, 500_000)];
    let mut out: Vec<Triangle> = Vec::new();
    let t = Triangle::new([0, 1, 2], Color::new(7, 8, 9));
    clip_triangle(&mut vertices, &mut out, z_at_least_one(), t);
    assert_eq!(vertices.len(), 3);
    assert!(out.is_empty());
}

#[test]
fn triangle_with_two_corners_inside_splits_into_two() {
    let mut vertices = vec![v(0, 0, 2_000_000), v(0, 1_000_000, 2_000_000), v(0, 0, 0)];
    let mut out: Vec<Triangle> = Vec::new();
    let color = Color::new(7, 8, 9);
    clip_triangle(&mut vertices, &mut out, z_at_least_one(), Triangle::new([0, 1, 2], color));
    // Two cut points appended at the plane.
    assert_eq!(vertices.len(), 5);
    assert_eq!(vertices[3], v(0, 0, 1_000_000));
    assert_eq!(vertices[4], v(0, 500_000, 1_000_000));
    // Two triangles cover the quadrilateral, in the original winding.
    assert_eq!(out.len(), 2);
    assert_eq!(out[0], Triangle::new([0, 1, 3], color));
    assert_eq!(out[1], Triangle::new([3, 1, 4], color));
}

#[test]
fn triangle_with_one_corner_inside_shrinks_to_one() {
    let mut vertices = vec![v(0, 0, 2_000_000), v(0, 1_000_000, 0), v(0, -1_000_000, 0)];
    let mut out: Vec<Triangle> = Vec::new();
    let color = Color::new(7, 8, 9);
    clip_triangle(&mut vertices, &mut out, z_at_least_one(), Triangle::new([0, 1, 2], color));
    assert_eq!(vertices.len(), 5);
    assert_eq!(vertices[3], v(0, 500_000, 1_000_000));
    assert_eq!(vertices[4], v(0, -500_000, 1_000_000));
    assert_eq!(out.len(), 1);
    assert_eq!(out[0], Triangle::new([0, 3, 4], color));
}

#[test]
fn list_clipping_folds_over_every_triangle() {
    let mut vertices = vec![
        v(0, 0, 2_000_000),
        v(0, 1_000_000, 2_000_000),
        v(1_000_000, 0, 2_000_000),
        v(0, 0, 0),
    ];
    let color = Color::new(1, 1, 1);
    let triangles = [Triangle::new([0, 1, 2], color), Triangle::new([0, 1, 3], color)];
    let out = clip_triangles_against_plane(&mut vertices, z_at_least_one(), &triangles);
    // The first triangle passes; the second is split into two.
    assert_eq!(out.len(), 3);
    assert_eq!(out[0], Triangle::new([0, 1, 2], color));
    assert_eq!(vertices.len(), 6);
}

fn far_cube(zc: i64) -> (Vec<Vec3>, Vec<Triangle>) {
    let s = 1_000_000;
    let vertices = vec![
        v(s, s, zc + s),
        v(-s, s, zc + s),
        v(-s, -s, zc + s),
        v(s, -s, zc + s),
        v(s, s, zc - s),
        v(-s, s, zc - s),
        v(-s, -s, zc - s),
        v(s, -s, zc - s),
    ];
    let c = Color::new(5, 5, 5);
    let triangles = vec![
        Triangle::new([0, 1, 2], c),
        Triangle::new([0, 2, 3], c),
        Triangle::new([4, 0, 3], c),
        Triangle::new([4, 3, 7], c),
        Triangle::new([5, 4, 7], c),
        Triangle::new([5, 7, 6], c),
        Triangle::new([1, 5, 6], c),
        Triangle::new([1, 6, 2], c),
        Triangle::new([4, 5, 1], c),
        Triangle::new([4, 1, 0], c),
        Triangle::new([2, 6, 7], c),
        Triangle::new([2, 7, 3], c),
    ];
    (vertices, triangles)
}

#[test]
fn bounding_sphere_fast_accept_leaves_everything_alone() {
    // A cube centered at z = 10 sits far inside the half-space z >= 1:
    // the fast path accepts it and per-triangle clipping never runs.
    let (mut vertices, triangles) = far_cube(10_000_000);
    let out = clip_instance_against_plane(&mut vertices, &triangles, z_at_least_one());
    assert_eq!(vertices.len(), 8);
    let out = out.expect("fast accept keeps the instance");
    assert_eq!(out, triangles);
}

#[test]
fn bounding_sphere_fast_reject_drops_the_instance() {
    let (mut vertices, triangles) = far_cube(-10_000_000);
    let out = clip_instance_against_plane(&mut vertices, &triangles, z_at_least_one());
    assert!(out.is_none());
    assert_eq!(vertices.len(), 8);
}

#[test]
fn empty_triangle_list_clips_to_nothing() {
    let mut vertices = vec![v(0, 0, 0)];
    let out = clip_instance_against_plane(&mut vertices, &[], z_at_least_one());
    assert_eq!(out, Some(Vec::new()));
    assert_eq!(vertices.len(), 1);
}

#[test]
fn plane_chain_short_circuits_on_rejection() {
    let (mut vertices, triangles) = far_cube(-10_000_000);
    let planes = [
        z_at_least_one(),
        Plane::new(v(0, 0, -1_000_000), -20_000_000),
    ];
    let out = clip_instance(&mut vertices, &triangles, &planes);
    assert!(out.is_none());
}

#[test]
fn plane_chain_accepts_through_every_plane() {
    let (mut vertices, triangles) = far_cube(10_000_000);
    let planes = [z_at_least_one(), Plane::new(v(0, 0, -1_000_000), -20_000_000)];
    // Second plane keeps z <= 20, which the cube also satisfies.
    let out = clip_instance(&mut vertices, &triangles, &planes);
    let out = out.expect("cube inside both half-spaces");
    assert_eq!(out, triangles);
    assert_eq!(vertices.len(), 8);
}
