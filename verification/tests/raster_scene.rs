use tinyrender::color::Color;
use tinyrender::mat4::{Mat4, Vec4};
use tinyrender::rasterizer::{
    project_vertex, render_instance, render_object, render_scene, view_to_canvas, Camera, Instance,
    Model, Plane, Triangle, Vec2,
};
use tinyrender::vec3::Vec3;

fn v(x: i64, y: i64, z: i64) -> Vec3 {
    Vec3::new(x, y, z)
}

fn unit_cube() -> Model {
    let s = 1_000_000;
    let vertices = vec![
        v(s, s, s),
        v(-s, s, s),
        v(-s, -s, s),
        v(s, -s, s),
        v(s, s, -s),
        v(-s, s, -s),
        v(-s, -s, -s),
        v(s, -s, -s),
    ];
    let c = Color::new(40, 200, 40);
    let triangles = vec![
        Triangle::new([0, 1, 2], c),
        Triangle::new([0, 2, 3], c),
        Triangle::new([4, 0, 3], c),
        Triangle::new([4, 3, 7], c),
        Triangle::new([5, 4, 7], c),
        Triangle::new([5, 7, 6], c),
        Triangle::new([1, 5, 6], c),
        Triangle::new([1, 6, 2], c),
        Triangle::new([4, 5, 1], c),
        Triangle::new([4, 1, 0], c),
        Triangle::new([2, 6, 7], c),
        Triangle::new([2, 7, 3], c),
    ];
    Model::new(vertices, triangles)
}

// Rotation about the y axis by -45 degrees, in fixed point.
fn rotation_y_minus_45() -> Mat4 {
    let c = 707_107;
    let s = -707_107;
    Mat4::from_rows(
        Vec4::new(c, 0, s, 0),
        Vec4::new(0, 1_000_000, 0, 0),
        Vec4::new(-s, 0, c, 0),
        Vec4::new(0, 0, 0, 1_000_000),
    )
}

fn frustum() -> [Plane; 5] {
    let half = 707_107;
    [
        Plane::new(v(0, 0, 1_000_000), 500_000),
        Plane::new(v(half, 0, half), 0),
        Plane::new(v(-half, 0, half), 0),
        Plane::new(v(0, half, half), 0),
        Plane::new(v(0, -half, half), 0),
    ]
}

#[test]
fn identity_transform_keeps_vertices() {
    let m = Mat4::identity();
    let p = v(123_456, -654_321, 42);
    assert_eq!(m.transform_point(p), p);
}

#[test]
fn translation_matrix_adds_the_offset() {
    let m = Mat4::from_translation(v(10_000, -20_000, 30_000));
    assert_eq!(m.transform_point(v(1_000, 2_000, 3_000)), v(11_000, -18_000, 33_000));
}

#[test]
fn matrix_product_composes_translations() {
    let a = Mat4::from_translation(v(1_000_000, 0, 0));
    let b = Mat4::from_translation(v(0, 2_000_000, 0));
    let m = a.matmul(b);
    assert_eq!(m.transform_point(v(0, 0, 0)), v(1_000_000, 2_000_000, 0));
}

#[test]
fn transpose_swaps_rows_and_columns() {
    let m = Mat4::from_rows(
        Vec4::new(1, 2, 3, 4),
        Vec4::new(5, 6, 7, 8),
        Vec4::new(9, 10, 11, 12),
        Vec4::new(13, 14, 15, 16),
    );
    let t = m.transpose();
    assert_eq!(t.r0, Vec4::new(1, 5, 9, 13));
    assert_eq!(t.r3, Vec4::new(4, 8, 12, 16));
    assert_eq!(t.transpose(), m);
}

#[test]
fn projection_divides_by_depth() {
    let camera = Camera::new(v(0, 0, 0), Mat4::identity(), frustum());
    // (-2, 1, 4) in camera space: view-plane point (-0.5, 0.25), scaled
    // onto a 600x600 canvas.
    let p = project_vertex(600, 600, &camera, v(-2_000_000, 1_000_000, 4_000_000));
    assert_eq!(p, Vec2::new(-300_000_000, 150_000_000));
    let q = view_to_canvas(600, 600, &camera, -500_000, 250_000);
    assert_eq!(q, p);
}

#[test]
fn render_object_projects_translated_vertices() {
    let camera = Camera::new(v(0, 0, 0), Mat4::identity(), frustum());
    // After the fixed (-1.5, 0, 7) offset these sit at (0, 0, 1) and
    // (-2, 1, 4).
    let vertices = [v(1_500_000, 0, -6_000_000), v(-500_000, 1_000_000, -3_000_000)];
    let projected = render_object(&camera, 600, 600, &vertices);
    assert_eq!(projected.len(), 2);
    assert_eq!(projected[0], Vec2::new(0, 0));
    assert_eq!(projected[1], Vec2::new(-300_000_000, 150_000_000));
}

#[test]
fn visible_cube_keeps_all_twelve_triangles() {
    // A unit cube moved to z = 4, seen from (-3, 1, 2) with the camera
    // turned 45 degrees toward it: every corner lies inside all five
    // planes, so the full wireframe of 12 triangles survives.
    let camera = Camera::new(v(-3_000_000, 1_000_000, 2_000_000), rotation_y_minus_45(), frustum());
    let cube = unit_cube();
    let expected = cube.triangles.clone();
    let instance = Instance::new(
        cube,
        v(1_000_000, 1_000_000, 1_000_000),
        Mat4::identity(),
        v(0, 0, 4_000_000),
    );
    let out = render_instance(&camera, &instance, 600, 600);
    let (projected, triangles) = out.expect("cube is fully visible");
    assert_eq!(triangles, expected);
    assert_eq!(projected.len(), 8);
}

#[test]
fn instance_behind_the_camera_renders_nothing() {
    let camera = Camera::new(v(-3_000_000, 1_000_000, 2_000_000), rotation_y_minus_45(), frustum());
    let instance = Instance::new(
        unit_cube(),
        v(1_000_000, 1_000_000, 1_000_000),
        Mat4::identity(),
        v(0, 0, -1_000_000),
    );
    assert!(render_instance(&camera, &instance, 600, 600).is_none());
}

#[test]
fn scene_renders_each_instance_in_order() {
    let camera = Camera::new(v(-3_000_000, 1_000_000, 2_000_000), rotation_y_minus_45(), frustum());
    let visible = Instance::new(
        unit_cube(),
        v(1_000_000, 1_000_000, 1_000_000),
        Mat4::identity(),
        v(0, 0, 4_000_000),
    );
    let rejected = Instance::new(
        unit_cube(),
        v(1_000_000, 1_000_000, 1_000_000),
        Mat4::identity(),
        v(0, 0, -1_000_000),
    );
    let results = render_scene(&camera, &vec![visible, rejected], 600, 600);
    assert_eq!(results.len(), 2);
    let (_, triangles) = results[0].as_ref().expect("first instance visible");
    assert_eq!(triangles.len(), 12);
    assert!(results[1].is_none());
}
