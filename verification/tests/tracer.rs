use tinyrender::color::Color;
use tinyrender::fixed::{SCALE, T_INF};
use tinyrender::light::Light;
use tinyrender::scene::Scene;
use tinyrender::sphere::Sphere;
use tinyrender::vec3::Vec3;

fn v(x: i64, y: i64, z: i64) -> Vec3 {
    Vec3::new(x, y, z)
}

#[test]
fn ray_missing_every_sphere_returns_background() {
    let scene = Scene::new(
        vec![Sphere::new(v(0, 0, 5_000_000), 1_000_000, Color::new(10, 20, 30), None, None)],
        vec![Light::ambient(SCALE)],
    );
    // A ray pointing straight up passes nowhere near the sphere at z = 5.
    let c = scene.trace(v(0, 0, 0), v(0, SCALE, 0), SCALE, T_INF, 3);
    assert_eq!(c, Color::background());
    assert_eq!(c, Color::new(0, 0, 0));
}

#[test]
fn grazing_ray_has_equal_roots() {
    // Sphere of radius 1 whose center sits at perpendicular distance
    // exactly 1 from the ray: the discriminant is exactly zero and the
    // two roots coincide.
    let s = Sphere::new(v(1_000_000, 0, 5_000_000), 1_000_000, Color::new(1, 2, 3), None, None);
    let (t1, t2) = s.intersect(v(0, 0, 0), v(0, 0, SCALE));
    assert_eq!(t1, t2);
    assert_eq!(t1, 5_000_000);
}

#[test]
fn head_on_ray_has_two_distinct_roots() {
    let s = Sphere::new(v(0, 0, 3_000_000), 1_000_000, Color::new(1, 2, 3), None, None);
    let (t1, t2) = s.intersect(v(0, 0, 0), v(0, 0, SCALE));
    // `+` branch first: the far root, then the near one.
    assert_eq!(t1, 4_000_000);
    assert_eq!(t2, 2_000_000);
}

#[test]
fn degenerate_direction_is_a_miss() {
    let s = Sphere::new(v(0, 0, 3_000_000), 1_000_000, Color::new(1, 2, 3), None, None);
    let (t1, t2) = s.intersect(v(0, 0, 0), v(0, 0, 0));
    assert_eq!((t1, t2), (T_INF, T_INF));
}

#[test]
fn zero_reflectivity_equals_local_shading_at_any_depth() {
    let mk = |reflective| {
        Scene::new(
            vec![Sphere::new(v(0, 0, 3_000_000), 1_000_000, Color::new(255, 0, 0), None, reflective)],
            vec![Light::ambient(SCALE)],
        )
    };
    let opaque = mk(None);
    let zero_reflective = mk(Some(0));
    let origin = v(0, 0, 0);
    let dir = v(0, 0, SCALE);
    let local = opaque.trace(origin, dir, SCALE, T_INF, 3);
    assert_eq!(local, Color::new(255, 0, 0));
    for depth in [0, 1, 3, 7] {
        assert_eq!(zero_reflective.trace(origin, dir, SCALE, T_INF, depth), local);
    }
}

#[test]
fn depth_zero_never_recurses() {
    // Half-reflective red sphere under full ambient light. With the
    // depth exhausted the result is the plain local color; with depth
    // left, the background (black) is blended in at weight one half.
    let scene = Scene::new(
        vec![Sphere::new(
            v(0, 0, 3_000_000),
            1_000_000,
            Color::new(255, 0, 0),
            None,
            Some(500_000),
        )],
        vec![Light::ambient(SCALE)],
    );
    let origin = v(0, 0, 0);
    let dir = v(0, 0, SCALE);
    assert_eq!(scene.trace(origin, dir, SCALE, T_INF, 0), Color::new(255, 0, 0));
    assert_eq!(scene.trace(origin, dir, SCALE, T_INF, -3), Color::new(255, 0, 0));
    assert_eq!(scene.trace(origin, dir, SCALE, T_INF, 3), Color::new(127, 0, 0));
}

#[test]
fn occluded_point_light_contributes_nothing() {
    // The camera ray hits the red sphere at (0, 0, 2); the point light
    // sits off axis at (0, 2, 0), and the blocker sits on the segment
    // between them, at its midpoint, well away from the camera ray.
    let shaded_sphere =
        Sphere::new(v(0, 0, 3_000_000), 1_000_000, Color::new(255, 0, 0), None, None);
    let blocker =
        Sphere::new(v(0, 1_000_000, 1_000_000), 300_000, Color::new(9, 9, 9), None, None);
    let lights = vec![Light::ambient(200_000), Light::point(800_000, v(0, 2_000_000, 0))];

    // Unoccluded: ambient 0.2 plus the cosine-weighted diffuse term.
    let open_scene = Scene::new(vec![shaded_sphere], vec![lights[0], lights[1]]);
    let lit = open_scene.trace(v(0, 0, 0), v(0, 0, SCALE), SCALE, T_INF, 3);
    assert_eq!(lit, Color::new(195, 0, 0));

    // The same light fully occluded by an opaque sphere between it and
    // the shading point: only the ambient 0.2 remains.
    let blocked_scene = Scene::new(vec![shaded_sphere, blocker], vec![lights[0], lights[1]]);
    let shadowed = blocked_scene.trace(v(0, 0, 0), v(0, 0, SCALE), SCALE, T_INF, 3);
    assert_eq!(shadowed, Color::new(51, 0, 0));
}

#[test]
fn reflection_blends_the_mirrored_sphere() {
    // A half-reflective sphere straight ahead mirrors a green sphere
    // behind the camera: half its own shading, half the reflection.
    let mirror = Sphere::new(
        v(0, 0, 2_000_000),
        1_000_000,
        Color::new(100, 0, 0),
        None,
        Some(500_000),
    );
    let behind = Sphere::new(v(0, 0, -2_000_000), 1_000_000, Color::new(0, 200, 0), None, None);
    let scene = Scene::new(vec![mirror, behind], vec![Light::ambient(SCALE)]);
    let origin = v(0, 0, 0);
    let dir = v(0, 0, SCALE);
    assert_eq!(scene.trace(origin, dir, SCALE, T_INF, 0), Color::new(100, 0, 0));
    assert_eq!(scene.trace(origin, dir, SCALE, T_INF, 1), Color::new(50, 100, 0));
    assert_eq!(scene.trace(origin, dir, SCALE, T_INF, 3), Color::new(50, 100, 0));
}

#[test]
fn specular_highlight_brightens_the_surface() {
    let mk = |specular| {
        Scene::new(
            vec![Sphere::new(v(0, 0, 3_000_000), 1_000_000, Color::new(255, 0, 0), specular, None)],
            vec![Light::ambient(100_000), Light::point(400_000, v(0, 2_000_000, 0))],
        )
    };
    let origin = v(0, 0, 0);
    let dir = v(0, 0, SCALE);
    // Without a specular exponent: ambient plus the diffuse term only.
    assert_eq!(mk(None).trace(origin, dir, SCALE, T_INF, 3), Color::new(97, 0, 0));
    // With one, the highlight term is added on top.
    assert_eq!(mk(Some(2)).trace(origin, dir, SCALE, T_INF, 3), Color::new(148, 0, 0));
}

#[test]
fn directional_shadow_range_is_unbounded() {
    // The blocker sits twice the light vector away from the shading
    // point. A point light's shadow ray stops at the light
    // (t_max = 1), so it stays lit; a directional light's shadow ray
    // is unbounded, so it is occluded.
    let shaded_sphere =
        Sphere::new(v(0, 0, 3_000_000), 1_000_000, Color::new(255, 0, 0), None, None);
    let blocker =
        Sphere::new(v(0, 4_000_000, -2_000_000), 500_000, Color::new(9, 9, 9), None, None);
    let origin = v(0, 0, 0);
    let dir = v(0, 0, SCALE);

    let point_scene = Scene::new(
        vec![shaded_sphere, blocker],
        vec![Light::ambient(100_000), Light::point(400_000, v(0, 2_000_000, 0))],
    );
    assert_eq!(point_scene.trace(origin, dir, SCALE, T_INF, 3), Color::new(97, 0, 0));

    let directional_scene = Scene::new(
        vec![shaded_sphere, blocker],
        vec![Light::ambient(100_000), Light::directional(400_000, v(0, 2_000_000, -2_000_000))],
    );
    assert_eq!(directional_scene.trace(origin, dir, SCALE, T_INF, 3), Color::new(25, 0, 0));
}

#[test]
fn color_times_clamps_channels() {
    assert_eq!(Color::new(200, 10, 0).times(2_000_000), Color::new(255, 20, 0));
    assert_eq!(Color::new(200, 10, 0).times(-1_000_000), Color::new(0, 0, 0));
    assert_eq!(Color::new(255, 255, 255).times(SCALE), Color::new(255, 255, 255));
}

#[test]
fn color_plus_clamps_channels() {
    assert_eq!(Color::new(200, 100, 0).plus(Color::new(100, 200, 5)), Color::new(255, 255, 5));
    assert_eq!(Color::new(1, 2, 3).plus(Color::background()), Color::new(1, 2, 3));
}
