use tinyrender::light::{AmbientLight, DirectionalLight, Light, PointLight};
use tinyrender::vec3::Vec3;

fn v(x: i64, y: i64, z: i64) -> Vec3 {
    Vec3::new(x, y, z)
}

#[test]
fn constructors_build_the_tagged_variants() {
    assert_eq!(Light::ambient(250_000), Light::Ambient(AmbientLight::new(250_000)));
    assert_eq!(
        Light::point(600_000, v(1, 2, 3)),
        Light::Point(PointLight::new(600_000, v(1, 2, 3)))
    );
    assert_eq!(
        Light::directional(200_000, v(0, 0, -1_000_000)),
        Light::Directional(DirectionalLight::new(200_000, v(0, 0, -1_000_000)))
    );
}

#[test]
fn point_diffuse_is_cosine_weighted() {
    // Light at the origin, shading point at z = 2, normal facing back
    // toward the light: the full intensity comes through.
    let l = PointLight::new(500_000, v(0, 0, 0));
    let got = l.diffuse(v(0, 0, 2_000_000), v(0, 0, -1_000_000));
    assert_eq!(got, 500_000);
}

#[test]
fn point_diffuse_is_zero_facing_away() {
    let l = PointLight::new(500_000, v(0, 0, 0));
    let got = l.diffuse(v(0, 0, 2_000_000), v(0, 0, 1_000_000));
    assert_eq!(got, 0);
}

#[test]
fn point_specular_follows_the_mirror_direction() {
    let l = PointLight::new(500_000, v(0, 0, 0));
    // Reflection of the light vector about the normal lines up exactly
    // with the view vector, so the cosine is one at any exponent.
    let got = l.specular(v(0, 0, 2_000_000), v(0, 0, -1_000_000), v(0, 0, -1_000_000), Some(2));
    assert_eq!(got, 500_000);
    let none = l.specular(v(0, 0, 2_000_000), v(0, 0, -1_000_000), v(0, 0, -1_000_000), None);
    assert_eq!(none, 0);
}

#[test]
fn directional_diffuse_and_specular() {
    let l = DirectionalLight::new(500_000, v(0, 0, -2_000_000));
    assert_eq!(l.diffuse(v(0, 0, -1_000_000)), 500_000);
    assert_eq!(l.specular(v(0, 0, -1_000_000), v(0, 0, -1_000_000), Some(3)), 500_000);
    assert_eq!(l.specular(v(0, 0, -1_000_000), v(0, 0, 1_000_000), Some(3)), 0);
}
