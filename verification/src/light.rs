//! Light sources: a closed sum of ambient, point and directional variants,
//! with the diffuse and specular terms each variant contributes.

use crate::fixed::{fdiv, fdiv_i, fmul, fmul_i, fpow, fpow_i};
use crate::vec3::{dot_s, length_s, reflect_s, vsub_s, Vec3};
use vstd::prelude::*;

verus! {

/// A light that reaches every point with the same intensity.
#[derive(Clone, Copy, Debug, PartialEq, Eq, Structural)]
pub struct AmbientLight {
    pub intensity: i64,
}

/// A light radiating from a position.
#[derive(Clone, Copy, Debug, PartialEq, Eq, Structural)]
pub struct PointLight {
    pub intensity: i64,
    pub position: Vec3,
}

/// A light shining along a fixed direction from infinitely far away.
#[derive(Clone, Copy, Debug, PartialEq, Eq, Structural)]
pub struct DirectionalLight {
    pub intensity: i64,
    pub direction: Vec3,
}

/// A light source of any of the three kinds.
#[derive(Clone, Copy, Debug, PartialEq, Eq, Structural)]
pub enum Light {
    Ambient(AmbientLight),
    Point(PointLight),
    Directional(DirectionalLight),
}

/// The diffuse term an intensity contributes along `light_vec` at a surface
/// with the given normal: `intensity * dot(normal, light_vec)` divided by
/// the product of the two lengths, zero when the surface faces away
/// (`dot <= 0`) and zero when either length rounds to zero.
pub open spec fn diffuse_s(intensity: i64, light_vec: Vec3, normal: Vec3) -> i64 {
    let nl = dot_s(normal, light_vec);
    if nl > 0 {
        let den = fmul_i(length_s(normal), length_s(light_vec));
        if den == 0 {
            0
        } else {
            fdiv_i(fmul_i(intensity, nl), den)
        }
    } else {
        0
    }
}

/// The specular term an intensity contributes along `light_vec` at a
/// surface with the given normal, seen from `view`: the light vector is
/// reflected about the normal, and the cosine of its angle with the view
/// is raised to the exponent. Zero when no exponent is present, when the
/// reflection points away from the view (`dot <= 0`), or when either
/// length rounds to zero.
pub open spec fn specular_s(
    intensity: i64,
    light_vec: Vec3,
    normal: Vec3,
    view: Vec3,
    exponent: Option<u32>,
) -> i64 {
    match exponent {
        None => 0,
        Some(e) => {
            let reflect = reflect_s(light_vec, normal);
            let rv = dot_s(reflect, view);
            if rv > 0 {
                let den = fmul_i(length_s(reflect), length_s(view));
                if den == 0 {
                    0
                } else {
                    fmul_i(intensity, fpow_i(fdiv_i(rv, den), e))
                }
            } else {
                0
            }
        },
    }
}

/// Shared body of the executable diffuse terms.
fn diffuse_term(intensity: i64, light_vec: Vec3, normal: Vec3) -> (r: i64)
    ensures
        r == diffuse_s(intensity, light_vec, normal),
{
    let nl = normal.dot(light_vec);
    if nl > 0 {
        let den = fmul(normal.length(), light_vec.length());
        if den == 0 {
            0
        } else {
            fdiv(fmul(intensity, nl), den)
        }
    } else {
        0
    }
}

/// Shared body of the executable specular terms.
fn specular_term(
    intensity: i64,
    light_vec: Vec3,
    normal: Vec3,
    view: Vec3,
    exponent: Option<u32>,
) -> (r: i64)
    ensures
        r == specular_s(intensity, light_vec, normal, view, exponent),
{
    match exponent {
        None => 0,
        Some(e) => {
            let reflect = light_vec.reflect(normal);
            let rv = reflect.dot(view);
            if rv > 0 {
                let den = fmul(reflect.length(), view.length());
                if den == 0 {
                    0
                } else {
                    fmul(intensity, fpow(fdiv(rv, den), e))
                }
            } else {
                0
            }
        },
    }
}

impl Light {
    /// An ambient light of the given intensity.
    pub fn ambient(intensity: i64) -> (r: Light)
        ensures
            r == Light::Ambient(AmbientLight { intensity }),
    {
        Light::Ambient(AmbientLight::new(intensity))
    }

    /// A point light of the given intensity at `position`.
    pub fn point(intensity: i64, position: Vec3) -> (r: Light)
        ensures
            r == Light::Point(PointLight { intensity, position }),
    {
        Light::Point(PointLight::new(intensity, position))
    }

    /// A directional light of the given intensity along `direction`.
    pub fn directional(intensity: i64, direction: Vec3) -> (r: Light)
        ensures
            r == Light::Directional(DirectionalLight { intensity, direction }),
    {
        Light::Directional(DirectionalLight::new(intensity, direction))
    }
}

impl AmbientLight {
    /// Builds an ambient light.
    pub fn new(intensity: i64) -> (r: AmbientLight)
        ensures
            r == (AmbientLight { intensity }),
    {
        AmbientLight { intensity }
    }
}

impl PointLight {
    /// Builds a point light.
    pub fn new(intensity: i64, position: Vec3) -> (r: PointLight)
        ensures
            r == (PointLight { intensity, position }),
    {
        PointLight { intensity, position }
    }

    /// The diffuse term this light contributes at `sphere_pt` with the
    /// given surface normal.
    pub fn diffuse(&self, sphere_pt: Vec3, normal: Vec3) -> (r: i64)
        ensures
            r == diffuse_s(self.intensity, vsub_s(self.position, sphere_pt), normal),
    {
        diffuse_term(self.intensity, self.position.sub(sphere_pt), normal)
    }

    /// The specular term this light contributes at `sphere_pt` with the
    /// given surface normal, seen along `view_vec`.
    pub fn specular(
        &self,
        sphere_pt: Vec3,
        normal: Vec3,
        view_vec: Vec3,
        specular: Option<u32>,
    ) -> (r: i64)
        ensures
            r == specular_s(
                self.intensity,
                vsub_s(self.position, sphere_pt),
                normal,
                view_vec,
                specular,
            ),
    {
        specular_term(self.intensity, self.position.sub(sphere_pt), normal, view_vec, specular)
    }
}

impl DirectionalLight {
    /// Builds a directional light.
    pub fn new(intensity: i64, direction: Vec3) -> (r: DirectionalLight)
        ensures
            r == (DirectionalLight { intensity, direction }),
    {
        DirectionalLight { intensity, direction }
    }

    /// The diffuse term this light contributes at a surface with the given
    /// normal.
    pub fn diffuse(&self, normal: Vec3) -> (r: i64)
        ensures
            r == diffuse_s(self.intensity, self.direction, normal),
    {
        diffuse_term(self.intensity, self.direction, normal)
    }

    /// The specular term this light contributes at a surface with the
    /// given normal, seen along `view_vec`.
    pub fn specular(&self, normal: Vec3, view_vec: Vec3, specular: Option<u32>) -> (r: i64)
        ensures
            r == specular_s(self.intensity, self.direction, normal, view_vec, specular),
    {
        specular_term(self.intensity, self.direction, normal, view_vec, specular)
    }
}

} // verus!
