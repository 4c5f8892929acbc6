//! Sphere primitives and the ray-sphere intersector.

use crate::color::Color;
use crate::fixed::{
    fadd, fadd_i, fdiv, fdiv_i, fmul, fmul_i, fsqrt, fsqrt_i, fsub, fsub_i, lemma_isqrt_is,
    FOUR, SCALE, TWO, T_INF,
};
use crate::vec3::{dot_s, vsub_s, Vec3};
use vstd::prelude::*;

verus! {

/// A sphere with a positive radius, a base color, an optional specular
/// exponent and an optional reflectivity coefficient.
#[derive(Clone, Copy, Debug, PartialEq, Eq, Structural)]
pub struct Sphere {
    pub center: Vec3,
    pub radius: i64,
    pub color: Color,
    pub specular: Option<u32>,
    pub reflective: Option<i64>,
}

/// The discriminant of the ray-sphere quadratic `|O + tD - C|^2 = r^2`,
/// solved in `t`: with `a = D.D`, `b = 2 CO.D` and `c = CO.CO - r^2`, this
/// is `b^2 - 4ac`.
pub open spec fn discriminant_s(s: Sphere, origin: Vec3, dir: Vec3) -> i64 {
    let co = vsub_s(origin, s.center);
    let a = dot_s(dir, dir);
    let b = fmul_i(TWO, dot_s(co, dir));
    let c = fsub_i(dot_s(co, co), fmul_i(s.radius, s.radius));
    fsub_i(fmul_i(b, b), fmul_i(fmul_i(FOUR, a), c))
}

/// The denominator `2a` of the quadratic formula for the ray-sphere
/// intersection; zero exactly when the direction's dot product with
/// itself rounds to zero.
pub open spec fn denom_s(s: Sphere, origin: Vec3, dir: Vec3) -> i64 {
    fmul_i(TWO, dot_s(dir, dir))
}

/// The two roots of the ray-sphere quadratic, `+` branch first. A negative
/// discriminant, and likewise a vanishing denominator (a degenerate ray
/// direction), yields `(T_INF, T_INF)`: no intersection.
pub open spec fn roots_s(s: Sphere, origin: Vec3, dir: Vec3) -> (i64, i64) {
    let co = vsub_s(origin, s.center);
    let b = fmul_i(TWO, dot_s(co, dir));
    let disc = discriminant_s(s, origin, dir);
    let den = denom_s(s, origin, dir);
    if disc < 0 || den == 0 {
        (T_INF, T_INF)
    } else {
        let sq = fsqrt_i(disc);
        (
            fdiv_i(fadd_i(fsub_i(0, b), sq), den),
            fdiv_i(fsub_i(fsub_i(0, b), sq), den),
        )
    }
}

/// The sphere's structural invariant: a positive radius, a positive
/// specular exponent when one is present, and a reflectivity below one
/// when one is present.
pub open spec fn sphere_wf(s: Sphere) -> bool {
    &&& s.radius > 0
    &&& match s.specular {
        Some(e) => e > 0,
        None => true,
    }
    &&& match s.reflective {
        Some(k) => 0 <= k < SCALE,
        None => true,
    }
}

/// When the discriminant is exactly zero (the tangent case) and the ray
/// direction is not degenerate, the two roots coincide.
pub proof fn lemma_tangent_equal_roots(s: Sphere, origin: Vec3, dir: Vec3)
    requires
        discriminant_s(s, origin, dir) == 0,
        denom_s(s, origin, dir) != 0,
    ensures
        roots_s(s, origin, dir).0 == roots_s(s, origin, dir).1,
{
    assert(crate::fixed::is_isqrt(0, 0)) by (nonlinear_arith);
    lemma_isqrt_is(0, 0);
    assert(fsqrt_i(0) == 0);
}

impl Sphere {
    /// Builds a sphere; the radius must be positive, a specular exponent
    /// positive, and a reflectivity in `[0, 1)`.
    pub fn new(
        center: Vec3,
        radius: i64,
        color: Color,
        specular: Option<u32>,
        reflective: Option<i64>,
    ) -> (r: Sphere)
        requires
            radius > 0,
            match specular {
                Some(e) => e > 0,
                None => true,
            },
            match reflective {
                Some(k) => 0 <= k < SCALE,
                None => true,
            },
        ensures
            r == (Sphere { center, radius, color, specular, reflective }),
            sphere_wf(r),
    {
        Sphere { center, radius, color, specular, reflective }
    }

    /// Solves the ray-sphere quadratic and returns both roots, the `+`
    /// branch of the quadratic formula first. `(T_INF, T_INF)` signals no
    /// intersection.
    pub fn intersect(&self, origin: Vec3, direction: Vec3) -> (r: (i64, i64))
        ensures
            r == roots_s(*self, origin, direction),
    {
        let co = origin.sub(self.center);
        let a = direction.dot(direction);
        let b = fmul(TWO, co.dot(direction));
        let c = fsub(co.dot(co), fmul(self.radius, self.radius));
        let disc = fsub(fmul(b, b), fmul(fmul(FOUR, a), c));
        let den = fmul(TWO, a);
        if disc < 0 || den == 0 {
            return (T_INF, T_INF);
        }
        let sq = fsqrt(disc);
        let t1 = fdiv(fadd(fsub(0, b), sq), den);
        let t2 = fdiv(fsub(fsub(0, b), sq), den);
        (t1, t2)
    }
}

} // verus!
