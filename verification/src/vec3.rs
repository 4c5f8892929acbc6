//! Three-component vectors over fixed-point scalars.

use crate::fixed::{
    fadd, fadd_i, fdiv, fdiv_i, fmul, fmul_i, fmul_s, fsqrt, fsqrt_i, fsub, fsub_i, sat_s, tdiv_s,
    TWO,
};
use vstd::arithmetic::div_mod::lemma_div_pos_is_pos;
use vstd::prelude::*;

verus! {

/// A point or direction in space, each component a fixed-point scalar.
#[derive(Clone, Copy, Debug, PartialEq, Eq, Structural)]
pub struct Vec3 {
    pub x: i64,
    pub y: i64,
    pub z: i64,
}

/// Component-wise saturating sum.
pub open spec fn vadd_s(a: Vec3, b: Vec3) -> Vec3 {
    Vec3 { x: fadd_i(a.x, b.x), y: fadd_i(a.y, b.y), z: fadd_i(a.z, b.z) }
}

/// Component-wise saturating difference.
pub open spec fn vsub_s(a: Vec3, b: Vec3) -> Vec3 {
    Vec3 { x: fsub_i(a.x, b.x), y: fsub_i(a.y, b.y), z: fsub_i(a.z, b.z) }
}

/// The opposite vector.
pub open spec fn vneg_s(a: Vec3) -> Vec3 {
    Vec3 { x: fsub_i(0, a.x), y: fsub_i(0, a.y), z: fsub_i(0, a.z) }
}

/// Each component scaled by the scalar `k`.
pub open spec fn vscale_s(a: Vec3, k: i64) -> Vec3 {
    Vec3 { x: fmul_i(a.x, k), y: fmul_i(a.y, k), z: fmul_i(a.z, k) }
}

/// Dot product: products summed left to right.
pub open spec fn dot_s(a: Vec3, b: Vec3) -> i64 {
    fadd_i(fadd_i(fmul_i(a.x, b.x), fmul_i(a.y, b.y)), fmul_i(a.z, b.z))
}

/// Euclidean length: the square root of the vector's dot product with
/// itself.
pub open spec fn length_s(a: Vec3) -> i64 {
    fsqrt_i(dot_s(a, a))
}

/// The vector divided by its own length; the zero vector (whose length is
/// zero) is returned unchanged.
pub open spec fn vnorm_s(a: Vec3) -> Vec3 {
    let len = length_s(a);
    if len == 0 {
        a
    } else {
        Vec3 { x: fdiv_i(a.x, len), y: fdiv_i(a.y, len), z: fdiv_i(a.z, len) }
    }
}

/// `ray` reflected about `normal`: `2 * normal * dot(normal, ray) - ray`.
pub open spec fn reflect_s(ray: Vec3, normal: Vec3) -> Vec3 {
    vsub_s(vscale_s(vscale_s(normal, TWO), dot_s(normal, ray)), ray)
}

/// A scalar's saturating product with itself is never negative.
pub proof fn lemma_fmul_square_nonneg(a: int)
    ensures
        fmul_s(a, a) >= 0,
{
    assert(crate::fixed::SCALE as int == 1000000);
    assert(a * a >= 0) by (nonlinear_arith);
    let p = a * a;
    if p > 0 {
        lemma_div_pos_is_pos(p, 1000000);
    }
    assert(tdiv_s(p, 1000000) >= 0);
    assert(sat_s(tdiv_s(p, 1000000)) >= 0);
}

/// A vector's dot product with itself is never negative.
pub proof fn lemma_dot_self_nonneg(a: Vec3)
    ensures
        dot_s(a, a) >= 0,
{
    lemma_fmul_square_nonneg(a.x as int);
    lemma_fmul_square_nonneg(a.y as int);
    lemma_fmul_square_nonneg(a.z as int);
}

impl Vec3 {
    /// Builds a vector from its three components.
    pub fn new(x: i64, y: i64, z: i64) -> (r: Vec3)
        ensures
            r == (Vec3 { x, y, z }),
    {
        Vec3 { x, y, z }
    }

    /// The zero vector.
    pub fn zero() -> (r: Vec3)
        ensures
            r == (Vec3 { x: 0i64, y: 0i64, z: 0i64 }),
    {
        Vec3 { x: 0, y: 0, z: 0 }
    }

    /// Component-wise saturating sum.
    pub fn add(self, o: Vec3) -> (r: Vec3)
        ensures
            r == vadd_s(self, o),
    {
        Vec3 { x: fadd(self.x, o.x), y: fadd(self.y, o.y), z: fadd(self.z, o.z) }
    }

    /// Component-wise saturating difference.
    pub fn sub(self, o: Vec3) -> (r: Vec3)
        ensures
            r == vsub_s(self, o),
    {
        Vec3 { x: fsub(self.x, o.x), y: fsub(self.y, o.y), z: fsub(self.z, o.z) }
    }

    /// The opposite vector.
    pub fn neg(self) -> (r: Vec3)
        ensures
            r == vneg_s(self),
    {
        Vec3 { x: fsub(0, self.x), y: fsub(0, self.y), z: fsub(0, self.z) }
    }

    /// Each component scaled by the scalar `k`.
    pub fn scale(self, k: i64) -> (r: Vec3)
        ensures
            r == vscale_s(self, k),
    {
        Vec3 { x: fmul(self.x, k), y: fmul(self.y, k), z: fmul(self.z, k) }
    }

    /// Dot product with `o`.
    pub fn dot(self, o: Vec3) -> (r: i64)
        ensures
            r == dot_s(self, o),
    {
        fadd(fadd(fmul(self.x, o.x), fmul(self.y, o.y)), fmul(self.z, o.z))
    }

    /// Euclidean length.
    pub fn length(self) -> (r: i64)
        ensures
            r == length_s(self),
            r >= 0,
    {
        proof {
            lemma_dot_self_nonneg(self);
        }
        fsqrt(self.dot(self))
    }

    /// The vector divided by its own length; the zero vector is returned
    /// unchanged.
    pub fn normalize(self) -> (r: Vec3)
        ensures
            r == vnorm_s(self),
    {
        let len = self.length();
        if len == 0 {
            self
        } else {
            Vec3 { x: fdiv(self.x, len), y: fdiv(self.y, len), z: fdiv(self.z, len) }
        }
    }

    /// This vector (as a ray) reflected about `normal`.
    pub fn reflect(self, normal: Vec3) -> (r: Vec3)
        ensures
            r == reflect_s(self, normal),
    {
        normal.scale(TWO).scale(normal.dot(self)).sub(self)
    }
}

} // verus!
