//! Four-component vectors and 4x4 matrices over fixed-point scalars,
//! enough to compose scale, rotation and translation transforms and apply
//! them to homogeneous points.

use crate::fixed::{fadd, fadd_i, fmul, fmul_i, SCALE};
use crate::vec3::Vec3;
use vstd::prelude::*;

verus! {

/// A homogeneous point or direction.
#[derive(Clone, Copy, Debug, PartialEq, Eq, Structural)]
pub struct Vec4 {
    pub x: i64,
    pub y: i64,
    pub z: i64,
    pub w: i64,
}

/// A 4x4 matrix, stored by rows; applying it to a column vector takes
/// the dot product of each row with the vector.
#[derive(Clone, Copy, Debug, PartialEq, Eq, Structural)]
pub struct Mat4 {
    pub r0: Vec4,
    pub r1: Vec4,
    pub r2: Vec4,
    pub r3: Vec4,
}

/// Four-component dot product: products summed left to right.
pub open spec fn dot4_s(a: Vec4, b: Vec4) -> i64 {
    fadd_i(fadd_i(fadd_i(fmul_i(a.x, b.x), fmul_i(a.y, b.y)), fmul_i(a.z, b.z)), fmul_i(a.w, b.w))
}

/// A vector extended with a fourth component.
pub open spec fn extend_s(v: Vec3, w: i64) -> Vec4 {
    Vec4 { x: v.x, y: v.y, z: v.z, w }
}

/// A homogeneous vector with its fourth component dropped.
pub open spec fn truncate_s(v: Vec4) -> Vec3 {
    Vec3 { x: v.x, y: v.y, z: v.z }
}

/// The columns of a matrix, as rows of its transpose.
pub open spec fn transpose_s(m: Mat4) -> Mat4 {
    Mat4 {
        r0: Vec4 { x: m.r0.x, y: m.r1.x, z: m.r2.x, w: m.r3.x },
        r1: Vec4 { x: m.r0.y, y: m.r1.y, z: m.r2.y, w: m.r3.y },
        r2: Vec4 { x: m.r0.z, y: m.r1.z, z: m.r2.z, w: m.r3.z },
        r3: Vec4 { x: m.r0.w, y: m.r1.w, z: m.r2.w, w: m.r3.w },
    }
}

/// A matrix applied to a column vector.
pub open spec fn mat_vec_s(m: Mat4, v: Vec4) -> Vec4 {
    Vec4 { x: dot4_s(m.r0, v), y: dot4_s(m.r1, v), z: dot4_s(m.r2, v), w: dot4_s(m.r3, v) }
}

/// The matrix product `a * b`: each row of `a` against each column of
/// `b`.
pub open spec fn mat_mul_s(a: Mat4, b: Mat4) -> Mat4 {
    let bt = transpose_s(b);
    Mat4 {
        r0: Vec4 {
            x: dot4_s(a.r0, bt.r0),
            y: dot4_s(a.r0, bt.r1),
            z: dot4_s(a.r0, bt.r2),
            w: dot4_s(a.r0, bt.r3),
        },
        r1: Vec4 {
            x: dot4_s(a.r1, bt.r0),
            y: dot4_s(a.r1, bt.r1),
            z: dot4_s(a.r1, bt.r2),
            w: dot4_s(a.r1, bt.r3),
        },
        r2: Vec4 {
            x: dot4_s(a.r2, bt.r0),
            y: dot4_s(a.r2, bt.r1),
            z: dot4_s(a.r2, bt.r2),
            w: dot4_s(a.r2, bt.r3),
        },
        r3: Vec4 {
            x: dot4_s(a.r3, bt.r0),
            y: dot4_s(a.r3, bt.r1),
            z: dot4_s(a.r3, bt.r2),
            w: dot4_s(a.r3, bt.r3),
        },
    }
}

/// The identity matrix.
pub open spec fn identity_s() -> Mat4 {
    Mat4 {
        r0: Vec4 { x: SCALE, y: 0, z: 0, w: 0 },
        r1: Vec4 { x: 0, y: SCALE, z: 0, w: 0 },
        r2: Vec4 { x: 0, y: 0, z: SCALE, w: 0 },
        r3: Vec4 { x: 0, y: 0, z: 0, w: SCALE },
    }
}

/// The matrix translating homogeneous points by `t`.
pub open spec fn translation_s(t: Vec3) -> Mat4 {
    Mat4 {
        r0: Vec4 { x: SCALE, y: 0, z: 0, w: t.x },
        r1: Vec4 { x: 0, y: SCALE, z: 0, w: t.y },
        r2: Vec4 { x: 0, y: 0, z: SCALE, w: t.z },
        r3: Vec4 { x: 0, y: 0, z: 0, w: SCALE },
    }
}

/// The matrix scaling each axis by the components of `s`.
pub open spec fn scaling_s(s: Vec3) -> Mat4 {
    Mat4 {
        r0: Vec4 { x: s.x, y: 0, z: 0, w: 0 },
        r1: Vec4 { x: 0, y: s.y, z: 0, w: 0 },
        r2: Vec4 { x: 0, y: 0, z: s.z, w: 0 },
        r3: Vec4 { x: 0, y: 0, z: 0, w: SCALE },
    }
}

/// A matrix applied to a point: the point is extended with `w = 1`,
/// transformed, and truncated back to three components.
pub open spec fn transform_point_s(m: Mat4, v: Vec3) -> Vec3 {
    truncate_s(mat_vec_s(m, extend_s(v, SCALE)))
}

impl Vec4 {
    /// Builds a vector from its four components.
    pub fn new(x: i64, y: i64, z: i64, w: i64) -> (r: Vec4)
        ensures
            r == (Vec4 { x, y, z, w }),
    {
        Vec4 { x, y, z, w }
    }

    /// Four-component dot product with `o`.
    pub fn dot(self, o: Vec4) -> (r: i64)
        ensures
            r == dot4_s(self, o),
    {
        fadd(
            fadd(fadd(fmul(self.x, o.x), fmul(self.y, o.y)), fmul(self.z, o.z)),
            fmul(self.w, o.w),
        )
    }

    /// This vector with its fourth component dropped.
    pub fn truncate(self) -> (r: Vec3)
        ensures
            r == truncate_s(self),
    {
        Vec3 { x: self.x, y: self.y, z: self.z }
    }
}

impl Vec3 {
    /// This vector extended with a fourth component.
    pub fn extend(self, w: i64) -> (r: Vec4)
        ensures
            r == extend_s(self, w),
    {
        Vec4 { x: self.x, y: self.y, z: self.z, w }
    }
}

impl Mat4 {
    /// Builds a matrix from its four rows.
    pub fn from_rows(r0: Vec4, r1: Vec4, r2: Vec4, r3: Vec4) -> (r: Mat4)
        ensures
            r == (Mat4 { r0, r1, r2, r3 }),
    {
        Mat4 { r0, r1, r2, r3 }
    }

    /// The identity matrix.
    pub fn identity() -> (r: Mat4)
        ensures
            r == identity_s(),
    {
        Mat4 {
            r0: Vec4 { x: SCALE, y: 0, z: 0, w: 0 },
            r1: Vec4 { x: 0, y: SCALE, z: 0, w: 0 },
            r2: Vec4 { x: 0, y: 0, z: SCALE, w: 0 },
            r3: Vec4 { x: 0, y: 0, z: 0, w: SCALE },
        }
    }

    /// The matrix translating homogeneous points by `t`.
    pub fn from_translation(t: Vec3) -> (r: Mat4)
        ensures
            r == translation_s(t),
    {
        Mat4 {
            r0: Vec4 { x: SCALE, y: 0, z: 0, w: t.x },
            r1: Vec4 { x: 0, y: SCALE, z: 0, w: t.y },
            r2: Vec4 { x: 0, y: 0, z: SCALE, w: t.z },
            r3: Vec4 { x: 0, y: 0, z: 0, w: SCALE },
        }
    }

    /// The matrix scaling each axis by the components of `s`.
    pub fn from_scale(s: Vec3) -> (r: Mat4)
        ensures
            r == scaling_s(s),
    {
        Mat4 {
            r0: Vec4 { x: s.x, y: 0, z: 0, w: 0 },
            r1: Vec4 { x: 0, y: s.y, z: 0, w: 0 },
            r2: Vec4 { x: 0, y: 0, z: s.z, w: 0 },
            r3: Vec4 { x: 0, y: 0, z: 0, w: SCALE },
        }
    }

    /// This matrix transposed.
    pub fn transpose(self) -> (r: Mat4)
        ensures
            r == transpose_s(self),
    {
        Mat4 {
            r0: Vec4 { x: self.r0.x, y: self.r1.x, z: self.r2.x, w: self.r3.x },
            r1: Vec4 { x: self.r0.y, y: self.r1.y, z: self.r2.y, w: self.r3.y },
            r2: Vec4 { x: self.r0.z, y: self.r1.z, z: self.r2.z, w: self.r3.z },
            r3: Vec4 { x: self.r0.w, y: self.r1.w, z: self.r2.w, w: self.r3.w },
        }
    }

    /// The matrix product of `self` with `o`.
    pub fn matmul(self, o: Mat4) -> (r: Mat4)
        ensures
            r == mat_mul_s(self, o),
    {
        let bt = o.transpose();
        Mat4 {
            r0: Vec4 {
                x: self.r0.dot(bt.r0),
                y: self.r0.dot(bt.r1),
                z: self.r0.dot(bt.r2),
                w: self.r0.dot(bt.r3),
            },
            r1: Vec4 {
                x: self.r1.dot(bt.r0),
                y: self.r1.dot(bt.r1),
                z: self.r1.dot(bt.r2),
                w: self.r1.dot(bt.r3),
            },
            r2: Vec4 {
                x: self.r2.dot(bt.r0),
                y: self.r2.dot(bt.r1),
                z: self.r2.dot(bt.r2),
                w: self.r2.dot(bt.r3),
            },
            r3: Vec4 {
                x: self.r3.dot(bt.r0),
                y: self.r3.dot(bt.r1),
                z: self.r3.dot(bt.r2),
                w: self.r3.dot(bt.r3),
            },
        }
    }

    /// This matrix applied to a column vector.
    pub fn mul_vec4(self, v: Vec4) -> (r: Vec4)
        ensures
            r == mat_vec_s(self, v),
    {
        Vec4 { x: self.r0.dot(v), y: self.r1.dot(v), z: self.r2.dot(v), w: self.r3.dot(v) }
    }

    /// This matrix applied to a point extended with `w = 1`.
    pub fn transform_point(self, v: Vec3) -> (r: Vec3)
        ensures
            r == transform_point_s(self, v),
    {
        self.mul_vec4(v.extend(SCALE)).truncate()
    }
}

} // verus!
