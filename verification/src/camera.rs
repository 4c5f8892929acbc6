//! The ray tracer's camera: a position, a view-plane size, the distance
//! to the view plane, and an orientation.

use crate::fixed::SCALE;
use crate::vec3::Vec3;
use vstd::prelude::*;

verus! {

/// A 3x3 rotation matrix, stored by rows.
#[derive(Clone, Copy, Debug, PartialEq, Eq, Structural)]
pub struct Mat3 {
    pub r0: Vec3,
    pub r1: Vec3,
    pub r2: Vec3,
}

/// The tracer's camera. The view plane has extent `width` by `height` in
/// camera-space units and sits at distance `d` from the position.
#[derive(Clone, Copy, Debug, PartialEq, Eq, Structural)]
pub struct Camera {
    pub position: Vec3,
    pub width: i64,
    pub height: i64,
    pub d: i64,
    pub rotation: Mat3,
}

/// The 3x3 identity.
pub open spec fn mat3_identity_s() -> Mat3 {
    Mat3 {
        r0: Vec3 { x: SCALE, y: 0, z: 0 },
        r1: Vec3 { x: 0, y: SCALE, z: 0 },
        r2: Vec3 { x: 0, y: 0, z: SCALE },
    }
}

/// The camera's structural invariant: a positive view plane and a
/// positive projection distance.
pub open spec fn camera_wf(c: Camera) -> bool {
    c.width > 0 && c.height > 0 && c.d > 0
}

impl Mat3 {
    /// Builds a matrix from its three rows.
    pub fn from_rows(r0: Vec3, r1: Vec3, r2: Vec3) -> (r: Mat3)
        ensures
            r == (Mat3 { r0, r1, r2 }),
    {
        Mat3 { r0, r1, r2 }
    }

    /// The identity matrix.
    pub fn identity() -> (r: Mat3)
        ensures
            r == mat3_identity_s(),
    {
        Mat3 {
            r0: Vec3 { x: SCALE, y: 0, z: 0 },
            r1: Vec3 { x: 0, y: SCALE, z: 0 },
            r2: Vec3 { x: 0, y: 0, z: SCALE },
        }
    }
}

impl Camera {
    /// A camera at `position` with the given rotation and the canonical
    /// unit view plane at unit distance.
    pub fn new(position: Vec3, rotation: Mat3) -> (r: Camera)
        ensures
            r == (Camera { position, width: SCALE, height: SCALE, d: SCALE, rotation }),
            camera_wf(r),
    {
        Camera { position, width: SCALE, height: SCALE, d: SCALE, rotation }
    }
}

impl Default for Camera {
    /// A camera at the origin with the identity rotation and the
    /// canonical unit view plane at unit distance.
    fn default() -> (r: Camera)
        ensures
            r == (Camera {
                position: Vec3 { x: 0, y: 0, z: 0 },
                width: SCALE,
                height: SCALE,
                d: SCALE,
                rotation: mat3_identity_s(),
            }),
            camera_wf(r),
    {
        Camera {
            position: Vec3 { x: 0, y: 0, z: 0 },
            width: SCALE,
            height: SCALE,
            d: SCALE,
            rotation: Mat3::identity(),
        }
    }
}

} // verus!
