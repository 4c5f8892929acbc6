//! Viewport arithmetic for a pixel surface with its origin at the
//! center, and the per-pixel ray computation of the tracer.
//!
//! The pixel buffer itself (storage, bounds reporting, file encoding) is
//! an external collaborator owned by the caller; everything here is the
//! coordinate math and shading it consumes, as plain values.

use crate::camera::{camera_wf, Camera};
use crate::color::Color;
use crate::fixed::{idiv, idiv_i, imul, imul_i, T_INF};
use crate::scene::{trace_s, Scene};
use crate::vec3::{vsub_s, Vec3};
use vstd::prelude::*;

verus! {

/// The tracer's canonical recursion depth.
pub const DEFAULT_DEPTH: i32 = 3;

/// Smallest valid centered x coordinate of a canvas `width` wide.
pub open spec fn x_min_s(width: u32) -> int {
    -((width / 2) as int)
}

/// Largest valid centered x coordinate of a canvas `width` wide.
pub open spec fn x_max_s(width: u32) -> int {
    if width % 2 == 0 {
        (width / 2) as int - 1
    } else {
        (width / 2) as int
    }
}

/// Smallest valid centered y coordinate of a canvas `height` high.
pub open spec fn y_min_s(height: u32) -> int {
    if height % 2 == 0 {
        -((height / 2) as int) + 1
    } else {
        -((height / 2) as int)
    }
}

/// Largest valid centered y coordinate of a canvas `height` high.
pub open spec fn y_max_s(height: u32) -> int {
    (height / 2) as int
}

/// A centered canvas coordinate moved to screen coordinates: the origin
/// shifts to the top-left corner and y grows downward.
pub open spec fn to_screen_s(width: u32, height: u32, x: i32, y: i32) -> (int, int) {
    ((width / 2) as int + x as int, (height / 2) as int - y as int)
}

/// The camera-space point on the view plane that the centered canvas
/// coordinate `(x, y)` maps to.
pub open spec fn to_view_s(width: u32, height: u32, camera: Camera, x: i32, y: i32) -> Vec3
    recommends
        width > 0,
        height > 0,
{
    Vec3 {
        x: imul_i(idiv_i(camera.width, width as i64), x as i64),
        y: imul_i(idiv_i(camera.height, height as i64), y as i64),
        z: camera.d,
    }
}

/// Range of valid centered x coordinates, as `(smallest, largest)`.
pub fn x_range(width: u32) -> (r: (i32, i32))
    ensures
        r.0 as int == x_min_s(width),
        r.1 as int == x_max_s(width),
{
    let half: i64 = (width / 2) as i64;
    let min: i64 = -half;
    let max: i64 = if width % 2 == 0 {
        half - 1
    } else {
        half
    };
    (min as i32, max as i32)
}

/// Range of valid centered y coordinates, as `(smallest, largest)`.
pub fn y_range(height: u32) -> (r: (i32, i32))
    ensures
        r.0 as int == y_min_s(height),
        r.1 as int == y_max_s(height),
{
    let half: i64 = (height / 2) as i64;
    let min: i64 = if height % 2 == 0 {
        -half + 1
    } else {
        -half
    };
    (min as i32, half as i32)
}

/// Moves a centered canvas coordinate to screen coordinates; the results
/// index into a `width` by `height` pixel grid.
pub fn to_screen(width: u32, height: u32, x: i32, y: i32) -> (r: (u32, u32))
    requires
        x_min_s(width) <= x as int <= x_max_s(width),
        y_min_s(height) <= y as int <= y_max_s(height),
    ensures
        (r.0 as int, r.1 as int) == to_screen_s(width, height, x, y),
        r.0 < width,
        r.1 < height,
{
    let sx: i64 = (width / 2) as i64 + x as i64;
    let sy: i64 = (height / 2) as i64 - y as i64;
    (sx as u32, sy as u32)
}

/// The camera-space point on the view plane under the centered canvas
/// coordinate `(x, y)`.
pub fn to_view(width: u32, height: u32, camera: &Camera, x: i32, y: i32) -> (r: Vec3)
    requires
        width > 0,
        height > 0,
    ensures
        r == to_view_s(width, height, *camera, x, y),
{
    Vec3 {
        x: imul(idiv(camera.width, width as i64), x as i64),
        y: imul(idiv(camera.height, height as i64), y as i64),
        z: camera.d,
    }
}

/// The traced color of the pixel at centered canvas coordinate
/// `(x, y)`: a ray is cast from the camera through that point of the
/// view plane, at the canonical recursion depth.
pub fn render_pixel(scene: &Scene, camera: &Camera, width: u32, height: u32, x: i32, y: i32) -> (r:
    Color)
    requires
        width > 0,
        height > 0,
        camera_wf(*camera),
    ensures
        r == trace_s(
            scene.spheres@,
            scene.lights@,
            camera.position,
            vsub_s(to_view_s(width, height, *camera, x, y), camera.position),
            camera.d,
            T_INF,
            DEFAULT_DEPTH as int,
        ),
{
    let point = to_view(width, height, camera, x, y);
    let direction = point.sub(camera.position);
    scene.trace(camera.position, direction, camera.d, T_INF, DEFAULT_DEPTH)
}

} // verus!
