//! The polygon rasterizer pipeline: perspective projection, frustum
//! clipping of triangle meshes, and the per-instance transform chain.
//!
//! Scan conversion of projected 2D triangles onto a pixel grid is an
//! external collaborator: the functions here return projected vertices
//! and surviving triangles as plain values for the caller to draw.

use crate::color::Color;
use crate::fixed::{fadd, fadd_i, fdiv, fdiv_i, fmul, fmul_i, fsub, fsub_i, SCALE};
use crate::mat4::{
    mat_mul_s, mat_vec_s, transform_point_s, translation_s, scaling_s, transpose_s, Mat4,
};
use crate::vec3::{dot_s, length_s, vadd_s, vscale_s, vsub_s, Vec3};
use vstd::prelude::*;

verus! {

/// A projected point on the canvas, in fixed-point pixel units.
#[derive(Clone, Copy, Debug, PartialEq, Eq, Structural)]
pub struct Vec2 {
    pub x: i64,
    pub y: i64,
}

/// A clip plane: a unit normal pointing into the retained half-space and
/// a signed offset `d`, such that `dot(normal, p) + d >= 0` means `p` is
/// inside.
#[derive(Clone, Copy, Debug, PartialEq, Eq, Structural)]
pub struct Plane {
    pub normal: Vec3,
    pub d: i64,
}

/// A triangle: three indices into the vertex buffer current at its time
/// of use, and a flat color.
#[derive(Clone, Copy, Debug, PartialEq, Eq)]
pub struct Triangle {
    pub indices: [usize; 3],
    pub color: Color,
}

/// A triangle mesh: object-space vertices and the triangles indexing
/// them.
#[derive(Clone, Debug)]
pub struct Model {
    pub vertices: Vec<Vec3>,
    pub triangles: Vec<Triangle>,
}

/// A placed copy of a model: scale, rotation and translation, composed
/// once into a single transform (scale, then rotation, then
/// translation).
#[derive(Clone, Debug)]
pub struct Instance {
    pub model: Model,
    pub scale: Vec3,
    pub rotation: Mat4,
    pub translation: Vec3,
    pub transform: Mat4,
}

/// The rasterizer's camera: a position, an orientation, a view plane of
/// extent `width` by `height` at distance `d`, and the five frustum
/// planes (near plus four sides).
#[derive(Clone, Debug)]
pub struct Camera {
    pub position: Vec3,
    pub orientation: Mat4,
    pub width: i64,
    pub height: i64,
    pub d: i64,
    pub planes: [Plane; 5],
}

/// The rasterizer camera's structural invariant: a positive view plane
/// and a positive projection distance.
pub open spec fn raster_camera_wf(c: Camera) -> bool {
    c.width > 0 && c.height > 0 && c.d > 0
}

/// The signed distance from the plane to the point: `dot(normal, p) + d`;
/// nonnegative means inside the retained half-space.
pub open spec fn sd_s(plane: Plane, point: Vec3) -> i64 {
    fadd_i(dot_s(plane.normal, point), plane.d)
}

/// A view-plane coordinate scaled into pixel units by the ratio of the
/// canvas size to the view-plane size.
pub open spec fn view_to_canvas_s(
    canvas_width: u32,
    canvas_height: u32,
    camera: Camera,
    x: i64,
    y: i64,
) -> Vec2
    recommends
        raster_camera_wf(camera),
{
    Vec2 {
        x: fdiv_i(crate::fixed::imul_i(x, canvas_width as i64), camera.width),
        y: fdiv_i(crate::fixed::imul_i(y, canvas_height as i64), camera.height),
    }
}

/// A camera-space vertex projected onto the canvas: a perspective divide
/// by the vertex depth, then the view-to-canvas scaling.
pub open spec fn project_vertex_s(
    canvas_width: u32,
    canvas_height: u32,
    camera: Camera,
    v: Vec3,
) -> Vec2
    recommends
        raster_camera_wf(camera),
        v.z != 0,
{
    view_to_canvas_s(
        canvas_width,
        canvas_height,
        camera,
        fdiv_i(fmul_i(v.x, camera.d), v.z),
        fdiv_i(fmul_i(v.y, camera.d), v.z),
    )
}

/// The point where the segment from `a` to `b` meets the plane, by the
/// parametric solve `t = (-d - normal.a) / (normal.(b - a))`. The
/// endpoints are expected to straddle the plane; if rounding still
/// leaves the denominator zero, the inside endpoint `a` is returned.
pub open spec fn isect_s(plane: Plane, a: Vec3, b: Vec3) -> Vec3 {
    let ab = vsub_s(b, a);
    let den = dot_s(plane.normal, ab);
    if den == 0 {
        a
    } else {
        let t = fdiv_i(fsub_i(fsub_i(0, plane.d), dot_s(plane.normal, a)), den);
        vadd_s(a, vscale_s(ab, t))
    }
}

/// The vertices summed left to right, over the first `n`.
pub open spec fn vsum_s(vs: Seq<Vec3>, n: int) -> Vec3
    recommends
        0 <= n <= vs.len(),
    decreases n,
{
    if n <= 0 {
        Vec3 { x: 0, y: 0, z: 0 }
    } else {
        vadd_s(vsum_s(vs, n - 1), vs[n - 1])
    }
}

/// The centroid of a nonempty vertex set: the component-wise sum divided
/// by the count.
pub open spec fn centroid_s(vs: Seq<Vec3>) -> Vec3
    recommends
        vs.len() > 0,
{
    let s = vsum_s(vs, vs.len() as int);
    Vec3 {
        x: crate::fixed::idiv_s(s.x as int, vs.len() as int) as i64,
        y: crate::fixed::idiv_s(s.y as int, vs.len() as int) as i64,
        z: crate::fixed::idiv_s(s.z as int, vs.len() as int) as i64,
    }
}

/// The largest distance from `center` to any of the first `n` vertices.
pub open spec fn max_dist_s(vs: Seq<Vec3>, center: Vec3, n: int) -> i64
    recommends
        0 <= n <= vs.len(),
    decreases n,
{
    if n <= 0 {
        0
    } else {
        let prev = max_dist_s(vs, center, n - 1);
        let d = length_s(vsub_s(vs[n - 1], center));
        if d > prev {
            d
        } else {
            prev
        }
    }
}

/// The camera-space transform of a camera: its orientation applied after
/// the translation taking its position to the origin.
pub open spec fn camera_matrix_s(camera: Camera) -> Mat4 {
    mat_mul_s(
        transpose_s(camera.orientation),
        translation_s(Vec3 { x: fsub_i(0, camera.position.x), y: fsub_i(0, camera.position.y), z: fsub_i(0, camera.position.z) }),
    )
}

/// The signed distance from the plane to the point.
pub fn signed_distance(plane: Plane, point: Vec3) -> (r: i64)
    ensures
        r == sd_s(plane, point),
{
    fadd(plane.normal.dot(point), plane.d)
}

/// Scales a view-plane coordinate into pixel units.
pub fn view_to_canvas(canvas_width: u32, canvas_height: u32, camera: &Camera, x: i64, y: i64) -> (r:
    Vec2)
    requires
        raster_camera_wf(*camera),
    ensures
        r == view_to_canvas_s(canvas_width, canvas_height, *camera, x, y),
{
    Vec2 {
        x: fdiv(crate::fixed::imul(x, canvas_width as i64), camera.width),
        y: fdiv(crate::fixed::imul(y, canvas_height as i64), camera.height),
    }
}

/// Projects a camera-space vertex onto the canvas. The vertex must not
/// lie in the camera plane (`z == 0`); clipping against the near plane
/// is expected to have removed such vertices.
pub fn project_vertex(canvas_width: u32, canvas_height: u32, camera: &Camera, vertex: Vec3) -> (r:
    Vec2)
    requires
        raster_camera_wf(*camera),
        vertex.z != 0,
    ensures
        r == project_vertex_s(canvas_width, canvas_height, *camera, vertex),
{
    view_to_canvas(
        canvas_width,
        canvas_height,
        camera,
        fdiv(fmul(vertex.x, camera.d), vertex.z),
        fdiv(fmul(vertex.y, camera.d), vertex.z),
    )
}

/// The point where the segment from `a` to `b` meets the plane.
pub fn segment_plane_intersection(plane: Plane, a: Vec3, b: Vec3) -> (r: Vec3)
    ensures
        r == isect_s(plane, a, b),
{
    let ab = b.sub(a);
    let den = plane.normal.dot(ab);
    if den == 0 {
        a
    } else {
        let t = fdiv(fsub(fsub(0, plane.d), plane.normal.dot(a)), den);
        a.add(ab.scale(t))
    }
}

/// The centroid and max-radius bounding sphere of a nonempty vertex set.
pub fn bounding_sphere(vertices: &[Vec3]) -> (r: (Vec3, i64))
    requires
        vertices@.len() > 0,
    ensures
        r.0 == centroid_s(vertices@),
        r.1 == max_dist_s(vertices@, centroid_s(vertices@), vertices@.len() as int),
        r.1 >= 0,
{
    let n = vertices.len();
    let mut sum = Vec3 { x: 0, y: 0, z: 0 };
    let mut i: usize = 0;
    while i < n
        invariant
            n == vertices@.len(),
            i <= n,
            sum == vsum_s(vertices@, i as int),
        decreases n - i,
    {
        sum = sum.add(vertices[i]);
        i = i + 1;
    }
    let center = Vec3 {
        x: crate::fixed::idiv_n(sum.x, n),
        y: crate::fixed::idiv_n(sum.y, n),
        z: crate::fixed::idiv_n(sum.z, n),
    };
    let mut radius: i64 = 0;
    let mut j: usize = 0;
    while j < n
        invariant
            n == vertices@.len(),
            j <= n,
            center == centroid_s(vertices@),
            radius == max_dist_s(vertices@, center, j as int),
            radius >= 0,
        decreases n - j,
    {
        let distance = vertices[j].sub(center).length();
        if distance > radius {
            radius = distance;
        }
        j = j + 1;
    }
    (center, radius)
}

/// `v` lies inside the retained half-space of the plane.
pub open spec fn inside_s(plane: Plane, v: Vec3) -> bool {
    sd_s(plane, v) >= 0
}

/// The triangle's indices all point into a buffer of length `len`.
pub open spec fn tri_valid_s(t: Triangle, len: int) -> bool {
    t.indices[0] < len && t.indices[1] < len && t.indices[2] < len
}

/// Every triangle's indices point into a buffer of length `len`.
pub open spec fn tris_valid_s(ts: Seq<Triangle>, len: int) -> bool {
    forall|k: int| 0 <= k < ts.len() ==> tri_valid_s(#[trigger] ts[k], len)
}

/// The two-inside case of clipping: `a` and `b` (in index order) are
/// inside, `c` is outside. Both straddling edges are cut; the cut points
/// are appended, and two triangles cover the remaining quadrilateral.
pub open spec fn clip_two_s(
    vs: Seq<Vec3>,
    plane: Plane,
    color: Color,
    a: Vec3,
    ai: usize,
    b: Vec3,
    bi: usize,
    c: Vec3,
) -> (Seq<Vec3>, Seq<Triangle>) {
    let ap = isect_s(plane, a, c);
    let bp = isect_s(plane, b, c);
    let l0 = vs.len() as usize;
    let l1 = (vs.len() + 1) as usize;
    (
        seq![ap, bp],
        seq![
            Triangle { indices: [ai, bi, l0], color },
            Triangle { indices: [l0, bi, l1], color },
        ],
    )
}

/// The one-inside case of clipping: `a` is inside, `b` and `c` (in index
/// order) are outside. Both straddling edges are cut; the cut points are
/// appended, and one triangle remains.
pub open spec fn clip_one_s(
    vs: Seq<Vec3>,
    plane: Plane,
    color: Color,
    a: Vec3,
    ai: usize,
    b: Vec3,
    c: Vec3,
) -> (Seq<Vec3>, Seq<Triangle>) {
    let bp = isect_s(plane, a, b);
    let cp = isect_s(plane, a, c);
    let l0 = vs.len() as usize;
    let l1 = (vs.len() + 1) as usize;
    (seq![bp, cp], seq![Triangle { indices: [ai, l0, l1], color }])
}

/// One triangle clipped against one plane: the vertices appended to the
/// buffer and the triangles emitted. With all three corners inside the
/// triangle passes unchanged; with none it is discarded; straddling
/// triangles are split as the two- and one-inside cases say.
pub open spec fn clip_tri_s(vs: Seq<Vec3>, plane: Plane, t: Triangle) -> (Seq<Vec3>, Seq<Triangle>)
    recommends
        tri_valid_s(t, vs.len() as int),
{
    let i0 = t.indices[0];
    let i1 = t.indices[1];
    let i2 = t.indices[2];
    let v0 = vs[i0 as int];
    let v1 = vs[i1 as int];
    let v2 = vs[i2 as int];
    let in0 = inside_s(plane, v0);
    let in1 = inside_s(plane, v1);
    let in2 = inside_s(plane, v2);
    if in0 && in1 && in2 {
        (Seq::empty(), seq![t])
    } else if !in0 && !in1 && !in2 {
        (Seq::empty(), Seq::empty())
    } else if in0 && in1 {
        clip_two_s(vs, plane, t.color, v0, i0, v1, i1, v2)
    } else if in0 && in2 {
        clip_two_s(vs, plane, t.color, v0, i0, v2, i2, v1)
    } else if in1 && in2 {
        clip_two_s(vs, plane, t.color, v1, i1, v2, i2, v0)
    } else if in0 {
        clip_one_s(vs, plane, t.color, v0, i0, v1, v2)
    } else if in1 {
        clip_one_s(vs, plane, t.color, v1, i1, v0, v2)
    } else {
        clip_one_s(vs, plane, t.color, v2, i2, v0, v1)
    }
}

fn clip_two(
    vertices: &mut Vec<Vec3>,
    triangles: &mut Vec<Triangle>,
    plane: Plane,
    color: Color,
    a: Vec3,
    ai: usize,
    b: Vec3,
    bi: usize,
    c: Vec3,
)
    ensures
        final(vertices)@ == old(vertices)@ + clip_two_s(old(vertices)@, plane, color, a, ai, b, bi, c).0,
        final(triangles)@ == old(triangles)@ + clip_two_s(old(vertices)@, plane, color, a, ai, b, bi, c).1,
{
    let a_prime = segment_plane_intersection(plane, a, c);
    vertices.push(a_prime);
    let a_prime_index = vertices.len() - 1;
    let b_prime = segment_plane_intersection(plane, b, c);
    vertices.push(b_prime);
    let b_prime_index = vertices.len() - 1;
    triangles.push(Triangle::new([ai, bi, a_prime_index], color));
    triangles.push(Triangle::new([a_prime_index, bi, b_prime_index], color));
    proof {
        assert(vertices@ =~= old(vertices)@ + clip_two_s(
            old(vertices)@,
            plane,
            color,
            a,
            ai,
            b,
            bi,
            c,
        ).0);
        assert(triangles@ =~= old(triangles)@ + clip_two_s(
            old(vertices)@,
            plane,
            color,
            a,
            ai,
            b,
            bi,
            c,
        ).1);
    }
}

fn clip_one(
    vertices: &mut Vec<Vec3>,
    triangles: &mut Vec<Triangle>,
    plane: Plane,
    color: Color,
    a: Vec3,
    ai: usize,
    b: Vec3,
    c: Vec3,
)
    ensures
        final(vertices)@ == old(vertices)@ + clip_one_s(old(vertices)@, plane, color, a, ai, b, c).0,
        final(triangles)@ == old(triangles)@ + clip_one_s(old(vertices)@, plane, color, a, ai, b, c).1,
{
    let b_prime = segment_plane_intersection(plane, a, b);
    vertices.push(b_prime);
    let b_prime_index = vertices.len() - 1;
    let c_prime = segment_plane_intersection(plane, a, c);
    vertices.push(c_prime);
    let c_prime_index = vertices.len() - 1;
    triangles.push(Triangle::new([ai, b_prime_index, c_prime_index], color));
    proof {
        assert(vertices@ =~= old(vertices)@ + clip_one_s(
            old(vertices)@,
            plane,
            color,
            a,
            ai,
            b,
            c,
        ).0);
        assert(triangles@ =~= old(triangles)@ + clip_one_s(
            old(vertices)@,
            plane,
            color,
            a,
            ai,
            b,
            c,
        ).1);
    }
}

/// Clips one triangle against one plane, appending any cut points to the
/// vertex buffer and the surviving triangles to `triangles`, exactly as
/// `clip_tri_s` says.
pub fn clip_triangle(
    vertices: &mut Vec<Vec3>,
    triangles: &mut Vec<Triangle>,
    plane: Plane,
    triangle: Triangle,
)
    requires
        tri_valid_s(triangle, old(vertices)@.len() as int),
    ensures
        final(vertices)@ == old(vertices)@ + clip_tri_s(old(vertices)@, plane, triangle).0,
        final(triangles)@ == old(triangles)@ + clip_tri_s(old(vertices)@, plane, triangle).1,
{
    let i0 = triangle.indices[0];
    let i1 = triangle.indices[1];
    let i2 = triangle.indices[2];
    let v0 = vertices[i0];
    let v1 = vertices[i1];
    let v2 = vertices[i2];
    let in0 = signed_distance(plane, v0) >= 0;
    let in1 = signed_distance(plane, v1) >= 0;
    let in2 = signed_distance(plane, v2) >= 0;
    if in0 && in1 && in2 {
        triangles.push(triangle);
        proof {
            assert(vertices@ =~= old(vertices)@ + clip_tri_s(old(vertices)@, plane, triangle).0);
            assert(triangles@ =~= old(triangles)@ + clip_tri_s(old(vertices)@, plane, triangle).1);
        }
    } else if !in0 && !in1 && !in2 {
        proof {
            assert(vertices@ =~= old(vertices)@ + clip_tri_s(old(vertices)@, plane, triangle).0);
            assert(triangles@ =~= old(triangles)@ + clip_tri_s(old(vertices)@, plane, triangle).1);
        }
    } else if in0 && in1 {
        clip_two(vertices, triangles, plane, triangle.color, v0, i0, v1, i1, v2);
    } else if in0 && in2 {
        clip_two(vertices, triangles, plane, triangle.color, v0, i0, v2, i2, v1);
    } else if in1 && in2 {
        clip_two(vertices, triangles, plane, triangle.color, v1, i1, v2, i2, v0);
    } else if in0 {
        clip_one(vertices, triangles, plane, triangle.color, v0, i0, v1, v2);
    } else if in1 {
        clip_one(vertices, triangles, plane, triangle.color, v1, i1, v0, v2);
    } else {
        clip_one(vertices, triangles, plane, triangle.color, v2, i2, v0, v1);
    }
}

/// A triangle list clipped against one plane, one triangle at a time
/// over the growing vertex buffer: the full final vertex buffer and the
/// emitted triangles, over the first `n` triangles.
pub open spec fn clip_tris_s(vs: Seq<Vec3>, plane: Plane, ts: Seq<Triangle>, n: int) -> (
    Seq<Vec3>,
    Seq<Triangle>,
)
    recommends
        0 <= n <= ts.len(),
        tris_valid_s(ts, vs.len() as int),
    decreases n,
{
    if n <= 0 {
        (vs, Seq::empty())
    } else {
        let prev = clip_tris_s(vs, plane, ts, n - 1);
        let step = clip_tri_s(prev.0, plane, ts[n - 1]);
        (prev.0 + step.0, prev.1 + step.1)
    }
}

/// Clipping only appends to the vertex buffer: the input is a prefix of
/// the output.
pub proof fn lemma_clip_tris_grows(vs: Seq<Vec3>, plane: Plane, ts: Seq<Triangle>, n: int)
    requires
        0 <= n <= ts.len(),
    ensures
        clip_tris_s(vs, plane, ts, n).0.len() >= vs.len(),
        forall|j: int| 0 <= j < vs.len() ==> clip_tris_s(vs, plane, ts, n).0[j] == vs[j],
    decreases n,
{
    if n > 0 {
        lemma_clip_tris_grows(vs, plane, ts, n - 1);
    }
}

/// The triangles one clip step emits index only into the grown buffer.
pub proof fn lemma_clip_tri_valid(vs: Seq<Vec3>, plane: Plane, t: Triangle)
    requires
        tri_valid_s(t, vs.len() as int),
    ensures
        tris_valid_s(
            clip_tri_s(vs, plane, t).1,
            vs.len() as int + clip_tri_s(vs, plane, t).0.len() as int,
        ),
{
}

/// The triangles a clipped list emits index only into the final buffer.
pub proof fn lemma_clip_tris_valid(vs: Seq<Vec3>, plane: Plane, ts: Seq<Triangle>, n: int)
    requires
        0 <= n <= ts.len(),
        tris_valid_s(ts, vs.len() as int),
    ensures
        tris_valid_s(clip_tris_s(vs, plane, ts, n).1, clip_tris_s(vs, plane, ts, n).0.len() as int),
    decreases n,
{
    if n > 0 {
        lemma_clip_tris_valid(vs, plane, ts, n - 1);
        lemma_clip_tris_grows(vs, plane, ts, n - 1);
        let prev = clip_tris_s(vs, plane, ts, n - 1);
        let step = clip_tri_s(prev.0, plane, ts[n - 1]);
        lemma_clip_tri_valid(prev.0, plane, ts[n - 1]);
        assert forall|k: int| 0 <= k < (prev.1 + step.1).len() implies tri_valid_s(
            #[trigger] (prev.1 + step.1)[k],
            (prev.0 + step.0).len() as int,
        ) by {
            if k < prev.1.len() {
                assert(tri_valid_s(prev.1[k], prev.0.len() as int));
            } else {
                assert(tri_valid_s(step.1[k - prev.1.len()], prev.0.len() as int + step.0.len() as int));
            }
        }
    }
}

/// Clips every triangle of a list against one plane, appending cut
/// points to the vertex buffer, and returns the surviving triangles.
pub fn clip_triangles_against_plane(
    vertices: &mut Vec<Vec3>,
    plane: Plane,
    triangles: &[Triangle],
) -> (r: Vec<Triangle>)
    requires
        tris_valid_s(triangles@, old(vertices)@.len() as int),
    ensures
        final(vertices)@ == clip_tris_s(
            old(vertices)@,
            plane,
            triangles@,
            triangles@.len() as int,
        ).0,
        r@ == clip_tris_s(old(vertices)@, plane, triangles@, triangles@.len() as int).1,
{
    let mut clipped: Vec<Triangle> = Vec::new();
    let n = triangles.len();
    let mut k: usize = 0;
    while k < n
        invariant
            n == triangles@.len(),
            k <= n,
            tris_valid_s(triangles@, old(vertices)@.len() as int),
            vertices@ == clip_tris_s(old(vertices)@, plane, triangles@, k as int).0,
            clipped@ == clip_tris_s(old(vertices)@, plane, triangles@, k as int).1,
        decreases n - k,
    {
        proof {
            lemma_clip_tris_grows(old(vertices)@, plane, triangles@, k as int);
        }
        clip_triangle(vertices, &mut clipped, plane, triangles[k]);
        k = k + 1;
    }
    clipped
}

/// The triangle mentions vertex `i`.
pub open spec fn tri_uses_s(t: Triangle, i: int) -> bool {
    t.indices[0] as int == i || t.indices[1] as int == i || t.indices[2] as int == i
}

/// Some of the first `k` triangles mentions vertex `i`.
pub open spec fn used_upto_s(ts: Seq<Triangle>, k: int, i: int) -> bool {
    exists|j: int| 0 <= j < k && tri_uses_s(#[trigger] ts[j], i)
}

/// Some triangle of the list mentions vertex `i`.
pub open spec fn used_s(ts: Seq<Triangle>, i: int) -> bool {
    used_upto_s(ts, ts.len() as int, i)
}

proof fn lemma_used_upto_step(ts: Seq<Triangle>, k: int, i: int)
    requires
        0 <= k < ts.len(),
    ensures
        used_upto_s(ts, k + 1, i) == (used_upto_s(ts, k, i) || tri_uses_s(ts[k], i)),
{
    if used_upto_s(ts, k + 1, i) {
        let j = choose|j: int| 0 <= j < k + 1 && tri_uses_s(#[trigger] ts[j], i);
        if j < k {
            assert(used_upto_s(ts, k, i));
        }
    }
    if used_upto_s(ts, k, i) {
        let j = choose|j: int| 0 <= j < k && tri_uses_s(#[trigger] ts[j], i);
        assert(0 <= j < k + 1 && tri_uses_s(ts[j], i));
    }
    if tri_uses_s(ts[k], i) {
        assert(0 <= k < k + 1 && tri_uses_s(ts[k], i));
    }
}

/// The vertices some triangle mentions, taken from the first `n` slots
/// of the buffer in index order.
pub open spec fn gather_s(vs: Seq<Vec3>, ts: Seq<Triangle>, n: int) -> Seq<Vec3>
    recommends
        0 <= n <= vs.len(),
    decreases n,
{
    if n <= 0 {
        Seq::empty()
    } else {
        let prev = gather_s(vs, ts, n - 1);
        if used_s(ts, n - 1) {
            prev.push(vs[n - 1])
        } else {
            prev
        }
    }
}

proof fn lemma_gather_some(vs: Seq<Vec3>, ts: Seq<Triangle>, n: int, i: int)
    requires
        0 <= i < n,
        used_s(ts, i),
    ensures
        gather_s(vs, ts, n).len() > 0,
    decreases n,
{
    if i < n - 1 {
        lemma_gather_some(vs, ts, n - 1, i);
    }
}

/// The centroid of the vertices the triangle list uses.
pub open spec fn instance_center_s(vs: Seq<Vec3>, ts: Seq<Triangle>) -> Vec3 {
    centroid_s(gather_s(vs, ts, vs.len() as int))
}

/// The bounding radius around that centroid.
pub open spec fn instance_radius_s(vs: Seq<Vec3>, ts: Seq<Triangle>) -> i64 {
    let g = gather_s(vs, ts, vs.len() as int);
    max_dist_s(g, centroid_s(g), g.len() as int)
}

/// A triangle list clipped against one plane with the bounding-sphere
/// fast path: an empty list stays empty; a bounding sphere entirely
/// inside accepts the list unchanged; one entirely outside rejects the
/// whole instance (`None`); otherwise every triangle is clipped.
pub open spec fn clip_instance_plane_s(vs: Seq<Vec3>, ts: Seq<Triangle>, plane: Plane) -> (
    Seq<Vec3>,
    Option<Seq<Triangle>>,
)
    recommends
        tris_valid_s(ts, vs.len() as int),
{
    if ts.len() == 0 {
        (vs, Some(Seq::empty()))
    } else {
        let center = instance_center_s(vs, ts);
        let radius = instance_radius_s(vs, ts);
        let dist = sd_s(plane, center);
        if dist > radius {
            (vs, Some(ts))
        } else if dist < fsub_i(0, radius) {
            (vs, None)
        } else {
            let c = clip_tris_s(vs, plane, ts, ts.len() as int);
            (c.0, Some(c.1))
        }
    }
}

/// Clips an instance's triangle list against one plane, with the
/// bounding-sphere fast accept and fast reject.
pub fn clip_instance_against_plane(
    vertices: &mut Vec<Vec3>,
    triangles: &[Triangle],
    plane: Plane,
) -> (r: Option<Vec<Triangle>>)
    requires
        tris_valid_s(triangles@, old(vertices)@.len() as int),
    ensures
        ({
            let sp = clip_instance_plane_s(old(vertices)@, triangles@, plane);
            &&& final(vertices)@ == sp.0
            &&& match r {
                Some(v) => sp.1 == Some(v@),
                None => sp.1 is None,
            }
        }),
{
    let tn = triangles.len();
    if tn == 0 {
        let empty: Vec<Triangle> = Vec::new();
        proof {
            assert(empty@ =~= Seq::<Triangle>::empty());
        }
        return Some(empty);
    }
    let vlen = vertices.len();
    let mut gathered: Vec<Vec3> = Vec::new();
    let mut i: usize = 0;
    while i < vlen
        invariant
            vlen == vertices@.len(),
            tn == triangles@.len(),
            i <= vlen,
            gathered@ == gather_s(vertices@, triangles@, i as int),
        decreases vlen - i,
    {
        let mut is_used = false;
        let mut k: usize = 0;
        while k < tn
            invariant
                tn == triangles@.len(),
                k <= tn,
                is_used == used_upto_s(triangles@, k as int, i as int),
            decreases tn - k,
        {
            let t = triangles[k];
            proof {
                lemma_used_upto_step(triangles@, k as int, i as int);
            }
            if t.indices[0] == i || t.indices[1] == i || t.indices[2] == i {
                is_used = true;
            }
            k = k + 1;
        }
        if is_used {
            gathered.push(vertices[i]);
        }
        i = i + 1;
    }
    proof {
        assert(tri_valid_s(triangles@[0], vlen as int));
        assert(0 <= 0 < tn && tri_uses_s(triangles@[0], triangles@[0].indices[0] as int));
        assert(used_s(triangles@, triangles@[0].indices[0] as int));
        lemma_gather_some(
            vertices@,
            triangles@,
            vlen as int,
            triangles@[0].indices[0] as int,
        );
    }
    let (center, radius) = bounding_sphere(gathered.as_slice());
    let distance = signed_distance(plane, center);
    if distance > radius {
        Some(vstd::slice::slice_to_vec(triangles))
    } else if distance < crate::fixed::fsub(0, radius) {
        None
    } else {
        let clipped = clip_triangles_against_plane(vertices, plane, triangles);
        Some(clipped)
    }
}

/// A triangle list clipped against the first `n` planes in order:
/// rejection against any plane short-circuits the rest.
pub open spec fn clip_instance_s(
    vs: Seq<Vec3>,
    ts: Seq<Triangle>,
    planes: Seq<Plane>,
    n: int,
) -> (Seq<Vec3>, Option<Seq<Triangle>>)
    recommends
        0 <= n <= planes.len(),
        tris_valid_s(ts, vs.len() as int),
    decreases n,
{
    if n <= 0 {
        (vs, Some(ts))
    } else {
        let prev = clip_instance_s(vs, ts, planes, n - 1);
        match prev.1 {
            None => prev,
            Some(cur) => clip_instance_plane_s(prev.0, cur, planes[n - 1]),
        }
    }
}

/// The surviving triangles of one plane's clip index only into its
/// output buffer, which the input buffer prefixes.
pub proof fn lemma_clip_instance_plane_valid(vs: Seq<Vec3>, ts: Seq<Triangle>, plane: Plane)
    requires
        tris_valid_s(ts, vs.len() as int),
    ensures
        ({
            let sp = clip_instance_plane_s(vs, ts, plane);
            &&& sp.0.len() >= vs.len()
            &&& match sp.1 {
                Some(out) => tris_valid_s(out, sp.0.len() as int),
                None => true,
            }
        }),
{
    if ts.len() > 0 {
        let center = instance_center_s(vs, ts);
        let radius = instance_radius_s(vs, ts);
        let dist = sd_s(plane, center);
        if dist > radius {
        } else if dist < fsub_i(0, radius) {
        } else {
            lemma_clip_tris_valid(vs, plane, ts, ts.len() as int);
            lemma_clip_tris_grows(vs, plane, ts, ts.len() as int);
        }
    }
}

proof fn lemma_clip_instance_none_propagates(
    vs: Seq<Vec3>,
    ts: Seq<Triangle>,
    planes: Seq<Plane>,
    k: int,
    n: int,
)
    requires
        0 <= k <= n <= planes.len(),
        clip_instance_s(vs, ts, planes, k).1 is None,
    ensures
        clip_instance_s(vs, ts, planes, n) == clip_instance_s(vs, ts, planes, k),
    decreases n - k,
{
    if k < n {
        lemma_clip_instance_none_propagates(vs, ts, planes, k, n - 1);
    }
}

/// Clips an instance's triangle list against every plane in order,
/// returning `None` as soon as one plane rejects the whole instance.
pub fn clip_instance(vertices: &mut Vec<Vec3>, triangles: &[Triangle], planes: &[Plane]) -> (r:
    Option<Vec<Triangle>>)
    requires
        tris_valid_s(triangles@, old(vertices)@.len() as int),
    ensures
        ({
            let sp = clip_instance_s(old(vertices)@, triangles@, planes@, planes@.len() as int);
            &&& final(vertices)@ == sp.0
            &&& match r {
                Some(v) => sp.1 == Some(v@),
                None => sp.1 is None,
            }
        }),
{
    let mut clipped: Vec<Triangle> = vstd::slice::slice_to_vec(triangles);
    let pn = planes.len();
    let mut k: usize = 0;
    while k < pn
        invariant
            pn == planes@.len(),
            k <= pn,
            tris_valid_s(triangles@, old(vertices)@.len() as int),
            ({
                let sp = clip_instance_s(old(vertices)@, triangles@, planes@, k as int);
                &&& vertices@ == sp.0
                &&& sp.1 == Some(clipped@)
            }),
            tris_valid_s(clipped@, vertices@.len() as int),
        decreases pn - k,
    {
        proof {
            lemma_clip_instance_plane_valid(vertices@, clipped@, planes@[k as int]);
        }
        match clip_instance_against_plane(vertices, clipped.as_slice(), planes[k]) {
            None => {
                proof {
                    lemma_clip_instance_none_propagates(
                        old(vertices)@,
                        triangles@,
                        planes@,
                        k as int + 1,
                        planes@.len() as int,
                    );
                }
                return None;
            },
            Some(t) => {
                clipped = t;
            },
        }
        k = k + 1;
    }
    Some(clipped)
}

/// All three corners of the triangle lie inside the plane.
pub open spec fn tri_inside_s(vs: Seq<Vec3>, plane: Plane, t: Triangle) -> bool {
    &&& inside_s(plane, vs[t.indices[0] as int])
    &&& inside_s(plane, vs[t.indices[1] as int])
    &&& inside_s(plane, vs[t.indices[2] as int])
}

/// All three corners of the triangle lie outside the plane.
pub open spec fn tri_outside_s(vs: Seq<Vec3>, plane: Plane, t: Triangle) -> bool {
    &&& !inside_s(plane, vs[t.indices[0] as int])
    &&& !inside_s(plane, vs[t.indices[1] as int])
    &&& !inside_s(plane, vs[t.indices[2] as int])
}

/// A triangle entirely inside the plane passes through clipping
/// unchanged: nothing is appended and it is emitted alone.
pub proof fn lemma_clip_tri_all_inside(vs: Seq<Vec3>, plane: Plane, t: Triangle)
    requires
        tri_inside_s(vs, plane, t),
    ensures
        clip_tri_s(vs, plane, t).0 == Seq::<Vec3>::empty(),
        clip_tri_s(vs, plane, t).1 == seq![t],
{
}

/// A triangle entirely outside the plane is discarded: nothing is
/// appended and nothing is emitted.
pub proof fn lemma_clip_tri_all_outside(vs: Seq<Vec3>, plane: Plane, t: Triangle)
    requires
        tri_outside_s(vs, plane, t),
    ensures
        clip_tri_s(vs, plane, t).0 == Seq::<Vec3>::empty(),
        clip_tri_s(vs, plane, t).1 == Seq::<Triangle>::empty(),
{
}

/// A triangle list entirely inside the plane is conserved by clipping:
/// the vertex buffer is untouched and the output is exactly the input.
pub proof fn lemma_clip_all_inside(vs: Seq<Vec3>, plane: Plane, ts: Seq<Triangle>, n: int)
    requires
        0 <= n <= ts.len(),
        tris_valid_s(ts, vs.len() as int),
        forall|k: int| 0 <= k < n ==> tri_inside_s(vs, plane, #[trigger] ts[k]),
    ensures
        clip_tris_s(vs, plane, ts, n).0 == vs,
        clip_tris_s(vs, plane, ts, n).1 == ts.subrange(0, n),
    decreases n,
{
    if n <= 0 {
        assert(clip_tris_s(vs, plane, ts, n).1 =~= ts.subrange(0, 0));
    } else {
        lemma_clip_all_inside(vs, plane, ts, n - 1);
        lemma_clip_tri_all_inside(vs, plane, ts[n - 1]);
        assert(vs + clip_tri_s(vs, plane, ts[n - 1]).0 =~= vs);
        assert(ts.subrange(0, n - 1) + seq![ts[n - 1]] =~= ts.subrange(0, n));
    }
}

/// A triangle list entirely outside a plane is wholly rejected by it:
/// the vertex buffer is untouched and nothing is emitted.
pub proof fn lemma_clip_all_outside(vs: Seq<Vec3>, plane: Plane, ts: Seq<Triangle>, n: int)
    requires
        0 <= n <= ts.len(),
        tris_valid_s(ts, vs.len() as int),
        forall|k: int| 0 <= k < n ==> tri_outside_s(vs, plane, #[trigger] ts[k]),
    ensures
        clip_tris_s(vs, plane, ts, n).0 == vs,
        clip_tris_s(vs, plane, ts, n).1 == Seq::<Triangle>::empty(),
    decreases n,
{
    if n > 0 {
        lemma_clip_all_outside(vs, plane, ts, n - 1);
        lemma_clip_tri_all_outside(vs, plane, ts[n - 1]);
        assert(vs + clip_tri_s(vs, plane, ts[n - 1]).0 =~= vs);
        let e = Seq::<Triangle>::empty();
        assert(e + clip_tri_s(vs, plane, ts[n - 1]).1 =~= e);
    }
}

/// An instance whose bounding sphere lies strictly inside every plane is
/// fast-accepted by each in turn: per-triangle clipping never runs, and
/// the triangle list and vertex buffer come through unchanged.
pub proof fn lemma_fast_accept_all_planes(
    vs: Seq<Vec3>,
    ts: Seq<Triangle>,
    planes: Seq<Plane>,
    n: int,
)
    requires
        0 <= n <= planes.len(),
        ts.len() > 0,
        forall|p: int|
            0 <= p < planes.len() ==> sd_s(#[trigger] planes[p], instance_center_s(vs, ts))
                > instance_radius_s(vs, ts),
    ensures
        clip_instance_s(vs, ts, planes, n) == (vs, Some(ts)),
    decreases n,
{
    if n > 0 {
        lemma_fast_accept_all_planes(vs, ts, planes, n - 1);
    }
}

/// Every model vertex taken to camera space by the matrix `m`, over the
/// first `n`.
pub open spec fn cam_verts_s(m: Mat4, vs: Seq<Vec3>, n: int) -> Seq<Vec3>
    recommends
        0 <= n <= vs.len(),
    decreases n,
{
    if n <= 0 {
        Seq::empty()
    } else {
        cam_verts_s(m, vs, n - 1).push(transform_point_s(m, vs[n - 1]))
    }
}

/// The first `n` vertices projected onto the canvas. A vertex in the
/// camera plane (`z == 0`) — possible only for slots no surviving
/// triangle indexes, once the near plane has been clipped against —
/// maps to the canvas origin.
pub open spec fn project_all_s(cw: u32, ch: u32, camera: Camera, vs: Seq<Vec3>, n: int) -> Seq<
    Vec2,
>
    recommends
        0 <= n <= vs.len(),
        raster_camera_wf(camera),
    decreases n,
{
    if n <= 0 {
        Seq::empty()
    } else {
        let p = if vs[n - 1].z == 0 {
            Vec2 { x: 0, y: 0 }
        } else {
            project_vertex_s(cw, ch, camera, vs[n - 1])
        };
        project_all_s(cw, ch, camera, vs, n - 1).push(p)
    }
}

/// One instance rendered: its model vertices taken to camera space by
/// the camera transform composed with the instance transform, clipped
/// against the camera's planes, and — unless wholly rejected — the full
/// vertex buffer projected, alongside the surviving triangles.
pub open spec fn render_instance_s(camera: Camera, instance: Instance, cw: u32, ch: u32) -> Option<
    (Seq<Vec2>, Seq<Triangle>),
>
    recommends
        raster_camera_wf(camera),
{
    let m = mat_mul_s(camera_matrix_s(camera), instance.transform);
    let cam_verts = cam_verts_s(m, instance.model.vertices@, instance.model.vertices@.len() as int);
    let clipped = clip_instance_s(
        cam_verts,
        instance.model.triangles@,
        camera.planes@,
        camera.planes@.len() as int,
    );
    match clipped.1 {
        None => None,
        Some(ts) => Some(
            (project_all_s(cw, ch, camera, clipped.0, clipped.0.len() as int), ts),
        ),
    }
}

/// Renders one instance: `None` when the frustum rejects it wholly,
/// else the projected vertex buffer and the surviving triangles, for
/// the caller's triangle drawer.
pub fn render_instance(camera: &Camera, instance: &Instance, canvas_width: u32, canvas_height: u32)
    -> (r: Option<(Vec<Vec2>, Vec<Triangle>)>)
    requires
        raster_camera_wf(*camera),
        tris_valid_s(instance.model.triangles@, instance.model.vertices@.len() as int),
    ensures
        match r {
            None => render_instance_s(*camera, *instance, canvas_width, canvas_height) is None,
            Some(p) => render_instance_s(*camera, *instance, canvas_width, canvas_height)
                == Some((p.0@, p.1@)),
        },
{
    let camera_transform_mat = camera.orientation.transpose().matmul(
        Mat4::from_translation(camera.position.neg()),
    );
    let m = camera_transform_mat.matmul(instance.transform);
    let vn = instance.model.vertices.len();
    let mut vertices_camera_space: Vec<Vec3> = Vec::new();
    let mut i: usize = 0;
    while i < vn
        invariant
            vn == instance.model.vertices@.len(),
            i <= vn,
            vertices_camera_space@.len() == i,
            vertices_camera_space@ == cam_verts_s(m, instance.model.vertices@, i as int),
        decreases vn - i,
    {
        vertices_camera_space.push(m.transform_point(instance.model.vertices[i]));
        i = i + 1;
    }
    match clip_instance(
        &mut vertices_camera_space,
        instance.model.triangles.as_slice(),
        camera.planes.as_slice(),
    ) {
        None => None,
        Some(clipped_triangles) => {
            let pn = vertices_camera_space.len();
            let mut projected: Vec<Vec2> = Vec::new();
            let mut j: usize = 0;
            while j < pn
                invariant
                    pn == vertices_camera_space@.len(),
                    j <= pn,
                    raster_camera_wf(*camera),
                    projected@ == project_all_s(
                        canvas_width,
                        canvas_height,
                        *camera,
                        vertices_camera_space@,
                        j as int,
                    ),
                decreases pn - j,
            {
                let v = vertices_camera_space[j];
                if v.z == 0 {
                    projected.push(Vec2 { x: 0, y: 0 });
                } else {
                    projected.push(project_vertex(canvas_width, canvas_height, camera, v));
                }
                j = j + 1;
            }
            Some((projected, clipped_triangles))
        },
    }
}

/// Renders every instance of a scene: one entry per instance, in order.
pub fn render_scene(camera: &Camera, scene: &Vec<Instance>, canvas_width: u32, canvas_height: u32)
    -> (r: Vec<Option<(Vec<Vec2>, Vec<Triangle>)>>)
    requires
        raster_camera_wf(*camera),
        forall|i: int|
            0 <= i < scene@.len() ==> tris_valid_s(
                (#[trigger] scene@[i]).model.triangles@,
                scene@[i].model.vertices@.len() as int,
            ),
    ensures
        r@.len() == scene@.len(),
        forall|i: int|
            0 <= i < scene@.len() ==> match #[trigger] r@[i] {
                None => render_instance_s(*camera, scene@[i], canvas_width, canvas_height) is None,
                Some(p) => render_instance_s(*camera, scene@[i], canvas_width, canvas_height)
                    == Some((p.0@, p.1@)),
            },
{
    let n = scene.len();
    let mut out: Vec<Option<(Vec<Vec2>, Vec<Triangle>)>> = Vec::new();
    let mut i: usize = 0;
    while i < n
        invariant
            n == scene@.len(),
            i <= n,
            raster_camera_wf(*camera),
            forall|k: int|
                0 <= k < n ==> tris_valid_s(
                    (#[trigger] scene@[k]).model.triangles@,
                    scene@[k].model.vertices@.len() as int,
                ),
            out@.len() == i,
            forall|k: int|
                0 <= k < i ==> match #[trigger] out@[k] {
                    None => render_instance_s(*camera, scene@[k], canvas_width, canvas_height)
                        is None,
                    Some(p) => render_instance_s(*camera, scene@[k], canvas_width, canvas_height)
                        == Some((p.0@, p.1@)),
                },
        decreases n - i,
    {
        let rendered = render_instance(camera, &scene[i], canvas_width, canvas_height);
        out.push(rendered);
        i = i + 1;
    }
    out
}

/// The fixed translation `render_object` applies before projecting.
pub open spec fn object_offset_s() -> Vec3 {
    Vec3 { x: -1_500_000i64, y: 0, z: 7_000_000 }
}

/// Projects a model's vertices after the fixed offset
/// `(-1.5, 0, 7)`, one projected point per vertex, for the caller's
/// wireframe drawer.
pub fn render_object(camera: &Camera, canvas_width: u32, canvas_height: u32, vertices: &[Vec3])
    -> (r: Vec<Vec2>)
    requires
        raster_camera_wf(*camera),
        forall|i: int|
            0 <= i < vertices@.len() ==> vadd_s(#[trigger] vertices@[i], object_offset_s()).z != 0,
    ensures
        r@.len() == vertices@.len(),
        forall|i: int|
            0 <= i < vertices@.len() ==> #[trigger] r@[i] == project_vertex_s(
                canvas_width,
                canvas_height,
                *camera,
                vadd_s(vertices@[i], object_offset_s()),
            ),
{
    let n = vertices.len();
    let mut projected: Vec<Vec2> = Vec::new();
    let mut i: usize = 0;
    while i < n
        invariant
            n == vertices@.len(),
            i <= n,
            raster_camera_wf(*camera),
            forall|k: int|
                0 <= k < n ==> vadd_s(#[trigger] vertices@[k], object_offset_s()).z != 0,
            projected@.len() == i,
            forall|k: int|
                0 <= k < i ==> #[trigger] projected@[k] == project_vertex_s(
                    canvas_width,
                    canvas_height,
                    *camera,
                    vadd_s(vertices@[k], object_offset_s()),
                ),
        decreases n - i,
    {
        let translation = Vec3 { x: -1_500_000, y: 0, z: 7_000_000 };
        let vertex_translated = vertices[i].add(translation);
        projected.push(project_vertex(canvas_width, canvas_height, camera, vertex_translated));
        i = i + 1;
    }
    projected
}

impl Vec2 {
    /// Builds a projected point from its two coordinates.
    pub fn new(x: i64, y: i64) -> (r: Vec2)
        ensures
            r == (Vec2 { x, y }),
    {
        Vec2 { x, y }
    }
}

impl Plane {
    /// Builds a clip plane from its inward unit normal and the signed
    /// distance `d` from the origin to the plane; the stored offset is
    /// its negation.
    pub fn new(normal: Vec3, d: i64) -> (r: Plane)
        ensures
            r == (Plane { normal, d: fsub_i(0, d) }),
    {
        Plane { normal, d: fsub(0, d) }
    }
}

impl Triangle {
    /// Builds a triangle from its vertex indices and color.
    pub fn new(indices: [usize; 3], color: Color) -> (r: Triangle)
        ensures
            r == (Triangle { indices, color }),
    {
        Triangle { indices, color }
    }
}

impl Model {
    /// Builds a mesh from its vertices and triangles.
    pub fn new(vertices: Vec<Vec3>, triangles: Vec<Triangle>) -> (r: Model)
        ensures
            r.vertices@ == vertices@,
            r.triangles@ == triangles@,
    {
        Model { vertices, triangles }
    }
}

impl Instance {
    /// Places a model with the given scale, rotation and translation.
    /// The rotation is stored transposed, and the composed transform
    /// applies scale first, then the transposed rotation, then the
    /// translation.
    pub fn new(model: Model, scale: Vec3, rotation: Mat4, translation: Vec3) -> (r: Instance)
        ensures
            r.model.vertices@ == model.vertices@,
            r.model.triangles@ == model.triangles@,
            r.scale == scale,
            r.rotation == transpose_s(rotation),
            r.translation == translation,
            r.transform == mat_mul_s(
                mat_mul_s(translation_s(translation), transpose_s(rotation)),
                scaling_s(scale),
            ),
    {
        let rotation = rotation.transpose();
        let transform = Mat4::from_translation(translation).matmul(rotation).matmul(
            Mat4::from_scale(scale),
        );
        Instance { model, scale, rotation, translation, transform }
    }
}

impl Camera {
    /// A camera at `position` with the given orientation (stored
    /// transposed), the canonical unit view plane at unit distance, and
    /// the five frustum planes.
    pub fn new(position: Vec3, orientation: Mat4, planes: [Plane; 5]) -> (r: Camera)
        ensures
            r.position == position,
            r.orientation == transpose_s(orientation),
            r.width == SCALE,
            r.height == SCALE,
            r.d == SCALE,
            r.planes@ == planes@,
            raster_camera_wf(r),
    {
        let orientation = orientation.transpose();
        Camera { position, orientation, width: SCALE, height: SCALE, d: SCALE, planes }
    }
}

} // verus!
