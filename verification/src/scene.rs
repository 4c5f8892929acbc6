//! The ray-traced scene: nearest-hit search across all spheres, the
//! shadow-aware light model, and the recursive trace with reflections.

use crate::color::{
    color_plus_s, color_times_s, lemma_color_plus_black, lemma_color_times_one,
    lemma_color_times_zero, Color,
};
use crate::fixed::{fadd, fadd_i, fdiv, fdiv_i, fmul, fmul_i, fpow, fpow_i, fsub_i, SCALE, T_INF};
use crate::light::Light;
use crate::sphere::{roots_s, Sphere};
use crate::vec3::{dot_s, length_s, reflect_s, vadd_s, vneg_s, vnorm_s, vscale_s, vsub_s, Vec3};
use vstd::prelude::*;

verus! {

/// Smallest ray parameter admitted by a shadow ray, so that a surface
/// does not shadow itself.
pub const SHADOW_EPS: i64 = 1_000;

/// Smallest ray parameter admitted by a reflection ray.
pub const REFLECT_EPS: i64 = 100_000;

/// A scene: an ordered collection of spheres and a collection of lights,
/// read-only during a render.
pub struct Scene {
    pub spheres: Vec<Sphere>,
    pub lights: Vec<Light>,
}

/// The nearest hit among the first `n` spheres: the index (or `-1`) and
/// ray parameter of the root minimizing `t` subject to
/// `tmin <= t <= tmax`, scanning spheres in order and each sphere's `+`
/// root before its `-` root, a later candidate winning only when strictly
/// smaller.
pub open spec fn closest_upto_s(
    spheres: Seq<Sphere>,
    origin: Vec3,
    dir: Vec3,
    tmin: i64,
    tmax: i64,
    n: int,
) -> (int, i64)
    recommends
        0 <= n <= spheres.len(),
    decreases n,
{
    if n <= 0 {
        (-1, T_INF)
    } else {
        let prev = closest_upto_s(spheres, origin, dir, tmin, tmax, n - 1);
        let roots = roots_s(spheres[n - 1], origin, dir);
        let first = if roots.0 >= tmin && roots.0 <= tmax && roots.0 < prev.1 {
            (n - 1, roots.0)
        } else {
            prev
        };
        if roots.1 >= tmin && roots.1 <= tmax && roots.1 < first.1 {
            (n - 1, roots.1)
        } else {
            first
        }
    }
}

/// The nearest hit among all spheres.
pub open spec fn closest_hit_s(
    spheres: Seq<Sphere>,
    origin: Vec3,
    dir: Vec3,
    tmin: i64,
    tmax: i64,
) -> (int, i64) {
    closest_upto_s(spheres, origin, dir, tmin, tmax, spheres.len() as int)
}

/// Whether a shadow ray from `point` along `light_vec` meets any sphere
/// within `(SHADOW_EPS, tmax)`.
pub open spec fn shadowed_s(spheres: Seq<Sphere>, point: Vec3, light_vec: Vec3, tmax: i64) -> bool {
    closest_hit_s(spheres, point, light_vec, SHADOW_EPS, tmax).0 >= 0
}

/// The diffuse factor of a light vector at a surface: the cosine of its
/// angle with the normal. `None` when the surface faces away
/// (`dot < 0`); zero when either length rounds to zero.
pub open spec fn scene_diffuse_s(light_vec: Vec3, normal: Vec3) -> Option<i64> {
    let nl = dot_s(normal, light_vec);
    if nl < 0 {
        None
    } else {
        let den = fmul_i(length_s(normal), length_s(light_vec));
        Some(if den == 0 { 0i64 } else { fdiv_i(nl, den) })
    }
}

/// The specular factor of a light vector at a surface seen from `view`:
/// the cosine of the reflected vector's angle with the view, raised to
/// the exponent. `None` when no exponent is present or the reflection
/// points away (`dot <= 0`); zero when either length rounds to zero.
pub open spec fn scene_specular_s(
    light_vec: Vec3,
    normal: Vec3,
    view: Vec3,
    exponent: Option<u32>,
) -> Option<i64> {
    match exponent {
        None => None,
        Some(e) => {
            let reflect = reflect_s(light_vec, normal);
            let rv = dot_s(reflect, view);
            if rv > 0 {
                let den = fmul_i(length_s(reflect), length_s(view));
                Some(if den == 0 { 0i64 } else { fpow_i(fdiv_i(rv, den), e) })
            } else {
                None
            }
        },
    }
}

/// One light folded into the running intensity `acc`. An ambient light
/// always adds its intensity; a point or directional light adds its
/// diffuse and specular terms unless a shadow ray toward it meets a
/// sphere, in which case it adds nothing.
pub open spec fn acc_light_s(
    spheres: Seq<Sphere>,
    light: Light,
    point: Vec3,
    normal: Vec3,
    view: Vec3,
    exponent: Option<u32>,
    acc: i64,
) -> i64 {
    match light {
        Light::Ambient(a) => fadd_i(acc, a.intensity),
        Light::Point(p) => {
            let lv = vsub_s(p.position, point);
            if shadowed_s(spheres, point, lv, SCALE) {
                acc
            } else {
                let acc1 = match scene_diffuse_s(lv, normal) {
                    Some(v) => fadd_i(acc, fmul_i(p.intensity, v)),
                    None => acc,
                };
                match scene_specular_s(lv, normal, view, exponent) {
                    Some(v) => fadd_i(acc1, fmul_i(p.intensity, v)),
                    None => acc1,
                }
            }
        },
        Light::Directional(dl) => {
            let lv = dl.direction;
            if shadowed_s(spheres, point, lv, T_INF) {
                acc
            } else {
                let acc1 = match scene_diffuse_s(lv, normal) {
                    Some(v) => fadd_i(acc, fmul_i(dl.intensity, v)),
                    None => acc,
                };
                match scene_specular_s(lv, normal, view, exponent) {
                    Some(v) => fadd_i(acc1, fmul_i(dl.intensity, v)),
                    None => acc1,
                }
            }
        },
    }
}

/// The intensity accumulated over the first `n` lights, starting from
/// zero.
pub open spec fn light_upto_s(
    spheres: Seq<Sphere>,
    lights: Seq<Light>,
    point: Vec3,
    normal: Vec3,
    view: Vec3,
    exponent: Option<u32>,
    n: int,
) -> i64
    recommends
        0 <= n <= lights.len(),
    decreases n,
{
    if n <= 0 {
        0
    } else {
        acc_light_s(
            spheres,
            lights[n - 1],
            point,
            normal,
            view,
            exponent,
            light_upto_s(spheres, lights, point, normal, view, exponent, n - 1),
        )
    }
}

/// The total intensity at a point, over all lights.
pub open spec fn light_total_s(
    spheres: Seq<Sphere>,
    lights: Seq<Light>,
    point: Vec3,
    normal: Vec3,
    view: Vec3,
    exponent: Option<u32>,
) -> i64 {
    light_upto_s(spheres, lights, point, normal, view, exponent, lights.len() as int)
}

/// The locally shaded color of a ray: the background when it hits no
/// sphere, else the hit sphere's color scaled by the total light
/// intensity at the hit point. Reflections play no part here.
pub open spec fn local_color_s(
    spheres: Seq<Sphere>,
    lights: Seq<Light>,
    origin: Vec3,
    dir: Vec3,
    tmin: i64,
    tmax: i64,
) -> Color {
    let h = closest_hit_s(spheres, origin, dir, tmin, tmax);
    if h.0 < 0 {
        Color { red: 0, green: 0, blue: 0 }
    } else {
        let s = spheres[h.0];
        let point = vadd_s(origin, vscale_s(dir, h.1));
        let normal = vnorm_s(vsub_s(point, s.center));
        color_times_s(s.color, light_total_s(spheres, lights, point, normal, vneg_s(dir), s.specular))
    }
}

/// The traced color of a ray. A miss is the background; a hit is shaded
/// locally, and when the sphere is reflective and `depth` allows, the
/// reflected ray's color is blended in with weight equal to the
/// reflectivity.
pub open spec fn trace_s(
    spheres: Seq<Sphere>,
    lights: Seq<Light>,
    origin: Vec3,
    dir: Vec3,
    tmin: i64,
    tmax: i64,
    depth: int,
) -> Color
    decreases depth,
{
    let h = closest_hit_s(spheres, origin, dir, tmin, tmax);
    if h.0 < 0 {
        Color { red: 0, green: 0, blue: 0 }
    } else {
        let s = spheres[h.0];
        let point = vadd_s(origin, vscale_s(dir, h.1));
        let normal = vnorm_s(vsub_s(point, s.center));
        let local = color_times_s(
            s.color,
            light_total_s(spheres, lights, point, normal, vneg_s(dir), s.specular),
        );
        match s.reflective {
            None => local,
            Some(k) => {
                if depth <= 0 {
                    local
                } else {
                    let reflect = reflect_s(vneg_s(dir), normal);
                    let rc = trace_s(spheres, lights, point, reflect, REFLECT_EPS, T_INF, depth - 1);
                    color_plus_s(color_times_s(local, fsub_i(SCALE, k)), color_times_s(rc, k))
                }
            },
        }
    }
}

/// A root that never wins the nearest-hit comparison over `[tmin, tmax]`:
/// it lies outside the range, or it is the no-intersection sentinel.
pub open spec fn root_missed_s(t: i64, tmin: i64, tmax: i64) -> bool {
    !(tmin <= t && t <= tmax) || t == T_INF
}

/// The ray `(origin, dir)` misses every sphere over `[tmin, tmax]`.
pub open spec fn ray_misses_s(
    spheres: Seq<Sphere>,
    origin: Vec3,
    dir: Vec3,
    tmin: i64,
    tmax: i64,
) -> bool {
    forall|i: int|
        0 <= i < spheres.len() ==> {
            let roots = #[trigger] roots_s(spheres[i], origin, dir);
            root_missed_s(roots.0, tmin, tmax) && root_missed_s(roots.1, tmin, tmax)
        }
}

proof fn lemma_miss_upto(
    spheres: Seq<Sphere>,
    origin: Vec3,
    dir: Vec3,
    tmin: i64,
    tmax: i64,
    n: int,
)
    requires
        0 <= n <= spheres.len(),
        ray_misses_s(spheres, origin, dir, tmin, tmax),
    ensures
        closest_upto_s(spheres, origin, dir, tmin, tmax, n) == (-1int, T_INF),
    decreases n,
{
    if n > 0 {
        lemma_miss_upto(spheres, origin, dir, tmin, tmax, n - 1);
    }
}

/// For every ray that misses every sphere, the trace is the background
/// color, whatever the recursion depth.
pub proof fn lemma_miss_background(
    spheres: Seq<Sphere>,
    lights: Seq<Light>,
    origin: Vec3,
    dir: Vec3,
    tmin: i64,
    tmax: i64,
    depth: int,
)
    requires
        ray_misses_s(spheres, origin, dir, tmin, tmax),
    ensures
        trace_s(spheres, lights, origin, dir, tmin, tmax, depth) == (Color {
            red: 0,
            green: 0,
            blue: 0,
        }),
{
    lemma_miss_upto(spheres, origin, dir, tmin, tmax, spheres.len() as int);
}

/// A sphere with reflectivity zero is shaded purely locally: the trace
/// equals the locally shaded color, whatever the recursion depth.
pub proof fn lemma_zero_reflectivity_local(
    spheres: Seq<Sphere>,
    lights: Seq<Light>,
    origin: Vec3,
    dir: Vec3,
    tmin: i64,
    tmax: i64,
    depth: int,
)
    requires
        ({
            let h = closest_hit_s(spheres, origin, dir, tmin, tmax);
            h.0 >= 0 && spheres[h.0].reflective == Some(0i64)
        }),
    ensures
        trace_s(spheres, lights, origin, dir, tmin, tmax, depth) == local_color_s(
            spheres,
            lights,
            origin,
            dir,
            tmin,
            tmax,
        ),
{
    let local = local_color_s(spheres, lights, origin, dir, tmin, tmax);
    if depth > 0 {
        let h = closest_hit_s(spheres, origin, dir, tmin, tmax);
        let s = spheres[h.0];
        let point = vadd_s(origin, vscale_s(dir, h.1));
        let normal = vnorm_s(vsub_s(point, s.center));
        let reflect = reflect_s(vneg_s(dir), normal);
        let rc = trace_s(spheres, lights, point, reflect, REFLECT_EPS, T_INF, depth - 1);
        assert(fsub_i(SCALE, 0) == SCALE);
        lemma_color_times_one(local);
        lemma_color_times_zero(rc);
        lemma_color_plus_black(local);
    }
}

/// With the recursion depth exhausted, the trace never recurses: it is
/// exactly the locally shaded color, whatever any sphere's reflectivity.
pub proof fn lemma_depth_exhausted_local(
    spheres: Seq<Sphere>,
    lights: Seq<Light>,
    origin: Vec3,
    dir: Vec3,
    tmin: i64,
    tmax: i64,
    depth: int,
)
    requires
        depth <= 0,
    ensures
        trace_s(spheres, lights, origin, dir, tmin, tmax, depth) == local_color_s(
            spheres,
            lights,
            origin,
            dir,
            tmin,
            tmax,
        ),
{
}

/// A point light whose shadow ray meets a sphere contributes nothing:
/// the running intensity passes through it unchanged.
pub proof fn lemma_shadowed_point_light_dark(
    spheres: Seq<Sphere>,
    p: crate::light::PointLight,
    point: Vec3,
    normal: Vec3,
    view: Vec3,
    exponent: Option<u32>,
    acc: i64,
)
    requires
        shadowed_s(spheres, point, vsub_s(p.position, point), SCALE),
    ensures
        acc_light_s(spheres, Light::Point(p), point, normal, view, exponent, acc) == acc,
{
}

/// A directional light whose shadow ray meets a sphere contributes
/// nothing: the running intensity passes through it unchanged.
pub proof fn lemma_shadowed_directional_light_dark(
    spheres: Seq<Sphere>,
    dl: crate::light::DirectionalLight,
    point: Vec3,
    normal: Vec3,
    view: Vec3,
    exponent: Option<u32>,
    acc: i64,
)
    requires
        shadowed_s(spheres, point, dl.direction, T_INF),
    ensures
        acc_light_s(spheres, Light::Directional(dl), point, normal, view, exponent, acc) == acc,
{
}

impl Scene {
    /// Builds a scene from its spheres and lights.
    pub fn new(spheres: Vec<Sphere>, lights: Vec<Light>) -> (r: Scene)
        ensures
            r.spheres@ == spheres@,
            r.lights@ == lights@,
    {
        Scene { spheres, lights }
    }

    /// The nearest sphere hit by the ray within `[t_min, t_max]`, with
    /// its ray parameter; `None` and the sentinel when every sphere is
    /// missed.
    fn intersect(&self, origin: Vec3, direction: Vec3, t_min: i64, t_max: i64) -> (r: (
        Option<usize>,
        i64,
    ))
        ensures
            ({
                let h = closest_hit_s(self.spheres@, origin, direction, t_min, t_max);
                &&& r.1 == h.1
                &&& match r.0 {
                    Some(j) => h.0 == j as int && (j as int) < self.spheres@.len(),
                    None => h.0 == -1,
                }
            }),
    {
        let mut closest_t: i64 = T_INF;
        let mut closest: Option<usize> = None;
        let n = self.spheres.len();
        let mut i: usize = 0;
        while i < n
            invariant
                n == self.spheres@.len(),
                i <= n,
                ({
                    let h = closest_upto_s(self.spheres@, origin, direction, t_min, t_max, i as int);
                    &&& closest_t == h.1
                    &&& match closest {
                        Some(j) => h.0 == j as int && (j as int) < i as int,
                        None => h.0 == -1,
                    }
                }),
            decreases n - i,
        {
            let (t1, t2) = self.spheres[i].intersect(origin, direction);
            if t1 >= t_min && t1 <= t_max && t1 < closest_t {
                closest_t = t1;
                closest = Some(i);
            }
            if t2 >= t_min && t2 <= t_max && t2 < closest_t {
                closest_t = t2;
                closest = Some(i);
            }
            i = i + 1;
        }
        (closest, closest_t)
    }

    /// The diffuse factor of a light vector at a surface.
    fn diffuse(light: Vec3, normal: Vec3) -> (r: Option<i64>)
        ensures
            r == scene_diffuse_s(light, normal),
    {
        let nl = normal.dot(light);
        if nl < 0 {
            None
        } else {
            let den = fmul(normal.length(), light.length());
            Some(if den == 0 { 0 } else { fdiv(nl, den) })
        }
    }

    /// The specular factor of a light vector at a surface seen from
    /// `view`.
    fn specular(light: Vec3, normal: Vec3, view: Vec3, specular: Option<u32>) -> (r: Option<i64>)
        ensures
            r == scene_specular_s(light, normal, view, specular),
    {
        match specular {
            None => None,
            Some(e) => {
                let reflect = Scene::reflect_ray(light, normal);
                let rv = reflect.dot(view);
                if rv > 0 {
                    let den = fmul(reflect.length(), view.length());
                    Some(if den == 0 { 0 } else { fpow(fdiv(rv, den), e) })
                } else {
                    None
                }
            },
        }
    }

    /// A ray reflected about a surface normal.
    fn reflect_ray(ray: Vec3, normal: Vec3) -> (r: Vec3)
        ensures
            r == reflect_s(ray, normal),
    {
        ray.reflect(normal)
    }

    /// The total light intensity at `point` with the given surface
    /// normal, seen from `view`, with shadow rays cast toward each point
    /// and directional light.
    fn light(&self, point: Vec3, normal: Vec3, view: Vec3, specular: Option<u32>) -> (r: i64)
        ensures
            r == light_total_s(self.spheres@, self.lights@, point, normal, view, specular),
    {
        let mut intensity: i64 = 0;
        let n = self.lights.len();
        let mut i: usize = 0;
        while i < n
            invariant
                n == self.lights@.len(),
                i <= n,
                intensity == light_upto_s(
                    self.spheres@,
                    self.lights@,
                    point,
                    normal,
                    view,
                    specular,
                    i as int,
                ),
            decreases n - i,
        {
            match self.lights[i] {
                Light::Ambient(a) => {
                    intensity = fadd(intensity, a.intensity);
                },
                Light::Point(p) => {
                    let lv = p.position.sub(point);
                    let (shadow, _shadow_t) = self.intersect(point, lv, SHADOW_EPS, SCALE);
                    if shadow.is_none() {
                        if let Some(d) = Scene::diffuse(lv, normal) {
                            intensity = fadd(intensity, fmul(p.intensity, d));
                        }
                        if let Some(s) = Scene::specular(lv, normal, view, specular) {
                            intensity = fadd(intensity, fmul(p.intensity, s));
                        }
                    }
                },
                Light::Directional(dl) => {
                    let lv = dl.direction;
                    let (shadow, _shadow_t) = self.intersect(point, lv, SHADOW_EPS, T_INF);
                    if shadow.is_none() {
                        if let Some(d) = Scene::diffuse(lv, normal) {
                            intensity = fadd(intensity, fmul(dl.intensity, d));
                        }
                        if let Some(s) = Scene::specular(lv, normal, view, specular) {
                            intensity = fadd(intensity, fmul(dl.intensity, s));
                        }
                    }
                },
            }
            i = i + 1;
        }
        intensity
    }

    /// Traces a ray through the scene and returns its color: background
    /// on a miss, local Phong shading on a hit, and — while
    /// `recursion_depth` allows — a blend with the reflected ray's color
    /// weighted by the sphere's reflectivity.
    pub fn trace(
        &self,
        origin: Vec3,
        direction: Vec3,
        t_min: i64,
        t_max: i64,
        recursion_depth: i32,
    ) -> (r: Color)
        ensures
            r == trace_s(
                self.spheres@,
                self.lights@,
                origin,
                direction,
                t_min,
                t_max,
                recursion_depth as int,
            ),
        decreases recursion_depth,
    {
        let (closest_sphere, closest_t) = self.intersect(origin, direction, t_min, t_max);
        match closest_sphere {
            Some(idx) => {
                let sphere = self.spheres[idx];
                let point = origin.add(direction.scale(closest_t));
                let normal = point.sub(sphere.center).normalize();
                let local_color = sphere.color.times(
                    self.light(point, normal, direction.neg(), sphere.specular),
                );
                if let Some(reflective) = sphere.reflective {
                    if recursion_depth <= 0 {
                        local_color
                    } else {
                        let reflect = Scene::reflect_ray(direction.neg(), normal);
                        let reflected_color = self.trace(
                            point,
                            reflect,
                            REFLECT_EPS,
                            T_INF,
                            recursion_depth - 1,
                        );
                        local_color.times(crate::fixed::fsub(SCALE, reflective)).plus(
                            reflected_color.times(reflective),
                        )
                    }
                } else {
                    local_color
                }
            },
            None => Color::background(),
        }
    }
}

} // verus!
