//! Geometric primitives and their intersection tests.
//!
//! Each primitive's `hit` updates a caller-owned `HitRecord` in place
//! when it finds an intersection parameter inside the ray's valid
//! interval, and leaves it untouched otherwise. The exact outcome of a
//! query is pinned down by the `*_hit_s` spec functions.

use vstd::prelude::*;

use crate::fixed::FX_EPS;
use crate::fixed::FX_LIMIT;
use crate::fixed::FX_ONE;
use crate::fixed::fx_abs;
use crate::fixed::fx_abs_s;
use crate::fixed::fx_add;
use crate::fixed::fx_add_s;
use crate::fixed::fx_div;
use crate::fixed::fx_div_s;
use crate::fixed::fx_mul;
use crate::fixed::fx_mul_s;
use crate::fixed::fx_sqrt;
use crate::fixed::fx_sqrt_s;
use crate::fixed::isqrt_s;
use crate::fixed::fx_sub;
use crate::fixed::fx_sub_s;
use crate::hitrecord::HitRecV;
use crate::hitrecord::HitRecord;
use crate::ray::Ray;
use crate::ray::RayV;
use crate::ray::ray_at_s;
use crate::vec3::V3;
use crate::vec3::Vec3;
use crate::vec3::v_add_s;
use crate::vec3::v_cross_s;
use crate::vec3::v_dot_s;
use crate::vec3::v_len_sq_s;
use crate::vec3::v_norm_s;
use crate::vec3::v_reject_s;
use crate::vec3::v_sub_s;

verus! {

/// What every primitive shares: a position and a non-owning reference
/// (an index into the material catalog) to its material.
#[derive(Clone, Copy, PartialEq, Eq, Structural, Debug)]
pub struct ObjectProperties {
    pub position: Vec3,
    pub material: usize,
}

impl ObjectProperties {
    pub fn new(position: Vec3, material: usize) -> (r: Self)
        ensures
            r.position@ == position@,
            r.material == material,
    {
        Self { position, material }
    }
}

/// Intersection contract shared by all primitives.
///
/// `hit_result` is each primitive's exact model of one query: the
/// returned flag together with the record the query leaves behind.
pub trait Object {
    spec fn hit_result(&self, ray: RayV, rec: HitRecV, is_shadow_ray: bool) -> (bool, HitRecV);

    fn hit(&self, ray: &Ray, hit_record: &mut HitRecord, is_shadow_ray: bool) -> (r: bool)
        ensures
            (r, final(hit_record)@) == self.hit_result(ray@, old(hit_record)@, is_shadow_ray),
    ;

    /// Per-frame update hook reserved for animated geometry.
    fn update(&self, delta_time: i64);
}

// ---------------------------------------------------------------------
// Sphere
// ---------------------------------------------------------------------

pub struct Sphere {
    pub object_properties: ObjectProperties,
    pub radius: i64,
}

/// The intersection parameter a sphere reports for a ray, if any:
/// reject rays whose closest approach is outside the sphere or exactly
/// tangential, then take the nearer quadratic root inside
/// `[t_min, t_max]`, falling back to the farther root.
pub open spec fn sphere_candidate_s(s: Sphere, ray: RayV) -> Option<int> {
    let l = v_sub_s(s.object_properties.position@, ray.origin);
    let approach_sq = v_len_sq_s(v_reject_s(l, ray.direction));
    let radius_sq = fx_mul_s(s.radius as int, s.radius as int);
    if approach_sq > radius_sq || fx_abs_s(fx_sub_s(approach_sq, radius_sq)) < FX_EPS as int {
        None
    } else {
        let tca = v_dot_s(l, ray.direction);
        let thc = fx_sqrt_s(fx_sub_s(radius_sq, approach_sq));
        let t_near = fx_sub_s(tca, thc);
        let t = if t_near < ray.t_min || t_near > ray.t_max {
            fx_add_s(tca, thc)
        } else {
            t_near
        };
        if t < ray.t_min || t > ray.t_max {
            None
        } else {
            Some(t)
        }
    }
}

pub open spec fn sphere_hit_s(s: Sphere, ray: RayV, rec: HitRecV) -> (bool, HitRecV) {
    match sphere_candidate_s(s, ray) {
        None => (false, rec),
        Some(t) => {
            let hitpoint = ray_at_s(ray, t);
            (
                true,
                HitRecV {
                    hitpoint,
                    normal: v_norm_s(v_sub_s(hitpoint, s.object_properties.position@)),
                    material: Some(s.object_properties.material as int),
                    t,
                },
            )
        },
    }
}

impl Sphere {
    pub fn new(object_properties: ObjectProperties, radius: i64) -> (r: Self)
        ensures
            r.object_properties == object_properties,
            r.radius == radius,
    {
        Self { object_properties, radius }
    }
}

impl Object for Sphere {
    open spec fn hit_result(&self, ray: RayV, rec: HitRecV, is_shadow_ray: bool) -> (bool, HitRecV) {
        sphere_hit_s(*self, ray, rec)
    }

    fn hit(&self, ray: &Ray, hit_record: &mut HitRecord, is_shadow_ray: bool) -> (r: bool) {
        let ray_to_sphere = self.object_properties.position.sub(&ray.origin);
        let approach_distance_sq = ray_to_sphere.reject_from(&ray.direction).length_squared();
        let radius_sq = fx_mul(self.radius, self.radius);
        if approach_distance_sq > radius_sq
            || fx_abs(fx_sub(approach_distance_sq, radius_sq)) < FX_EPS {
            return false;
        }
        let tca = ray_to_sphere.dot(&ray.direction);
        let thc = fx_sqrt(fx_sub(radius_sq, approach_distance_sq));
        let mut t0 = fx_sub(tca, thc);
        if t0 < ray.t_min || t0 > ray.t_max {
            t0 = fx_add(tca, thc);
        }
        if t0 < ray.t_min || t0 > ray.t_max {
            return false;
        }
        hit_record.t = t0;
        hit_record.hitpoint = ray.at(t0);
        hit_record.normal = hit_record.hitpoint.sub(&self.object_properties.position).normalize();
        hit_record.material = Some(self.object_properties.material);
        true
    }

    fn update(&self, delta_time: i64) {
    }
}

// ---------------------------------------------------------------------
// Plane
// ---------------------------------------------------------------------

pub struct Plane {
    pub object_properties: ObjectProperties,
    pub normal: Vec3,
}

/// The intersection parameter a plane reports for a ray, if any: rays
/// parallel to the plane never hit; otherwise the single linear
/// solution, rejected outside `[t_min, t_max]`.
pub open spec fn plane_candidate_s(p: Plane, ray: RayV) -> Option<int> {
    let d_dot_n = v_dot_s(ray.direction, p.normal@);
    if d_dot_n == 0 {
        None
    } else {
        let t = fx_div_s(
            v_dot_s(v_sub_s(p.object_properties.position@, ray.origin), p.normal@),
            d_dot_n,
        );
        if t < ray.t_min || t > ray.t_max {
            None
        } else {
            Some(t)
        }
    }
}

pub open spec fn plane_hit_s(p: Plane, ray: RayV, rec: HitRecV) -> (bool, HitRecV) {
    match plane_candidate_s(p, ray) {
        None => (false, rec),
        Some(t) => (
            true,
            HitRecV {
                hitpoint: ray_at_s(ray, t),
                normal: p.normal@,
                material: Some(p.object_properties.material as int),
                t,
            },
        ),
    }
}

impl Plane {
    /// The stored normal is the normalization of the one given.
    pub fn new(object_properties: ObjectProperties, normal: Vec3) -> (r: Self)
        ensures
            r.object_properties == object_properties,
            r.normal@ == v_norm_s(normal@),
    {
        Self { object_properties, normal: normal.normalize() }
    }
}

impl Object for Plane {
    open spec fn hit_result(&self, ray: RayV, rec: HitRecV, is_shadow_ray: bool) -> (bool, HitRecV) {
        plane_hit_s(*self, ray, rec)
    }

    fn hit(&self, ray: &Ray, hit_record: &mut HitRecord, is_shadow_ray: bool) -> (r: bool) {
        let ray_dot_normal = ray.direction.dot(&self.normal);
        if ray_dot_normal == 0 {
            return false;
        }
        let intersection_distance = fx_div(
            self.object_properties.position.sub(&ray.origin).dot(&self.normal),
            ray_dot_normal,
        );
        if intersection_distance < ray.t_min || intersection_distance > ray.t_max {
            return false;
        }
        hit_record.t = intersection_distance;
        hit_record.hitpoint = ray.at(intersection_distance);
        hit_record.normal = self.normal;
        hit_record.material = Some(self.object_properties.material);
        true
    }

    fn update(&self, delta_time: i64) {
    }
}

// ---------------------------------------------------------------------
// Triangle
// ---------------------------------------------------------------------

/// Which side of a triangle is skipped by the intersection test.
#[derive(Clone, Copy, PartialEq, Eq, Structural, Debug)]
pub enum CullMode {
    Disabled,
    BackFace,
    FrontFace,
}

pub struct Triangle {
    pub object_properties: ObjectProperties,
    pub vertices: [Vec3; 3],
    pub normal: Vec3,
    pub cull_mode: CullMode,
}

/// The normal a triangle derives from its vertices on construction.
pub open spec fn tri_normal_s(v0: V3, v1: V3, v2: V3) -> V3 {
    v_norm_s(v_cross_s(v_sub_s(v2, v0), v_sub_s(v1, v0)))
}

/// One edge containment test: the hitpoint must lie on the interior
/// side of the edge from vertex `i` to vertex `i + 1` (indices mod 3),
/// both taken in world space.
pub open spec fn tri_edge_ok_s(tr: Triangle, hitpoint: V3, i: int) -> bool {
    let pos = tr.object_properties.position@;
    let a = v_add_s(tr.vertices@[i]@, pos);
    let b = v_add_s(tr.vertices@[(i + 1) % 3]@, pos);
    let edge = v_sub_s(b, a);
    let side_to_point = v_sub_s(a, hitpoint);
    v_dot_s(tr.normal@, v_cross_s(edge, side_to_point)) >= 0
}

/// The geometric intersection parameter of a triangle, if any:
/// culling by the sign of `dot(direction, normal)`, rejection of
/// near-parallel rays, the plane solution through vertex 0, the ray's
/// interval, and the three edge containment tests. Independent of any
/// hit record.
pub open spec fn tri_geom_candidate_s(tr: Triangle, ray: RayV) -> Option<int> {
    let v_dot_n = v_dot_s(ray.direction, tr.normal@);
    let culled = match tr.cull_mode {
        CullMode::Disabled => false,
        CullMode::BackFace => v_dot_n > 0,
        CullMode::FrontFace => v_dot_n < 0,
    };
    if culled {
        None
    } else if fx_abs_s(v_dot_n) < FX_EPS as int {
        None
    } else {
        let t = fx_div_s(
            v_dot_s(
                v_sub_s(
                    v_add_s(tr.vertices@[0]@, tr.object_properties.position@),
                    ray.origin,
                ),
                tr.normal@,
            ),
            v_dot_n,
        );
        if t < ray.t_min || t > ray.t_max {
            None
        } else {
            let hitpoint = ray_at_s(ray, t);
            if tri_edge_ok_s(tr, hitpoint, 0) && tri_edge_ok_s(tr, hitpoint, 1)
                && tri_edge_ok_s(tr, hitpoint, 2) {
                Some(t)
            } else {
                None
            }
        }
    }
}

/// What a triangle reports against a record: its geometric candidate,
/// except that a primary ray also defers to an existing hit — a
/// record that already holds a material — at a strictly smaller
/// parameter. Shadow rays accept any qualifying parameter.
pub open spec fn triangle_candidate_s(
    tr: Triangle,
    ray: RayV,
    rec: HitRecV,
    is_shadow_ray: bool,
) -> Option<int> {
    match tri_geom_candidate_s(tr, ray) {
        Some(t) => if !is_shadow_ray && rec.material is Some && t > rec.t {
            None
        } else {
            Some(t)
        },
        None => None,
    }
}

/// The record a triangle writes for a hit at parameter `t`; it
/// depends on the ray only through its origin and direction.
pub open spec fn tri_record_s(tr: Triangle, ray: RayV, t: int) -> HitRecV {
    HitRecV {
        hitpoint: ray_at_s(ray, t),
        normal: tr.normal@,
        material: Some(tr.object_properties.material as int),
        t,
    }
}

pub open spec fn triangle_hit_s(
    tr: Triangle,
    ray: RayV,
    rec: HitRecV,
    is_shadow_ray: bool,
) -> (bool, HitRecV) {
    match triangle_candidate_s(tr, ray, rec, is_shadow_ray) {
        None => (false, rec),
        Some(t) => (true, tri_record_s(tr, ray, t)),
    }
}

impl Triangle {
    pub fn new(object_properties: ObjectProperties, vertices: [Vec3; 3], cull_mode: CullMode) -> (r:
        Self)
        ensures
            r.object_properties == object_properties,
            r.vertices@ == vertices@,
            r.cull_mode == cull_mode,
            r.normal@ == tri_normal_s(vertices@[0]@, vertices@[1]@, vertices@[2]@),
    {
        let normal = vertices[2].sub(&vertices[0]).cross(&vertices[1].sub(&vertices[0])).normalize();
        Self { object_properties, vertices, normal, cull_mode }
    }
}

impl Object for Triangle {
    open spec fn hit_result(&self, ray: RayV, rec: HitRecV, is_shadow_ray: bool) -> (bool, HitRecV) {
        triangle_hit_s(*self, ray, rec, is_shadow_ray)
    }

    fn hit(&self, ray: &Ray, hit_record: &mut HitRecord, is_shadow_ray: bool) -> (r: bool) {
        let v_dot_n = ray.direction.dot(&self.normal);
        match self.cull_mode {
            CullMode::Disabled => {},
            CullMode::BackFace => {
                if v_dot_n > 0 {
                    return false;
                }
            },
            CullMode::FrontFace => {
                if v_dot_n < 0 {
                    return false;
                }
            },
        }
        if fx_abs(v_dot_n) < FX_EPS {
            return false;
        }
        let t = fx_div(
            self.vertices[0].add(&self.object_properties.position).sub(&ray.origin).dot(
                &self.normal,
            ),
            v_dot_n,
        );
        if t < ray.t_min || t > ray.t_max {
            return false;
        }
        // A primary ray defers to an existing hit that is strictly
        // closer; a fresh record constrains nothing.
        if !is_shadow_ray && hit_record.material.is_some() && t > hit_record.t {
            return false;
        }
        let hitpoint = ray.at(t);
        if !self.edge_check(&hitpoint, 0) || !self.edge_check(&hitpoint, 1) || !self.edge_check(
            &hitpoint,
            2,
        ) {
            return false;
        }
        hit_record.t = t;
        hit_record.hitpoint = hitpoint;
        hit_record.normal = self.normal;
        hit_record.material = Some(self.object_properties.material);
        true
    }

    fn update(&self, delta_time: i64) {
    }
}

impl Triangle {
    /// One of the three barycentric containment sign tests.
    fn edge_check(&self, hitpoint: &Vec3, i: usize) -> (r: bool)
        requires
            i < 3,
        ensures
            r == tri_edge_ok_s(*self, hitpoint@, i as int),
    {
        let j = if i == 2 {
            0
        } else {
            i + 1
        };
        let a = self.vertices[i].add(&self.object_properties.position);
        let b = self.vertices[j].add(&self.object_properties.position);
        let edge = b.sub(&a);
        let side_to_point = a.sub(hitpoint);
        self.normal.dot(&edge.cross(&side_to_point)) >= 0
    }
}

/// A ray identical to `ray` except for its upper bound.
pub open spec fn with_t_max_s(ray: RayV, m: int) -> RayV {
    RayV { origin: ray.origin, direction: ray.direction, t_min: ray.t_min, t_max: m }
}

/// Tightening a ray's upper bound only filters a sphere's or plane's
/// candidate: a candidate that survives the smaller bound is the same
/// parameter, and none appears that the wider bound rejected.
pub proof fn lemma_sphere_candidate_tighten(s: Sphere, ray: RayV, m: int)
    requires
        m <= ray.t_max,
    ensures
        sphere_candidate_s(s, with_t_max_s(ray, m)) == (match sphere_candidate_s(s, ray) {
            Some(t) => if t <= m {
                Some(t)
            } else {
                None::<int>
            },
            None => None::<int>,
        }),
{
    let l = v_sub_s(s.object_properties.position@, ray.origin);
    let approach_sq = v_len_sq_s(v_reject_s(l, ray.direction));
    let radius_sq = fx_mul_s(s.radius as int, s.radius as int);
    if !(approach_sq > radius_sq || fx_abs_s(fx_sub_s(approach_sq, radius_sq)) < FX_EPS as int) {
        crate::fixed::lemma_fx_sqrt_s_nonneg(fx_sub_s(radius_sq, approach_sq));
    }
}

pub proof fn lemma_plane_candidate_tighten(p: Plane, ray: RayV, m: int)
    requires
        m <= ray.t_max,
    ensures
        plane_candidate_s(p, with_t_max_s(ray, m)) == (match plane_candidate_s(p, ray) {
            Some(t) => if t <= m {
                Some(t)
            } else {
                None::<int>
            },
            None => None::<int>,
        }),
{
}

/// The square root of a squared radius lands within one raw unit
/// below the radius: squaring loses at most one fixed-point grain.
proof fn lemma_radius_sqrt_bound(r: int)
    requires
        32769 <= r <= 0x10_0000_0000,
    ensures
        r - 1 <= fx_sqrt_s(fx_mul_s(r, r)) <= r,
{
    let s = FX_ONE as int;
    let rsq = fx_mul_s(r, r);
    assert(r * r / s <= FX_LIMIT as int && r * r >= 0) by (nonlinear_arith)
        requires
            32769 <= r <= 0x10_0000_0000,
            s == 65536,
    ;
    vstd::arithmetic::div_mod::lemma_div_pos_is_pos(r * r, s);
    assert(rsq == r * r / s);
    let n = rsq * s;
    vstd::arithmetic::div_mod::lemma_fundamental_div_mod(r * r, s);
    vstd::arithmetic::div_mod::lemma_mod_bound(r * r, s);
    assert(n == r * r - (r * r) % s) by (nonlinear_arith)
        requires
            r * r == s * (r * r / s) + (r * r) % s,
            n == (r * r / s) * s,
    ;
    assert((r - 1) * (r - 1) <= n < (r + 1) * (r + 1)) by (nonlinear_arith)
        requires
            n == r * r - (r * r) % s,
            0 <= (r * r) % s < s,
            s == 65536,
            32769 <= r,
    ;
    assert(n >= 0) by (nonlinear_arith)
        requires
            (r - 1) * (r - 1) <= n,
    ;
    crate::fixed::lemma_isqrt_exists(n);
    let q = isqrt_s(n);
    assert(r * r >= 32769 * 32769) by (nonlinear_arith)
        requires
            r >= 32769,
    ;
    vstd::arithmetic::div_mod::lemma_div_is_ordered((32769 * 32769) as int, r * r, s);
    assert(rsq > 0);
    assert(fx_sqrt_s(rsq) == q);
    assert(r - 1 <= q <= r) by (nonlinear_arith)
        requires
            0 <= q,
            q * q <= n,
            n < (q + 1) * (q + 1),
            (r - 1) * (r - 1) <= n,
            n < (r + 1) * (r + 1),
            0 <= r,
    ;
}

/// A ray aimed exactly at a sphere's center from outside hits at a
/// parameter within one raw unit of `distance_to_center - radius`:
/// for a unit direction, `dot(center - origin, direction)` is the
/// distance to the center, and the reported parameter is that dot
/// minus the radius, up to one fixed-point grain lost in squaring.
pub proof fn lemma_sphere_head_on(s: Sphere, ray: RayV)
    requires
        // The ray passes through the center: no rejected component.
        v_reject_s(
            v_sub_s(s.object_properties.position@, ray.origin),
            ray.direction,
        ) == crate::vec3::v_zero_s(),
        32769 <= s.radius <= 0x10_0000_0000,
        ({
            let tca = v_dot_s(v_sub_s(s.object_properties.position@, ray.origin), ray.direction);
            &&& -(FX_LIMIT as int) / 2 <= tca <= (FX_LIMIT as int) / 2
            &&& ray.t_min <= tca - s.radius
            &&& tca <= ray.t_max
        }),
    ensures
        sphere_candidate_s(s, ray) is Some,
        ({
            let tca = v_dot_s(v_sub_s(s.object_properties.position@, ray.origin), ray.direction);
            tca - s.radius <= sphere_candidate_s(s, ray)->Some_0 <= tca - s.radius + 1
        }),
{
    let l = v_sub_s(s.object_properties.position@, ray.origin);
    let approach_sq = v_len_sq_s(v_reject_s(l, ray.direction));
    assert(approach_sq == 0);
    let radius_sq = fx_mul_s(s.radius as int, s.radius as int);
    lemma_radius_sqrt_bound(s.radius as int);
    assert(radius_sq >= 16384) by {
        let r = s.radius as int;
        assert(r * r >= 32769 * 32769) by (nonlinear_arith)
            requires
                r >= 32769,
        ;
        vstd::arithmetic::div_mod::lemma_div_is_ordered((32769 * 32769) as int, r * r, FX_ONE as int);
        assert(r * r / (FX_ONE as int) <= FX_LIMIT as int) by (nonlinear_arith)
            requires
                32769 <= r <= 0x10_0000_0000,
        ;
    }
    assert(fx_sub_s(radius_sq, 0) == radius_sq);
    let thc = fx_sqrt_s(radius_sq);
    let tca = v_dot_s(l, ray.direction);
    assert(fx_sub_s(tca, thc) == tca - thc);
}

/// A ray whose closest approach to a sphere's center is exactly the
/// sphere's radius is tangential and reports no hit, and the query
/// leaves the record untouched.
pub proof fn lemma_sphere_tangent_excluded(s: Sphere, ray: RayV, rec: HitRecV)
    requires
        v_len_sq_s(v_reject_s(v_sub_s(s.object_properties.position@, ray.origin), ray.direction))
            == fx_mul_s(s.radius as int, s.radius as int),
    ensures
        sphere_hit_s(s, ray, rec) == (false, rec),
{
}

/// A ray parallel to a plane (`dot(direction, normal) == 0`) never
/// reports a hit, for any origin, and leaves the record untouched.
pub proof fn lemma_plane_parallel_never_hits(p: Plane, ray: RayV, rec: HitRecV)
    requires
        v_dot_s(ray.direction, p.normal@) == 0,
    ensures
        plane_hit_s(p, ray, rec) == (false, rec),
{
}

/// With back-face culling, a ray approaching a triangle from its back
/// side (`dot(direction, normal) > 0`) never hits, regardless of
/// containment, and leaves the record untouched.
pub proof fn lemma_triangle_backface_culled(
    tr: Triangle,
    ray: RayV,
    rec: HitRecV,
    is_shadow_ray: bool,
)
    requires
        tr.cull_mode == CullMode::BackFace,
        v_dot_s(ray.direction, tr.normal@) > 0,
    ensures
        triangle_hit_s(tr, ray, rec, is_shadow_ray) == (false, rec),
{
}

// ---------------------------------------------------------------------
// Triangle mesh
// ---------------------------------------------------------------------

pub struct TriangleMesh {
    pub object_properties: ObjectProperties,
    pub triangle_mesh: Vec<Triangle>,
}

/// The outcome of testing a sequence of triangles in order against one
/// ray, threading the same record: the nearest-wins rule applies across
/// mesh members through the record's `t`.
pub open spec fn mesh_fold_s(
    tris: Seq<Triangle>,
    ray: RayV,
    rec: HitRecV,
    is_shadow_ray: bool,
    acc: bool,
) -> (bool, HitRecV)
    decreases tris.len(),
{
    if tris.len() == 0 {
        (acc, rec)
    } else {
        let step = triangle_hit_s(tris[0], ray, rec, is_shadow_ray);
        mesh_fold_s(tris.drop_first(), ray, step.1, is_shadow_ray, acc || step.0)
    }
}

impl TriangleMesh {
    /// Builds one triangle per consecutive index triple. Every index
    /// must address a vertex of the buffer.
    pub fn new(
        object_properties: ObjectProperties,
        vertex_buffer: Vec<Vec3>,
        index_buffer: Vec<u32>,
        cull_mode: CullMode,
    ) -> (r: Self)
        requires
            forall|k: int|
                0 <= k < index_buffer@.len() ==> (index_buffer@[k] as int)
                    < vertex_buffer@.len(),
        ensures
            r.object_properties == object_properties,
            r.triangle_mesh@.len() == index_buffer@.len() / 3,
            forall|i: int|
                0 <= i < r.triangle_mesh@.len() ==> #[trigger] r.triangle_mesh@[i]
                    == (Triangle {
                    object_properties,
                    vertices: r.triangle_mesh@[i].vertices,
                    normal: r.triangle_mesh@[i].normal,
                    cull_mode,
                }),
            forall|i: int|
                0 <= i < r.triangle_mesh@.len() ==> #[trigger] r.triangle_mesh@[i].vertices@
                    =~= seq![
                    vertex_buffer@[index_buffer@[3 * i] as int],
                    vertex_buffer@[index_buffer@[3 * i + 1] as int],
                    vertex_buffer@[index_buffer@[3 * i + 2] as int],
                ],
            forall|i: int|
                0 <= i < r.triangle_mesh@.len() ==> #[trigger] r.triangle_mesh@[i].normal@
                    == tri_normal_s(
                    vertex_buffer@[index_buffer@[3 * i] as int]@,
                    vertex_buffer@[index_buffer@[3 * i + 1] as int]@,
                    vertex_buffer@[index_buffer@[3 * i + 2] as int]@,
                ),
    {
        let mut triangle_mesh: Vec<Triangle> = Vec::new();
        let count = index_buffer.len() / 3;
        let mut i: usize = 0;
        while i < count
            invariant
                count == index_buffer@.len() / 3,
                index_buffer@.len() <= usize::MAX,
                forall|k: int|
                    0 <= k < index_buffer@.len() ==> (index_buffer@[k] as int)
                        < vertex_buffer@.len(),
                i <= count,
                triangle_mesh@.len() == i,
                forall|j: int|
                    0 <= j < i ==> #[trigger] triangle_mesh@[j] == (Triangle {
                        object_properties,
                        vertices: triangle_mesh@[j].vertices,
                        normal: triangle_mesh@[j].normal,
                        cull_mode,
                    }),
                forall|j: int|
                    0 <= j < i ==> #[trigger] triangle_mesh@[j].vertices@ =~= seq![
                        vertex_buffer@[index_buffer@[3 * j] as int],
                        vertex_buffer@[index_buffer@[3 * j + 1] as int],
                        vertex_buffer@[index_buffer@[3 * j + 2] as int],
                    ],
                forall|j: int|
                    0 <= j < i ==> #[trigger] triangle_mesh@[j].normal@ == tri_normal_s(
                        vertex_buffer@[index_buffer@[3 * j] as int]@,
                        vertex_buffer@[index_buffer@[3 * j + 1] as int]@,
                        vertex_buffer@[index_buffer@[3 * j + 2] as int]@,
                    ),
            decreases count - i,
        {
            proof {
                vstd::arithmetic::div_mod::lemma_fundamental_div_mod(
                    index_buffer@.len() as int,
                    3,
                );
                assert(3 * (i as int) + 2 < index_buffer@.len());
            }
            let triangle = Triangle::new(
                ObjectProperties {
                    position: object_properties.position,
                    material: object_properties.material,
                },
                [
                    vertex_buffer[index_buffer[i * 3] as usize],
                    vertex_buffer[index_buffer[i * 3 + 1] as usize],
                    vertex_buffer[index_buffer[i * 3 + 2] as usize],
                ],
                cull_mode,
            );
            triangle_mesh.push(triangle);
            i = i + 1;
        }
        Self { object_properties, triangle_mesh }
    }
}

impl Object for TriangleMesh {
    open spec fn hit_result(&self, ray: RayV, rec: HitRecV, is_shadow_ray: bool) -> (bool, HitRecV) {
        mesh_fold_s(self.triangle_mesh@, ray, rec, is_shadow_ray, false)
    }

    fn hit(&self, ray: &Ray, hit_record: &mut HitRecord, is_shadow_ray: bool) -> (r: bool) {
        let mut hit_anything = false;
        let mut i: usize = 0;
        let n = self.triangle_mesh.len();
        proof {
            assert(self.triangle_mesh@.skip(0) =~= self.triangle_mesh@);
        }
        while i < n
            invariant
                n == self.triangle_mesh@.len(),
                i <= n,
                mesh_fold_s(self.triangle_mesh@, ray@, old(hit_record)@, is_shadow_ray, false)
                    == mesh_fold_s(
                    self.triangle_mesh@.skip(i as int),
                    ray@,
                    hit_record@,
                    is_shadow_ray,
                    hit_anything,
                ),
            decreases n - i,
        {
            let ghost pre_rec = hit_record@;
            let ghost pre_acc = hit_anything;
            let triangle = &self.triangle_mesh[i];
            if triangle.hit(ray, hit_record, is_shadow_ray) {
                hit_anything = true;
            }
            proof {
                assert(self.triangle_mesh@.skip(i as int)[0] == self.triangle_mesh@[i as int]);
                assert(self.triangle_mesh@.skip(i as int).drop_first() =~= self.triangle_mesh@.skip(
                    i as int + 1,
                ));
            }
            i = i + 1;
        }
        proof {
            assert(self.triangle_mesh@.skip(n as int) =~= Seq::<Triangle>::empty());
        }
        hit_anything
    }

    fn update(&self, delta_time: i64) {
    }
}

/// A mesh traversal that already found a hit reports one.
pub proof fn lemma_mesh_fold_acc_true(tris: Seq<Triangle>, ray: RayV, rec: HitRecV, is_shadow: bool)
    ensures
        mesh_fold_s(tris, ray, rec, is_shadow, true).0,
    decreases tris.len(),
{
    if tris.len() > 0 {
        let step = triangle_hit_s(tris[0], ray, rec, is_shadow);
        lemma_mesh_fold_acc_true(tris.drop_first(), ray, step.1, is_shadow);
    }
}

/// A mesh traversal that reports no hit leaves the record untouched.
pub proof fn lemma_mesh_fold_false_untouched(
    tris: Seq<Triangle>,
    ray: RayV,
    rec: HitRecV,
    is_shadow: bool,
)
    requires
        !mesh_fold_s(tris, ray, rec, is_shadow, false).0,
    ensures
        mesh_fold_s(tris, ray, rec, is_shadow, false).1 == rec,
    decreases tris.len(),
{
    if tris.len() > 0 {
        let step = triangle_hit_s(tris[0], ray, rec, is_shadow);
        if step.0 {
            lemma_mesh_fold_acc_true(tris.drop_first(), ray, step.1, is_shadow);
        } else {
            lemma_mesh_fold_false_untouched(tris.drop_first(), ray, rec, is_shadow);
        }
    }
}

/// The smallest geometric candidate among a mesh's members.
pub open spec fn mesh_min_s(tris: Seq<Triangle>, ray: RayV) -> Option<int>
    decreases tris.len(),
{
    if tris.len() == 0 {
        None
    } else {
        let head = tri_geom_candidate_s(tris[0], ray);
        let rest = mesh_min_s(tris.drop_first(), ray);
        match (head, rest) {
            (Some(a), Some(b)) => if a < b {
                Some(a)
            } else {
                Some(b)
            },
            (Some(a), None) => Some(a),
            (None, r) => r,
        }
    }
}

/// Some member of the mesh reports a geometric hit at `t` and writes
/// exactly `rec`.
pub open spec fn mesh_record_ok_s(tris: Seq<Triangle>, ray: RayV, t: int, rec: HitRecV) -> bool {
    exists|i: int|
        0 <= i < tris.len() && tri_geom_candidate_s(#[trigger] tris[i], ray) == Some(t) && rec
            == tri_record_s(tris[i], ray, t)
}

/// Tightening a ray's upper bound only filters a triangle's geometric
/// candidate, like a sphere's or a plane's.
pub proof fn lemma_tri_geom_tighten(tr: Triangle, ray: RayV, m: int)
    requires
        m <= ray.t_max,
    ensures
        tri_geom_candidate_s(tr, with_t_max_s(ray, m)) == (match tri_geom_candidate_s(tr, ray) {
            Some(t) => if t <= m {
                Some(t)
            } else {
                None::<int>
            },
            None => None::<int>,
        }),
{
}

/// Tightening the bound filters the mesh minimum the same way.
pub proof fn lemma_mesh_min_tighten(tris: Seq<Triangle>, ray: RayV, m: int)
    requires
        m <= ray.t_max,
    ensures
        mesh_min_s(tris, with_t_max_s(ray, m)) == (match mesh_min_s(tris, ray) {
            Some(t) => if t <= m {
                Some(t)
            } else {
                None::<int>
            },
            None => None::<int>,
        }),
    decreases tris.len(),
{
    if tris.len() > 0 {
        lemma_tri_geom_tighten(tris[0], ray, m);
        lemma_mesh_min_tighten(tris.drop_first(), ray, m);
    }
}

/// The mesh minimum is achieved by some member and bounds every
/// member's candidate; it exists exactly when some member has one.
pub proof fn lemma_mesh_min_props(tris: Seq<Triangle>, ray: RayV)
    ensures
        (mesh_min_s(tris, ray) is Some) == (exists|i: int|
            0 <= i < tris.len() && tri_geom_candidate_s(#[trigger] tris[i], ray) is Some),
        mesh_min_s(tris, ray) is Some ==> (exists|i: int|
            0 <= i < tris.len() && tri_geom_candidate_s(#[trigger] tris[i], ray) == Some(
                mesh_min_s(tris, ray)->Some_0,
            )),
        mesh_min_s(tris, ray) is Some ==> (forall|i: int|
            0 <= i < tris.len() && tri_geom_candidate_s(#[trigger] tris[i], ray) is Some
                ==> mesh_min_s(tris, ray)->Some_0 <= tri_geom_candidate_s(tris[i], ray)->Some_0),
        mesh_min_s(tris, ray) is Some ==> mesh_min_s(tris, ray)->Some_0 <= ray.t_max,
    decreases tris.len(),
{
    if tris.len() > 0 {
        lemma_mesh_min_props(tris.drop_first(), ray);
        let rest = tris.drop_first();
        assert forall|i: int| 1 <= i < tris.len() implies #[trigger] tris[i] == rest[i - 1] by {}
        if mesh_min_s(tris, ray) is Some {
            assert forall|i: int|
                0 <= i < tris.len() && tri_geom_candidate_s(#[trigger] tris[i], ray) is Some implies
                mesh_min_s(tris, ray)->Some_0 <= tri_geom_candidate_s(tris[i], ray)->Some_0 by {
                if i >= 1 {
                    assert(tris[i] == rest[i - 1]);
                }
            }
        }
        if exists|i: int|
            0 <= i < tris.len() && tri_geom_candidate_s(#[trigger] tris[i], ray) is Some {
            let w = choose|i: int|
                0 <= i < tris.len() && tri_geom_candidate_s(#[trigger] tris[i], ray) is Some;
            if w >= 1 {
                assert(tri_geom_candidate_s(rest[w - 1], ray) is Some);
            }
        }
    }
}

/// The generalized induction behind the mesh step of the nearest-hit
/// law: a partially completed member traversal (the best hit so far,
/// or the untouched inputs) finishes with the smallest geometric
/// candidate among all members.
#[verifier::rlimit(100)]
#[verifier::spinoff_prover]
pub(crate) proof fn lemma_mesh_fold_nearest(
    tris: Seq<Triangle>,
    ray: RayV,
    rec_in: HitRecV,
    k: int,
    rec: HitRecV,
    acc: bool,
)
    requires
        0 <= k <= tris.len(),
        rec_in.material is Some ==> ray.t_max <= rec_in.t,
        !acc ==> rec == rec_in && forall|i: int|
            0 <= i < k ==> tri_geom_candidate_s(#[trigger] tris[i], ray) is None,
        acc ==> rec.material is Some && rec.t <= ray.t_max && (exists|i: int|
            0 <= i < k && tri_geom_candidate_s(#[trigger] tris[i], ray) == Some(rec.t) && rec
                == tri_record_s(tris[i], ray, rec.t)) && (forall|i: int|
            0 <= i < k && tri_geom_candidate_s(#[trigger] tris[i], ray) is Some ==> rec.t
                <= tri_geom_candidate_s(tris[i], ray)->Some_0),
    ensures
        ({
            let out = mesh_fold_s(tris.skip(k), ray, rec, false, acc);
            &&& out.0 == (acc || exists|i: int|
                k <= i < tris.len() && tri_geom_candidate_s(#[trigger] tris[i], ray) is Some)
            &&& out.0 ==> out.1.material is Some && out.1.t <= ray.t_max && mesh_record_ok_s(
                tris,
                ray,
                out.1.t,
                out.1,
            ) && (forall|i: int|
                0 <= i < tris.len() && tri_geom_candidate_s(#[trigger] tris[i], ray) is Some
                    ==> out.1.t <= tri_geom_candidate_s(tris[i], ray)->Some_0)
            &&& !out.0 ==> out.1 == rec
        }),
    decreases tris.len() - k,
{
    if k == tris.len() {
        assert(tris.skip(k) =~= Seq::<Triangle>::empty());
    } else {
        let tr = tris[k];
        assert(tris.skip(k)[0] == tr);
        assert(tris.skip(k).drop_first() =~= tris.skip(k + 1));
        let step = triangle_hit_s(tr, ray, rec, false);
        if step.0 {
            let t = triangle_candidate_s(tr, ray, rec, false)->Some_0;
            assert(tri_geom_candidate_s(tr, ray) == Some(t));
            assert(step.1 == tri_record_s(tr, ray, t));
            if acc {
                assert(t <= rec.t);
                assert forall|i: int|
                    0 <= i < k + 1 && tri_geom_candidate_s(#[trigger] tris[i], ray) is Some implies
                    step.1.t <= tri_geom_candidate_s(tris[i], ray)->Some_0 by {
                    if i < k {
                        assert(rec.t <= tri_geom_candidate_s(tris[i], ray)->Some_0);
                    }
                }
            }
            lemma_mesh_fold_nearest(tris, ray, rec_in, k + 1, step.1, true);
            lemma_mesh_fold_acc_true(tris.skip(k + 1), ray, step.1, false);
        } else {
            if acc && tri_geom_candidate_s(tr, ray) is Some {
                let t0 = tri_geom_candidate_s(tr, ray)->Some_0;
                assert(t0 > rec.t);
            }
            if !acc && tri_geom_candidate_s(tr, ray) is Some {
                // A geometric candidate at this state is never
                // filtered: either nothing is recorded yet, or the
                // incoming record's parameter is at least the bound.
                assert(false);
            }
            lemma_mesh_fold_nearest(tris, ray, rec_in, k + 1, rec, acc);
        }
    }
}

// ---------------------------------------------------------------------
// The closed variant set
// ---------------------------------------------------------------------

/// The closed set of primitives a scene may hold; dispatch is a plain
/// match over the variants.
pub enum ObjectEnum {
    Plane(Plane),
    Sphere(Sphere),
    Triangle(Triangle),
    TriangleMesh(TriangleMesh),
}

impl Object for ObjectEnum {
    open spec fn hit_result(&self, ray: RayV, rec: HitRecV, is_shadow_ray: bool) -> (bool, HitRecV) {
        match self {
            ObjectEnum::Plane(p) => p.hit_result(ray, rec, is_shadow_ray),
            ObjectEnum::Sphere(s) => s.hit_result(ray, rec, is_shadow_ray),
            ObjectEnum::Triangle(t) => t.hit_result(ray, rec, is_shadow_ray),
            ObjectEnum::TriangleMesh(m) => m.hit_result(ray, rec, is_shadow_ray),
        }
    }

    fn hit(&self, ray: &Ray, hit_record: &mut HitRecord, is_shadow_ray: bool) -> (r: bool) {
        match self {
            ObjectEnum::Plane(p) => p.hit(ray, hit_record, is_shadow_ray),
            ObjectEnum::Sphere(s) => s.hit(ray, hit_record, is_shadow_ray),
            ObjectEnum::Triangle(t) => t.hit(ray, hit_record, is_shadow_ray),
            ObjectEnum::TriangleMesh(m) => m.hit(ray, hit_record, is_shadow_ray),
        }
    }

    fn update(&self, delta_time: i64) {
        match self {
            ObjectEnum::Plane(p) => p.update(delta_time),
            ObjectEnum::Sphere(s) => s.update(delta_time),
            ObjectEnum::Triangle(t) => t.update(delta_time),
            ObjectEnum::TriangleMesh(m) => m.update(delta_time),
        }
    }
}

/// A query that reports no hit leaves the record untouched, whatever
/// the primitive.
pub proof fn lemma_object_miss_untouched(o: ObjectEnum, ray: RayV, rec: HitRecV, is_shadow: bool)
    requires
        !o.hit_result(ray, rec, is_shadow).0,
    ensures
        o.hit_result(ray, rec, is_shadow).1 == rec,
{
    match o {
        ObjectEnum::TriangleMesh(m) => {
            lemma_mesh_fold_false_untouched(m.triangle_mesh@, ray, rec, is_shadow);
        },
        _ => {},
    }
}

} // verus!
