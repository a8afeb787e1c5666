//! The scene: an ordered collection of primitives, resolving
//! nearest-hit and shadow-hit queries by linear traversal.

use vstd::prelude::*;

use crate::fixed::FX_LIMIT;
use crate::fixed::FX_ONE;
use crate::fixed::FX_SURFACE_EPS;
use crate::fixed::FX_T_MAX;
use crate::fixed::fx_div_s;
use crate::fixed::lemma_fx_mul_antimono;
use crate::fixed::lemma_fx_mul_eps_bound;
use crate::fixed::lemma_fx_mul_mono;
use crate::hitrecord::HitRecV;
use crate::hitrecord::HitRecord;
use crate::objects::Object;
use crate::objects::ObjectEnum;
use crate::objects::Plane;
use crate::objects::lemma_mesh_fold_nearest;
use crate::objects::lemma_mesh_min_props;
use crate::objects::lemma_mesh_min_tighten;
use crate::objects::lemma_plane_candidate_tighten;
use crate::objects::lemma_sphere_candidate_tighten;
use crate::objects::lemma_tri_geom_tighten;
use crate::objects::mesh_fold_s;
use crate::objects::mesh_min_s;
use crate::objects::mesh_record_ok_s;
use crate::objects::plane_candidate_s;
use crate::objects::plane_hit_s;
use crate::objects::sphere_candidate_s;
use crate::objects::tri_geom_candidate_s;
use crate::objects::tri_record_s;
use crate::objects::triangle_candidate_s;
use crate::objects::with_t_max_s;
use crate::ray::Ray;
use crate::ray::RayV;
use crate::ray::ray_at_s;
use crate::vec3::V3;
use crate::vec3::v_add_s;
use crate::vec3::v_bounded_s;
use crate::vec3::v_dot_s;
use crate::vec3::v_norm_s;
use crate::vec3::v_scale_s;
use crate::vec3::v_sub_s;

verus! {

/// An ordered scene of primitives. Order does not affect which hit a
/// primary traversal from a fresh record reports (see
/// `lemma_scenegraph_nearest`), only how early shadow queries exit.
pub struct Scenegraph {
    objects: Vec<ObjectEnum>,
}

impl View for Scenegraph {
    type V = Seq<ObjectEnum>;

    closed spec fn view(&self) -> Seq<ObjectEnum> {
        self.objects@
    }
}

/// The outcome of testing the primitives in order against one ray:
/// whenever a primitive reports a hit, the record is replaced and the
/// ray's `t_max` is tightened to the new `t`, so later primitives can
/// only report hits at most as far away.
pub open spec fn scene_fold_s(
    objs: Seq<ObjectEnum>,
    ray: RayV,
    rec: HitRecV,
    is_shadow: bool,
    acc: bool,
) -> (bool, RayV, HitRecV)
    decreases objs.len(),
{
    if objs.len() == 0 {
        (acc, ray, rec)
    } else {
        let step = objs[0].hit_result(ray, rec, is_shadow);
        if step.0 {
            let tightened = RayV {
                origin: ray.origin,
                direction: ray.direction,
                t_min: ray.t_min,
                t_max: step.1.t,
            };
            scene_fold_s(objs.drop_first(), tightened, step.1, is_shadow, true)
        } else {
            scene_fold_s(objs.drop_first(), ray, step.1, is_shadow, acc)
        }
    }
}

impl Scenegraph {
    pub fn new() -> (r: Self)
        ensures
            r@ == Seq::<ObjectEnum>::empty(),
    {
        Scenegraph { objects: Vec::new() }
    }

    pub fn add_object(&mut self, object: ObjectEnum)
        ensures
            final(self)@ == old(self)@.push(object),
    {
        self.objects.push(object);
    }

    /// Objects are identified positionally; removal is by index.
    pub fn remove_object(&mut self, index: usize)
        requires
            index < old(self)@.len(),
        ensures
            final(self)@ == old(self)@.remove(index as int),
    {
        self.objects.remove(index);
    }

    pub fn get_objects(&self) -> (r: &Vec<ObjectEnum>)
        ensures
            r@ == self@,
    {
        &self.objects
    }

    /// Runs every primitive's per-frame update hook; no geometry is
    /// animated, so the scene is unchanged.
    pub fn update(&mut self, delta_time: i64)
        ensures
            final(self)@ == old(self)@,
    {
        let mut i: usize = 0;
        let n = self.objects.len();
        while i < n
            invariant
                n == self.objects@.len(),
                i <= n,
            decreases n - i,
        {
            self.objects[i].update(delta_time);
            i = i + 1;
        }
    }

    /// Nearest-hit / shadow-hit resolution: a primary query first
    /// resets the ray's upper bound to the full range, then every
    /// primitive is tested in order, tightening the bound at each hit.
    /// Returns true iff at least one primitive intersected within
    /// range; the final ray and record are exactly the traversal fold.
    pub fn hit(&self, ray: &mut Ray, hit_record: &mut HitRecord, is_shadow: bool) -> (r: bool)
        ensures
            ({
                let start = if is_shadow {
                    old(ray)@
                } else {
                    RayV {
                        origin: old(ray)@.origin,
                        direction: old(ray)@.direction,
                        t_min: old(ray)@.t_min,
                        t_max: FX_T_MAX as int,
                    }
                };
                (r, final(ray)@, final(hit_record)@) == scene_fold_s(
                    self@,
                    start,
                    old(hit_record)@,
                    is_shadow,
                    false,
                )
            }),
    {
        if !is_shadow {
            ray.t_max = FX_T_MAX;
        }
        let ghost start = (*ray)@;
        let mut hit_anything = false;
        let n = self.objects.len();
        let mut i: usize = 0;
        proof {
            assert(self@.skip(0) =~= self@);
        }
        while i < n
            invariant
                n == self@.len(),
                i <= n,
                scene_fold_s(self@, start, old(hit_record)@, is_shadow, false) == scene_fold_s(
                    self@.skip(i as int),
                    (*ray)@,
                    (*hit_record)@,
                    is_shadow,
                    hit_anything,
                ),
            decreases n - i,
        {
            let ghost pre_ray = (*ray)@;
            let ghost pre_rec = (*hit_record)@;
            let ghost pre_acc = hit_anything;
            let object_hit = self.objects[i].hit(ray, hit_record, is_shadow);
            if object_hit {
                ray.t_max = hit_record.t;
                hit_anything = true;
            }
            proof {
                let objs_i = self@.skip(i as int);
                assert(objs_i[0] == self@[i as int]);
                assert(objs_i.drop_first() =~= self@.skip(i as int + 1));
                let step = objs_i[0].hit_result(pre_ray, pre_rec, is_shadow);
                assert(step.0 == object_hit);
                if object_hit {
                    assert(step.1 == (*hit_record)@);
                    assert((*ray)@ == RayV {
                        origin: pre_ray.origin,
                        direction: pre_ray.direction,
                        t_min: pre_ray.t_min,
                        t_max: step.1.t,
                    });
                } else {
                    assert(step.1 == (*hit_record)@);
                    assert((*ray)@ == pre_ray);
                }
            }
            i = i + 1;
        }
        proof {
            assert(self@.skip(n as int) =~= Seq::<ObjectEnum>::empty());
        }
        hit_anything
    }
}

/// The intersection parameter a primitive reports for a primary ray
/// against a fresh record; for a mesh, the smallest among its members.
/// Opaque: the traversal lemmas treat it through the helper lemmas
/// below.
#[verifier::opaque]
pub open spec fn object_candidate_s(o: ObjectEnum, ray: RayV) -> Option<int> {
    match o {
        ObjectEnum::Sphere(s) => sphere_candidate_s(s, ray),
        ObjectEnum::Plane(p) => plane_candidate_s(p, ray),
        ObjectEnum::Triangle(tr) => tri_geom_candidate_s(tr, ray),
        ObjectEnum::TriangleMesh(m) => mesh_min_s(m.triangle_mesh@, ray),
    }
}

/// Whether `rec` is the record the primitive writes for a hit at
/// parameter `t`; for a mesh, the record of some member achieving it.
/// Records depend on the ray only through its origin and direction.
#[verifier::opaque]
pub open spec fn object_record_ok_s(o: ObjectEnum, ray: RayV, t: int, rec: HitRecV) -> bool {
    match o {
        ObjectEnum::Sphere(s) => rec == (HitRecV {
            hitpoint: ray_at_s(ray, t),
            normal: v_norm_s(v_sub_s(ray_at_s(ray, t), s.object_properties.position@)),
            material: Some(s.object_properties.material as int),
            t,
        }),
        ObjectEnum::Plane(p) => rec == (HitRecV {
            hitpoint: ray_at_s(ray, t),
            normal: p.normal@,
            material: Some(p.object_properties.material as int),
            t,
        }),
        ObjectEnum::Triangle(tr) => rec == tri_record_s(tr, ray, t),
        ObjectEnum::TriangleMesh(m) => mesh_record_ok_s(m.triangle_mesh@, ray, t, rec),
    }
}

proof fn lemma_object_candidate_tighten(o: ObjectEnum, ray: RayV, m: int)
    requires
        m <= ray.t_max,
    ensures
        object_candidate_s(o, with_t_max_s(ray, m)) == (match object_candidate_s(o, ray) {
            Some(t) => if t <= m {
                Some(t)
            } else {
                None::<int>
            },
            None => None::<int>,
        }),
{
    reveal(object_candidate_s);
    match o {
        ObjectEnum::Sphere(s) => lemma_sphere_candidate_tighten(s, ray, m),
        ObjectEnum::Plane(p) => lemma_plane_candidate_tighten(p, ray, m),
        ObjectEnum::Triangle(tr) => lemma_tri_geom_tighten(tr, ray, m),
        ObjectEnum::TriangleMesh(mesh) => lemma_mesh_min_tighten(mesh.triangle_mesh@, ray, m),
    }
}

/// A primitive's candidate always lies inside the ray's interval.
proof fn lemma_object_candidate_in_range(o: ObjectEnum, ray: RayV)
    requires
        object_candidate_s(o, ray) is Some,
    ensures
        object_candidate_s(o, ray)->Some_0 <= ray.t_max,
{
    reveal(object_candidate_s);
    match o {
        ObjectEnum::TriangleMesh(mesh) => {
            lemma_mesh_min_props(mesh.triangle_mesh@, ray);
        },
        _ => {},
    }
}

/// A record a primitive vouches for at a shrunken bound it also
/// vouches for at the original bound.
proof fn lemma_object_record_ok_widen(o: ObjectEnum, ray0: RayV, m: int, t: int, rec: HitRecV)
    requires
        t <= m <= ray0.t_max,
        object_record_ok_s(o, with_t_max_s(ray0, m), t, rec),
    ensures
        object_record_ok_s(o, ray0, t, rec),
{
    reveal(object_record_ok_s);
    let ray = with_t_max_s(ray0, m);
    assert(ray_at_s(ray, t) == ray_at_s(ray0, t));
    match o {
        ObjectEnum::TriangleMesh(mesh) => {
            let tris = mesh.triangle_mesh@;
            let w = choose|i: int|
                0 <= i < tris.len() && tri_geom_candidate_s(#[trigger] tris[i], ray) == Some(t)
                    && rec == tri_record_s(tris[i], ray, t);
            lemma_tri_geom_tighten(tris[w], ray0, m);
            assert(tri_geom_candidate_s(tris[w], ray0) == Some(t));
            assert(rec == tri_record_s(tris[w], ray0, t));
        },
        _ => {},
    }
}

/// One step of the traversal, phrased through the primitive's
/// candidate. This holds at every state a primary traversal can reach:
/// either nothing is recorded yet, or the record's parameter equals
/// the tightened bound.
proof fn lemma_object_step(o: ObjectEnum, ray: RayV, rec: HitRecV)
    requires
        rec.material is Some ==> rec.t == ray.t_max,
    ensures
        o.hit_result(ray, rec, false).0 == (object_candidate_s(o, ray) is Some),
        object_candidate_s(o, ray) is Some ==> ({
            let t = object_candidate_s(o, ray)->Some_0;
            let written = o.hit_result(ray, rec, false).1;
            written.t == t && written.material is Some && object_record_ok_s(o, ray, t, written)
        }),
        object_candidate_s(o, ray) is None ==> o.hit_result(ray, rec, false).1 == rec,
{
    reveal(object_candidate_s);
    reveal(object_record_ok_s);
    match o {
        ObjectEnum::Triangle(tr) => {
            if tri_geom_candidate_s(tr, ray) is Some {
                let t = tri_geom_candidate_s(tr, ray)->Some_0;
                assert(t <= ray.t_max);
                assert(triangle_candidate_s(tr, ray, rec, false) == Some(t));
            }
        },
        ObjectEnum::TriangleMesh(mesh) => {
            let tris = mesh.triangle_mesh@;
            assert(tris.skip(0) =~= tris);
            lemma_mesh_fold_nearest(tris, ray, rec, 0, rec, false);
            lemma_mesh_min_props(tris, ray);
            let out = mesh_fold_s(tris, ray, rec, false, false);
            if out.0 {
                let w = choose|i: int|
                    0 <= i < tris.len() && tri_geom_candidate_s(#[trigger] tris[i], ray) == Some(
                        out.1.t,
                    ) && out.1 == tri_record_s(tris[i], ray, out.1.t);
                assert(tri_geom_candidate_s(tris[w], ray) == Some(out.1.t));
                let minv = mesh_min_s(tris, ray)->Some_0;
                let wm = choose|i: int|
                    0 <= i < tris.len() && tri_geom_candidate_s(#[trigger] tris[i], ray) == Some(
                        minv,
                    );
                assert(tri_geom_candidate_s(tris[wm], ray) == Some(minv));
                assert(out.1.t <= minv);
                assert(minv <= out.1.t);
            }
        },
        _ => {},
    }
}

/// The generalized induction behind `lemma_scenegraph_nearest`: a
/// partially completed traversal, whose state is an already-found best
/// hit (or the untouched inputs), finishes with the globally nearest
/// candidate.
#[verifier::rlimit(100)]
#[verifier::spinoff_prover]
proof fn lemma_scene_fold_nearest(
    objs: Seq<ObjectEnum>,
    ray0: RayV,
    rec0: HitRecV,
    k: int,
    ray: RayV,
    rec: HitRecV,
    acc: bool,
)
    requires
        rec0.material is None,
        0 <= k <= objs.len(),
        ray.origin == ray0.origin,
        ray.direction == ray0.direction,
        ray.t_min == ray0.t_min,
        ray.t_max <= ray0.t_max,
        acc ==> rec.material is Some && rec.t == ray.t_max,
        acc ==> exists|i: int|
            0 <= i < k && object_candidate_s(#[trigger] objs[i], ray0) == Some(rec.t)
                && object_record_ok_s(objs[i], ray0, rec.t, rec),
        acc ==> forall|i: int|
            0 <= i < k && object_candidate_s(#[trigger] objs[i], ray0) is Some ==> rec.t
                <= object_candidate_s(objs[i], ray0)->Some_0,
        !acc ==> ray == ray0 && rec == rec0 && forall|i: int|
            0 <= i < k ==> object_candidate_s(#[trigger] objs[i], ray0) is None,
    ensures
        ({
            let out = scene_fold_s(objs.skip(k), ray, rec, false, acc);
            &&& out.0 == (acc || exists|i: int|
                k <= i < objs.len() && object_candidate_s(#[trigger] objs[i], ray0) is Some)
            &&& out.0 ==> exists|i: int|
                0 <= i < objs.len() && object_candidate_s(#[trigger] objs[i], ray0) == Some(out.2.t)
                    && object_record_ok_s(objs[i], ray0, out.2.t, out.2)
            &&& out.0 ==> forall|i: int|
                0 <= i < objs.len() && object_candidate_s(#[trigger] objs[i], ray0) is Some
                    ==> out.2.t <= object_candidate_s(objs[i], ray0)->Some_0
            &&& !out.0 ==> out.1 == ray && out.2 == rec
        }),
    decreases objs.len() - k,
{
    if k == objs.len() {
        assert(objs.skip(k) =~= Seq::<ObjectEnum>::empty());
    } else {
        let o = objs[k];
        assert(objs.skip(k)[0] == o);
        assert(objs.skip(k).drop_first() =~= objs.skip(k + 1));
        assert(ray == with_t_max_s(ray0, ray.t_max));
        lemma_object_candidate_tighten(o, ray0, ray.t_max);
        lemma_object_step(o, ray, rec);
        let step = o.hit_result(ray, rec, false);
        if step.0 {
            let t = object_candidate_s(o, ray)->Some_0;
            assert(object_candidate_s(o, ray0) == Some(t));
            lemma_object_candidate_in_range(o, ray);
            lemma_object_record_ok_widen(o, ray0, ray.t_max, t, step.1);
            let ray2 = RayV {
                origin: ray.origin,
                direction: ray.direction,
                t_min: ray.t_min,
                t_max: step.1.t,
            };
            if acc {
                assert forall|i: int|
                    0 <= i < k + 1 && object_candidate_s(#[trigger] objs[i], ray0) is Some implies
                    step.1.t <= object_candidate_s(objs[i], ray0)->Some_0 by {
                    if i < k {
                        assert(rec.t <= object_candidate_s(objs[i], ray0)->Some_0);
                    }
                }
            }
            lemma_scene_fold_nearest(objs, ray0, rec0, k + 1, ray2, step.1, true);
            lemma_scene_fold_acc_true(objs.skip(k + 1), ray2, step.1, false);
        } else {
            if acc {
                if object_candidate_s(o, ray0) is Some {
                    let t0 = object_candidate_s(o, ray0)->Some_0;
                    assert(t0 > ray.t_max);
                }
            }
            lemma_scene_fold_nearest(objs, ray0, rec0, k + 1, ray, rec, acc);
        }
    }
}

/// The nearest-hit law: starting from a fresh record, a primary
/// traversal reports a hit exactly when some primitive — sphere,
/// plane, triangle or mesh member — has a candidate parameter for the
/// ray; the record it leaves is that of a primitive achieving the
/// globally smallest candidate; and on a miss both the ray and the
/// record are untouched. Order of the primitives does not matter for
/// the reported parameter.
pub proof fn lemma_scenegraph_nearest(objs: Seq<ObjectEnum>, ray: RayV, rec: HitRecV)
    requires
        rec.material is None,
    ensures
        ({
            let out = scene_fold_s(objs, ray, rec, false, false);
            &&& out.0 == exists|i: int|
                0 <= i < objs.len() && object_candidate_s(#[trigger] objs[i], ray) is Some
            &&& out.0 ==> exists|i: int|
                0 <= i < objs.len() && object_candidate_s(#[trigger] objs[i], ray) == Some(out.2.t)
                    && object_record_ok_s(objs[i], ray, out.2.t, out.2)
            &&& out.0 ==> forall|i: int|
                0 <= i < objs.len() && object_candidate_s(#[trigger] objs[i], ray) is Some
                    ==> out.2.t <= object_candidate_s(objs[i], ray)->Some_0
            &&& !out.0 ==> out.1 == ray && out.2 == rec
        }),
{
    assert(objs.skip(0) =~= objs);
    lemma_scene_fold_nearest(objs, ray, rec, 0, ray, rec, false);
}

/// The arithmetic core of the self-shadowing argument: offsetting the
/// ray origin from a point `h` on a surface's plane (through `anchor`,
/// with normal `n`) by `epsilon * n` makes the plane-solution
/// numerator `dot(anchor - origin, n)` nonpositive, so the solved
/// parameter cannot reach the positive lower ray bound.
proof fn lemma_offset_numerator_nonpositive(anchor: V3, h: V3, n: V3)
    requires
        v_dot_s(v_sub_s(anchor, h), n) == 0,
        v_bounded_s(n, FX_ONE as int),
        v_bounded_s(h, FX_LIMIT as int / 2 - 8),
        v_bounded_s(anchor, FX_LIMIT as int / 2 - 8),
    ensures
        v_dot_s(v_sub_s(anchor, v_add_s(h, v_scale_s(n, FX_SURFACE_EPS as int))), n) <= 0,
{
    let eps = FX_SURFACE_EPS as int;
    let w = v_scale_s(n, eps);
    lemma_fx_mul_eps_bound(n.x, eps);
    lemma_fx_mul_eps_bound(n.y, eps);
    lemma_fx_mul_eps_bound(n.z, eps);
    let o = v_add_s(h, w);
    assert(o.x == h.x + w.x);
    assert(o.y == h.y + w.y);
    assert(o.z == h.z + w.z);
    let u = v_sub_s(anchor, h);
    let q = v_sub_s(anchor, o);
    assert(q.x == u.x - w.x);
    assert(q.y == u.y - w.y);
    assert(q.z == u.z - w.z);
    if n.x >= 0 {
        lemma_fx_mul_mono(q.x, u.x, n.x);
    } else {
        lemma_fx_mul_antimono(u.x, q.x, n.x);
    }
    if n.y >= 0 {
        lemma_fx_mul_mono(q.y, u.y, n.y);
    } else {
        lemma_fx_mul_antimono(u.y, q.y, n.y);
    }
    if n.z >= 0 {
        lemma_fx_mul_mono(q.z, u.z, n.z);
    } else {
        lemma_fx_mul_antimono(u.z, q.z, n.z);
    }
    assert(v_dot_s(q, n) <= v_dot_s(u, n));
}

/// A nonpositive numerator over a positive denominator never reaches
/// the positive lower ray bound.
proof fn lemma_nonpositive_quotient(num: int, den: int)
    requires
        num <= 0,
        den > 0,
    ensures
        fx_div_s(num, den) <= 0,
{
    assert(num * FX_ONE as int <= 0) by (nonlinear_arith)
        requires
            num <= 0,
    ;
    if num * (FX_ONE as int) < 0 {
        vstd::arithmetic::div_mod::lemma_div_pos_is_pos(
            crate::fixed::abs_int(num * FX_ONE as int),
            den,
        );
    }
}

/// Shadow rays never self-intersect the originating surface: a shadow
/// ray whose origin is the hit point offset along the plane's normal
/// by the configured epsilon, cast against a scene containing only the
/// originating plane, reports no hit and leaves the record untouched —
/// whenever the shadow direction does not point back through the
/// surface (`dot(direction, normal) >= 0`). The hit point must lie on
/// the plane, the stored normal must be component-wise at most one in
/// magnitude (normalized vectors are), and the coordinates must sit
/// comfortably inside the representable range.
#[verifier::rlimit(100)]
pub proof fn lemma_plane_shadow_no_self_intersection(
    p: Plane,
    h: V3,
    dir: V3,
    t_max: int,
    rec: HitRecV,
)
    requires
        v_dot_s(v_sub_s(p.object_properties.position@, h), p.normal@) == 0,
        v_dot_s(dir, p.normal@) >= 0,
        v_bounded_s(p.normal@, FX_ONE as int),
        v_bounded_s(h, FX_LIMIT as int / 2 - 8),
        v_bounded_s(p.object_properties.position@, FX_LIMIT as int / 2 - 8),
    ensures
        ({
            let sray = RayV {
                origin: v_add_s(h, v_scale_s(p.normal@, FX_SURFACE_EPS as int)),
                direction: dir,
                t_min: FX_SURFACE_EPS as int,
                t_max,
            };
            scene_fold_s(seq![ObjectEnum::Plane(p)], sray, rec, true, false) == (false, sray, rec)
        }),
{
    let n = p.normal@;
    let pos = p.object_properties.position@;
    let eps = FX_SURFACE_EPS as int;
    let o = v_add_s(h, v_scale_s(n, eps));
    lemma_offset_numerator_nonpositive(pos, h, n);
    let num = v_dot_s(v_sub_s(pos, o), n);
    let sray = RayV { origin: o, direction: dir, t_min: eps, t_max };
    let ddn = v_dot_s(dir, n);
    if ddn != 0 {
        lemma_nonpositive_quotient(num, ddn);
        assert(plane_candidate_s(p, sray) is None);
    }
    assert(plane_hit_s(p, sray, rec) == (false, rec));
    let objs = seq![ObjectEnum::Plane(p)];
    assert(objs[0] == ObjectEnum::Plane(p));
    assert(objs.drop_first() =~= Seq::<ObjectEnum>::empty());
    let step = ObjectEnum::Plane(p).hit_result(sray, rec, true);
    assert(step == plane_hit_s(p, sray, rec));
    assert(scene_fold_s(objs.drop_first(), sray, rec, true, false) == (false, sray, rec));
    assert(scene_fold_s(objs, sray, rec, true, false) == (false, sray, rec));
}

/// The same self-shadowing guarantee for a triangle: the shadow ray
/// offset along the triangle's normal from a hit point on its plane
/// (through vertex 0, in world space) reports no hit against a scene
/// containing only that triangle, whenever the shadow direction does
/// not point back through the surface.
#[verifier::rlimit(100)]
pub proof fn lemma_triangle_shadow_no_self_intersection(
    tr: crate::objects::Triangle,
    h: V3,
    dir: V3,
    t_max: int,
    rec: HitRecV,
)
    requires
        v_dot_s(
            v_sub_s(v_add_s(tr.vertices@[0]@, tr.object_properties.position@), h),
            tr.normal@,
        ) == 0,
        v_dot_s(dir, tr.normal@) >= 0,
        v_bounded_s(tr.normal@, FX_ONE as int),
        v_bounded_s(h, FX_LIMIT as int / 2 - 8),
        v_bounded_s(
            v_add_s(tr.vertices@[0]@, tr.object_properties.position@),
            FX_LIMIT as int / 2 - 8,
        ),
    ensures
        ({
            let sray = RayV {
                origin: v_add_s(h, v_scale_s(tr.normal@, FX_SURFACE_EPS as int)),
                direction: dir,
                t_min: FX_SURFACE_EPS as int,
                t_max,
            };
            scene_fold_s(seq![ObjectEnum::Triangle(tr)], sray, rec, true, false) == (
                false,
                sray,
                rec,
            )
        }),
{
    let n = tr.normal@;
    let anchor = v_add_s(tr.vertices@[0]@, tr.object_properties.position@);
    let eps = FX_SURFACE_EPS as int;
    let o = v_add_s(h, v_scale_s(n, eps));
    lemma_offset_numerator_nonpositive(anchor, h, n);
    let num = v_dot_s(v_sub_s(anchor, o), n);
    let sray = RayV { origin: o, direction: dir, t_min: eps, t_max };
    let ddn = v_dot_s(dir, n);
    if ddn != 0 {
        lemma_nonpositive_quotient(num, ddn);
    }
    assert(tri_geom_candidate_s(tr, sray) is None);
    assert(crate::objects::triangle_hit_s(tr, sray, rec, true) == (false, rec));
    let objs = seq![ObjectEnum::Triangle(tr)];
    assert(objs[0] == ObjectEnum::Triangle(tr));
    assert(objs.drop_first() =~= Seq::<ObjectEnum>::empty());
    let step = ObjectEnum::Triangle(tr).hit_result(sray, rec, true);
    assert(step == crate::objects::triangle_hit_s(tr, sray, rec, true));
    assert(scene_fold_s(objs.drop_first(), sray, rec, true, false) == (false, sray, rec));
    assert(scene_fold_s(objs, sray, rec, true, false) == (false, sray, rec));
}

/// A traversal that already found a hit reports one.
pub proof fn lemma_scene_fold_acc_true(objs: Seq<ObjectEnum>, ray: RayV, rec: HitRecV, is_shadow: bool)
    ensures
        scene_fold_s(objs, ray, rec, is_shadow, true).0,
    decreases objs.len(),
{
    if objs.len() > 0 {
        let step = objs[0].hit_result(ray, rec, is_shadow);
        if step.0 {
            let tightened = RayV {
                origin: ray.origin,
                direction: ray.direction,
                t_min: ray.t_min,
                t_max: step.1.t,
            };
            lemma_scene_fold_acc_true(objs.drop_first(), tightened, step.1, is_shadow);
        } else {
            lemma_scene_fold_acc_true(objs.drop_first(), ray, step.1, is_shadow);
        }
    }
}

/// A traversal that reports no hit leaves both the ray and the hit
/// record untouched.
pub proof fn lemma_scene_fold_false_untouched(
    objs: Seq<ObjectEnum>,
    ray: RayV,
    rec: HitRecV,
    is_shadow: bool,
)
    requires
        !scene_fold_s(objs, ray, rec, is_shadow, false).0,
    ensures
        scene_fold_s(objs, ray, rec, is_shadow, false).1 == ray,
        scene_fold_s(objs, ray, rec, is_shadow, false).2 == rec,
    decreases objs.len(),
{
    if objs.len() > 0 {
        let step = objs[0].hit_result(ray, rec, is_shadow);
        if step.0 {
            let tightened = RayV {
                origin: ray.origin,
                direction: ray.direction,
                t_min: ray.t_min,
                t_max: step.1.t,
            };
            lemma_scene_fold_acc_true(objs.drop_first(), tightened, step.1, is_shadow);
        } else {
            crate::objects::lemma_object_miss_untouched(objs[0], ray, rec, is_shadow);
            lemma_scene_fold_false_untouched(objs.drop_first(), ray, rec, is_shadow);
        }
    }
}

} // verus!
