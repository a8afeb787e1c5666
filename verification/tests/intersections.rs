//! Intersection behavior of the primitives and the scene traversal.

use raytracer::fixed::FX_ONE;
use raytracer::fixed::FX_SURFACE_EPS;
use raytracer::fixed::FX_T_MAX;
use raytracer::hitrecord::HitRecord;
use raytracer::objects::CullMode;
use raytracer::objects::Object;
use raytracer::objects::ObjectEnum;
use raytracer::objects::ObjectProperties;
use raytracer::objects::Plane;
use raytracer::objects::Sphere;
use raytracer::objects::Triangle;
use raytracer::objects::TriangleMesh;
use raytracer::ray::Ray;
use raytracer::scenegraph::Scenegraph;
use raytracer::vec3::Vec3;

fn fx(v: i64) -> i64 {
    v * FX_ONE
}

#[test]
fn sphere_head_on_hit_distance_minus_radius() {
    // A ray aimed straight at the center from 10 units away, radius 2:
    // the hit parameter is exactly 8 in fixed point.
    let sphere = Sphere::new(ObjectProperties::new(Vec3::new(fx(10), 0, 0), 0), fx(2));
    let ray = Ray::new(Vec3::new(0, 0, 0), Vec3::new(FX_ONE, 0, 0));
    let mut record = HitRecord::default();
    assert!(sphere.hit(&ray, &mut record, false));
    assert_eq!(record.t, fx(8));
    assert_eq!(record.hitpoint, Vec3::new(fx(8), 0, 0));
    assert_eq!(record.normal, Vec3::new(-FX_ONE, 0, 0));
    assert_eq!(record.material, Some(0));
}

#[test]
fn sphere_tangent_ray_misses() {
    // The closest approach equals the radius exactly: tangency is
    // excluded and the record stays untouched.
    let sphere = Sphere::new(ObjectProperties::new(Vec3::new(fx(10), 0, 0), 0), fx(2));
    let ray = Ray::new(Vec3::new(0, fx(2), 0), Vec3::new(FX_ONE, 0, 0));
    let mut record = HitRecord::default();
    assert!(!sphere.hit(&ray, &mut record, false));
    assert_eq!(record, HitRecord::default());
}

#[test]
fn sphere_behind_origin_misses() {
    let sphere = Sphere::new(ObjectProperties::new(Vec3::new(-fx(10), 0, 0), 0), fx(2));
    let ray = Ray::new(Vec3::new(0, 0, 0), Vec3::new(FX_ONE, 0, 0));
    let mut record = HitRecord::default();
    assert!(!sphere.hit(&ray, &mut record, false));
}

#[test]
fn plane_parallel_ray_never_hits() {
    // dot(direction, normal) == 0: no hit, for any origin.
    let plane = Plane::new(ObjectProperties::new(Vec3::new(0, 0, 0), 0), Vec3::new(0, FX_ONE, 0));
    for origin_y in [-fx(3), 0, fx(5)] {
        let ray = Ray::new(Vec3::new(0, origin_y, 0), Vec3::new(FX_ONE, 0, 0));
        let mut record = HitRecord::default();
        assert!(!plane.hit(&ray, &mut record, false));
        assert_eq!(record, HitRecord::default());
    }
}

#[test]
fn plane_head_on_hit() {
    let plane = Plane::new(ObjectProperties::new(Vec3::new(0, 0, 0), 0), Vec3::new(0, FX_ONE, 0));
    let ray = Ray::new(Vec3::new(0, fx(10), 0), Vec3::new(0, -FX_ONE, 0));
    let mut record = HitRecord::default();
    assert!(plane.hit(&ray, &mut record, false));
    assert_eq!(record.t, fx(10));
    assert_eq!(record.hitpoint, Vec3::new(0, 0, 0));
    assert_eq!(record.normal, Vec3::new(0, FX_ONE, 0));
}

fn unit_triangle(cull_mode: CullMode) -> Triangle {
    // A triangle in the z = 10 plane whose derived normal points
    // toward negative z.
    Triangle::new(
        ObjectProperties::new(Vec3::new(0, 0, 0), 0),
        [
            Vec3::new(-fx(1), -fx(1), fx(10)),
            Vec3::new(fx(1), -fx(1), fx(10)),
            Vec3::new(0, fx(1), fx(10)),
        ],
        cull_mode,
    )
}

#[test]
fn triangle_backface_culled_despite_containment() {
    // Approaching from the back side (dot(direction, normal) > 0):
    // never a hit under BackFace culling, though the ray passes
    // through the interior.
    let triangle = unit_triangle(CullMode::BackFace);
    assert_eq!(triangle.normal, Vec3::new(0, 0, -FX_ONE));
    let ray = Ray::new(Vec3::new(0, 0, fx(20)), Vec3::new(0, 0, -FX_ONE));
    let mut record = HitRecord::default();
    assert!(!triangle.hit(&ray, &mut record, true));
    assert_eq!(record, HitRecord::default());
}

#[test]
fn triangle_hit_when_culling_disabled() {
    // A primary ray against a fresh record: the triangle squarely
    // ahead is hit.
    let triangle = unit_triangle(CullMode::Disabled);
    let ray = Ray::new(Vec3::new(0, 0, fx(20)), Vec3::new(0, 0, -FX_ONE));
    let mut record = HitRecord::default();
    assert!(triangle.hit(&ray, &mut record, false));
    assert_eq!(record.t, fx(10));
    assert_eq!(record.normal, Vec3::new(0, 0, -FX_ONE));
    assert_eq!(record.material, Some(0));
}

#[test]
fn triangle_primary_query_defers_only_to_existing_hits() {
    // On a primary query a triangle defers to an existing hit - a
    // record that already holds a material - that is strictly closer;
    // a fresh record constrains nothing.
    let triangle = unit_triangle(CullMode::Disabled);
    let ray = Ray::new(Vec3::new(0, 0, fx(20)), Vec3::new(0, 0, -FX_ONE));
    let mut fresh = HitRecord::default();
    assert!(triangle.hit(&ray, &mut fresh, false));
    assert_eq!(fresh.t, fx(10));
    // An existing closer hit wins over the triangle.
    let mut closer = HitRecord::new(Vec3::new(0, 0, fx(15)), Vec3::new(0, 0, FX_ONE), 7, fx(5));
    assert!(!triangle.hit(&ray, &mut closer, false));
    assert_eq!(closer.t, fx(5));
    // An existing farther hit is replaced.
    let mut farther = HitRecord::new(Vec3::new(0, 0, 0), Vec3::new(0, 0, FX_ONE), 7, fx(20));
    assert!(triangle.hit(&ray, &mut farther, false));
    assert_eq!(farther.t, fx(10));
    // A shadow query accepts any qualifying parameter.
    let mut shadow = HitRecord::new(Vec3::new(0, 0, fx(15)), Vec3::new(0, 0, FX_ONE), 7, fx(5));
    assert!(triangle.hit(&ray, &mut shadow, true));
    assert_eq!(shadow.t, fx(10));
}

#[test]
fn scenegraph_reports_triangle_before_plane() {
    // The central nearest-hit case: a triangle at t = 10 in front of
    // a plane at t = 15 wins, in either insertion order.
    let tri = || ObjectEnum::Triangle(unit_triangle(CullMode::Disabled));
    let back_plane = || {
        ObjectEnum::Plane(Plane::new(
            ObjectProperties::new(Vec3::new(0, 0, fx(5)), 1),
            Vec3::new(0, 0, FX_ONE),
        ))
    };
    for tri_first in [true, false] {
        let mut scene = Scenegraph::new();
        if tri_first {
            scene.add_object(tri());
            scene.add_object(back_plane());
        } else {
            scene.add_object(back_plane());
            scene.add_object(tri());
        }
        let mut ray = Ray::new(Vec3::new(0, 0, fx(20)), Vec3::new(0, 0, -FX_ONE));
        let mut record = HitRecord::default();
        assert!(scene.hit(&mut ray, &mut record, false));
        assert_eq!(record.t, fx(10));
        assert_eq!(record.material, Some(0));
        assert_eq!(ray.t_max, fx(10));
    }
}

#[test]
fn scenegraph_remove_and_update_keep_order() {
    let mut scene = Scenegraph::new();
    scene.add_object(ObjectEnum::Sphere(Sphere::new(
        ObjectProperties::new(Vec3::new(fx(10), 0, 0), 0),
        fx(2),
    )));
    scene.add_object(ObjectEnum::Sphere(Sphere::new(
        ObjectProperties::new(Vec3::new(fx(30), 0, 0), 1),
        fx(2),
    )));
    scene.update(fx(1) / 60);
    assert_eq!(scene.get_objects().len(), 2);
    scene.remove_object(0);
    assert_eq!(scene.get_objects().len(), 1);
    let mut ray = Ray::new(Vec3::new(0, 0, 0), Vec3::new(FX_ONE, 0, 0));
    let mut record = HitRecord::default();
    assert!(scene.hit(&mut ray, &mut record, false));
    assert_eq!(record.material, Some(1));
}

#[test]
fn triangle_front_hit_respects_frontface_culling() {
    let triangle = unit_triangle(CullMode::FrontFace);
    // From the front side (dot < 0) the FrontFace mode culls.
    let ray = Ray::new(Vec3::new(0, 0, 0), Vec3::new(0, 0, FX_ONE));
    let mut record = HitRecord::default();
    assert!(!triangle.hit(&ray, &mut record, true));
}

#[test]
fn triangle_miss_outside_containment() {
    let triangle = unit_triangle(CullMode::Disabled);
    let ray = Ray::new(Vec3::new(fx(5), fx(5), fx(20)), Vec3::new(0, 0, -FX_ONE));
    let mut record = HitRecord::default();
    assert!(!triangle.hit(&ray, &mut record, true));
}

#[test]
fn mesh_builds_triangles_from_index_triples() {
    let vertices = vec![
        Vec3::new(-fx(1), -fx(1), fx(10)),
        Vec3::new(fx(1), -fx(1), fx(10)),
        Vec3::new(0, fx(1), fx(10)),
        Vec3::new(fx(2), fx(1), fx(10)),
    ];
    let indices: Vec<u32> = vec![0, 1, 2, 1, 3, 2];
    let mesh = TriangleMesh::new(
        ObjectProperties::new(Vec3::new(0, 0, 0), 0),
        vertices,
        indices,
        CullMode::Disabled,
    );
    assert_eq!(mesh.triangle_mesh.len(), 2);
    let ray = Ray::new(Vec3::new(0, 0, fx(20)), Vec3::new(0, 0, -FX_ONE));
    let mut record = HitRecord::default();
    assert!(mesh.hit(&ray, &mut record, false));
    assert_eq!(record.t, fx(10));
}

#[test]
fn scenegraph_reports_globally_nearest_sphere() {
    // Two spheres on the same ray: the nearer one wins, in either
    // insertion order.
    let near = |material: usize| {
        ObjectEnum::Sphere(Sphere::new(
            ObjectProperties::new(Vec3::new(fx(10), 0, 0), material),
            fx(2),
        ))
    };
    let far = |material: usize| {
        ObjectEnum::Sphere(Sphere::new(
            ObjectProperties::new(Vec3::new(fx(30), 0, 0), material),
            fx(2),
        ))
    };
    for near_first in [true, false] {
        let mut scene = Scenegraph::new();
        if near_first {
            scene.add_object(near(0));
            scene.add_object(far(1));
        } else {
            scene.add_object(far(1));
            scene.add_object(near(0));
        }
        let mut ray = Ray::new(Vec3::new(0, 0, 0), Vec3::new(FX_ONE, 0, 0));
        let mut record = HitRecord::default();
        assert!(scene.hit(&mut ray, &mut record, false));
        assert_eq!(record.t, fx(8));
        assert_eq!(record.material, Some(0));
        assert_eq!(ray.t_max, fx(8));
    }
}

#[test]
fn scenegraph_miss_leaves_record_untouched() {
    let mut scene = Scenegraph::new();
    scene.add_object(ObjectEnum::Sphere(Sphere::new(
        ObjectProperties::new(Vec3::new(0, fx(50), 0), 0),
        fx(2),
    )));
    let mut ray = Ray::new(Vec3::new(0, 0, 0), Vec3::new(FX_ONE, 0, 0));
    let mut record = HitRecord::default();
    assert!(!scene.hit(&mut ray, &mut record, false));
    assert_eq!(record, HitRecord::default());
}

#[test]
fn empty_scene_never_hits() {
    let scene = Scenegraph::new();
    let mut ray = Ray::new(Vec3::new(0, 0, 0), Vec3::new(FX_ONE, 0, 0));
    let mut record = HitRecord::default();
    assert!(!scene.hit(&mut ray, &mut record, false));
}

#[test]
fn shadow_ray_does_not_self_intersect_plane() {
    // The origin offset along the normal by the configured epsilon:
    // a shadow query against the originating plane alone stays clear.
    let plane = Plane::new(ObjectProperties::new(Vec3::new(0, 0, 0), 0), Vec3::new(0, FX_ONE, 0));
    let mut scene = Scenegraph::new();
    scene.add_object(ObjectEnum::Plane(plane));
    let hitpoint = Vec3::new(fx(3), 0, fx(5));
    let origin = hitpoint.add(&Vec3::new(0, FX_ONE, 0).scale(FX_SURFACE_EPS));
    let mut shadow_ray = Ray::new_with_limits(
        origin,
        Vec3::new(0, FX_ONE, 0),
        FX_SURFACE_EPS,
        fx(100),
    );
    let mut record = HitRecord::default();
    assert!(!scene.hit(&mut shadow_ray, &mut record, true));
}

#[test]
fn shadow_ray_does_not_self_intersect_sphere() {
    let sphere = Sphere::new(ObjectProperties::new(Vec3::new(0, 0, 0), 0), fx(2));
    let mut scene = Scenegraph::new();
    scene.add_object(ObjectEnum::Sphere(sphere));
    let normal = Vec3::new(FX_ONE, 0, 0);
    let origin = Vec3::new(fx(2), 0, 0).add(&normal.scale(FX_SURFACE_EPS));
    for direction in [Vec3::new(FX_ONE, 0, 0), Vec3::new(0, FX_ONE, 0)] {
        let mut shadow_ray = Ray::new_with_limits(origin, direction, FX_SURFACE_EPS, FX_T_MAX);
        let mut record = HitRecord::default();
        assert!(!scene.hit(&mut shadow_ray, &mut record, true));
    }
}

#[test]
fn shadow_ray_does_not_self_intersect_triangle() {
    // The triangle's plane is z = 10 with normal toward negative z;
    // the shadow origin is offset along that normal.
    let triangle = unit_triangle(CullMode::Disabled);
    let mut scene = Scenegraph::new();
    scene.add_object(ObjectEnum::Triangle(triangle));
    let hitpoint = Vec3::new(0, 0, fx(10));
    let origin = hitpoint.add(&Vec3::new(0, 0, -FX_ONE).scale(FX_SURFACE_EPS));
    let mut shadow_ray = Ray::new_with_limits(
        origin,
        Vec3::new(0, 0, -FX_ONE),
        FX_SURFACE_EPS,
        fx(100),
    );
    let mut record = HitRecord::default();
    assert!(!scene.hit(&mut shadow_ray, &mut record, true));
}

#[test]
fn shadow_query_keeps_caller_bounds() {
    // A shadow query must not reset t_max: an occluder beyond the
    // light's distance does not block it.
    let blocker = ObjectEnum::Plane(Plane::new(
        ObjectProperties::new(Vec3::new(0, fx(50), 0), 0),
        Vec3::new(0, FX_ONE, 0),
    ));
    let mut scene = Scenegraph::new();
    scene.add_object(blocker);
    let mut shadow_ray = Ray::new_with_limits(
        Vec3::new(0, 0, 0),
        Vec3::new(0, FX_ONE, 0),
        FX_SURFACE_EPS,
        fx(10),
    );
    let mut record = HitRecord::default();
    assert!(!scene.hit(&mut shadow_ray, &mut record, true));
    // A primary query over the same geometry does hit.
    let mut primary = Ray::new_with_limits(
        Vec3::new(0, 0, 0),
        Vec3::new(0, FX_ONE, 0),
        FX_SURFACE_EPS,
        fx(10),
    );
    let mut record2 = HitRecord::default();
    assert!(scene.hit(&mut primary, &mut record2, false));
    assert_eq!(record2.t, fx(50));
}
