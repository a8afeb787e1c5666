//! End-to-end behavior of the bounce loop, the render modes, and the
//! full-frame render.

use raytracer::fixed::FX_ONE;
use raytracer::fixed::FX_PI;
use raytracer::fixed::fx_div;
use raytracer::fixed::fx_mul;
use raytracer::lights::LightEnum;
use raytracer::lights::LightProperties;
use raytracer::lights::LightType;
use raytracer::lights::PointLight;
use raytracer::materials::LambertianMaterial;
use raytracer::materials::MaterialEnum;
use raytracer::objects::ObjectEnum;
use raytracer::objects::ObjectProperties;
use raytracer::objects::Plane;
use raytracer::objects::Sphere;
use raytracer::ray::Ray;
use raytracer::renderer::Renderer;
use raytracer::scenegraph::Scenegraph;
use raytracer::vec3::Vec3;

fn fx(v: i64) -> i64 {
    v * FX_ONE
}

fn white() -> Vec3 {
    Vec3::new(FX_ONE, FX_ONE, FX_ONE)
}

/// A white Lambertian plane at y = 0 lit by one point light overhead.
fn plane_scene() -> (Scenegraph, Vec<MaterialEnum>, Vec<LightEnum>) {
    let materials = vec![MaterialEnum::Lambert(LambertianMaterial::new(white(), FX_ONE, 0))];
    let mut scene = Scenegraph::new();
    scene.add_object(ObjectEnum::Plane(Plane::new(
        ObjectProperties::new(Vec3::new(0, 0, 0), 0),
        Vec3::new(0, FX_ONE, 0),
    )));
    let lights = vec![LightEnum::Point(PointLight::new(
        LightProperties::new(white(), fx(25), true, LightType::Point),
        Vec3::new(0, fx(5), 0),
    ))];
    (scene, materials, lights)
}

fn brightness(c: Vec3) -> i64 {
    c.x + c.y + c.z
}

#[test]
fn lit_plane_exact_color_below_light() {
    // Directly below the light: cosine is one and the inverse-square
    // falloff cancels the intensity, so the pixel radiance is exactly
    // the Lambertian albedo over pi.
    let (scene, materials, lights) = plane_scene();
    let ray = Ray::new(Vec3::new(0, fx(10), 0), Vec3::new(0, -FX_ONE, 0));
    let color = Renderer::calculate_color(false, 0, 2, &scene, &lights, &materials, 0, ray, 0);
    let expected = fx_div(FX_ONE, FX_PI);
    assert_eq!(color, Vec3::new(expected, expected, expected));
}

#[test]
fn lit_plane_brighter_below_light_than_grazing() {
    let (scene, materials, lights) = plane_scene();
    let below = Ray::new(Vec3::new(0, fx(10), 0), Vec3::new(0, -FX_ONE, 0));
    let at_light = Renderer::calculate_color(false, 0, 2, &scene, &lights, &materials, 0, below, 0);
    // A ray hitting the plane far from the light: smaller cosine and
    // stronger falloff.
    let grazing_target = Vec3::new(fx(20), 0, 0);
    let origin = Vec3::new(fx(20), fx(10), fx(10));
    let direction = grazing_target.sub(&origin).normalize();
    let grazing = Ray::new(origin, direction);
    let far_from_light = Renderer::calculate_color(
        false, 0, 2, &scene, &lights, &materials, 0, grazing, 0,
    );
    assert!(brightness(at_light) > brightness(far_from_light));
    assert!(brightness(far_from_light) > 0);
}

#[test]
fn shadowed_point_gets_no_contribution() {
    // A second plane between the light and the surface blocks it.
    let (mut scene, materials, lights) = plane_scene();
    scene.add_object(ObjectEnum::Plane(Plane::new(
        ObjectProperties::new(Vec3::new(0, fx(2), 0), 0),
        Vec3::new(0, FX_ONE, 0),
    )));
    // From below the occluder, aimed at the bottom plane.
    let ray = Ray::new(Vec3::new(0, fx(1), 0), Vec3::new(0, -FX_ONE, 0));
    let with_shadows = Renderer::calculate_color(true, 0, 2, &scene, &lights, &materials, 0, ray, 0);
    assert_eq!(with_shadows, Vec3::new(0, 0, 0));
    let without_shadows = Renderer::calculate_color(
        false, 0, 2, &scene, &lights, &materials, 0, ray, 0,
    );
    assert!(brightness(without_shadows) > 0);
}

#[test]
fn bounce_budget_is_a_hard_bound() {
    // At the budget the loop is black immediately, whatever the scene.
    let (scene, materials, lights) = plane_scene();
    let ray = Ray::new(Vec3::new(0, fx(10), 0), Vec3::new(0, -FX_ONE, 0));
    for depth in [2, 3, 100] {
        let color = Renderer::calculate_color(
            false, 0, 2, &scene, &lights, &materials, depth, ray, FX_ONE,
        );
        assert_eq!(color, Vec3::new(0, 0, 0));
    }
}

#[test]
fn mirror_facing_scenes_terminate() {
    // Two parallel fully reflective planes facing each other: the
    // bounce bound alone terminates the recursion.
    let materials = vec![MaterialEnum::Lambert(LambertianMaterial::new(
        Vec3::new(0, 0, 0),
        FX_ONE,
        FX_ONE,
    ))];
    let mut scene = Scenegraph::new();
    scene.add_object(ObjectEnum::Plane(Plane::new(
        ObjectProperties::new(Vec3::new(0, 0, 0), 0),
        Vec3::new(0, FX_ONE, 0),
    )));
    scene.add_object(ObjectEnum::Plane(Plane::new(
        ObjectProperties::new(Vec3::new(0, fx(10), 0), 0),
        Vec3::new(0, -FX_ONE, 0),
    )));
    let lights: Vec<LightEnum> = Vec::new();
    let ray = Ray::new(Vec3::new(0, fx(5), 0), Vec3::new(0, -FX_ONE, 0));
    let color = Renderer::calculate_color(true, 0, 6, &scene, &lights, &materials, 0, ray, 0);
    assert_eq!(color, Vec3::new(0, 0, 0));
}

#[test]
fn mirror_sphere_reflects_direct_lighting_of_target() {
    // A fully reflective, zero-diffuse sphere reflecting a lit plane
    // straight back: the result is exactly the direct lighting of the
    // reflection target, attenuated by the bounce cosine (one here),
    // with no direct contribution from the mirror itself.
    let materials = vec![
        MaterialEnum::Lambert(LambertianMaterial::new(Vec3::new(0, 0, 0), FX_ONE, FX_ONE)),
        MaterialEnum::Lambert(LambertianMaterial::new(white(), FX_ONE, 0)),
    ];
    let mut scene = Scenegraph::new();
    // The mirror sphere, hit head on from the left.
    scene.add_object(ObjectEnum::Sphere(Sphere::new(
        ObjectProperties::new(Vec3::new(fx(10), 0, 0), 0),
        fx(2),
    )));
    // The diffuse target plane behind the camera, facing the sphere.
    scene.add_object(ObjectEnum::Plane(Plane::new(
        ObjectProperties::new(Vec3::new(-fx(5), 0, 0), 1),
        Vec3::new(FX_ONE, 0, 0),
    )));
    let lights = vec![LightEnum::Point(PointLight::new(
        LightProperties::new(white(), fx(25), true, LightType::Point),
        Vec3::new(-fx(2), 0, 0),
    ))];
    let primary = Ray::new(Vec3::new(0, 0, 0), Vec3::new(FX_ONE, 0, 0));
    let total = Renderer::calculate_color(false, 0, 2, &scene, &lights, &materials, 0, primary, 0);
    // With a single bounce allowed, the mirror alone is black.
    let only_mirror = Renderer::calculate_color(
        false, 0, 1, &scene, &lights, &materials, 0, primary, 0,
    );
    assert_eq!(only_mirror, Vec3::new(0, 0, 0));
    // The reflected ray continues from the sphere surface back along
    // the axis; its own direct lighting is the expected value, since
    // the bounce cosine and the first-hit reflectiveness are both one.
    let reflected = Ray::new_with_limits(
        Vec3::new(fx(8), 0, 0),
        Vec3::new(-FX_ONE, 0, 0),
        primary.t_min,
        fx(8),
    );
    let target_direct = Renderer::calculate_color(
        false, 0, 2, &scene, &lights, &materials, 1, reflected, FX_ONE,
    );
    assert_eq!(total, target_direct);
    assert!(total.x > 0);
}

#[test]
fn disabling_a_light_removes_exactly_its_contribution() {
    // Two lights; disabling one leaves exactly the other's color.
    let (scene, materials, _) = plane_scene();
    let key = LightEnum::Point(PointLight::new(
        LightProperties::new(white(), fx(25), true, LightType::Point),
        Vec3::new(0, fx(5), 0),
    ));
    let fill = LightEnum::Point(PointLight::new(
        LightProperties::new(Vec3::new(FX_ONE, 0, 0), fx(9), true, LightType::Point),
        Vec3::new(fx(3), fx(3), 0),
    ));
    let key_disabled = LightEnum::Point(PointLight::new(
        LightProperties::new(white(), fx(25), false, LightType::Point),
        Vec3::new(0, fx(5), 0),
    ));
    let ray = Ray::new(Vec3::new(0, fx(10), 0), Vec3::new(0, -FX_ONE, 0));
    let both = vec![key, fill];
    let disabled = vec![key_disabled, fill];
    let fill_only = vec![fill];
    let c_both = Renderer::calculate_color(false, 0, 2, &scene, &both, &materials, 0, ray, 0);
    let c_disabled = Renderer::calculate_color(
        false, 0, 2, &scene, &disabled, &materials, 0, ray, 0,
    );
    let c_fill = Renderer::calculate_color(false, 0, 2, &scene, &fill_only, &materials, 0, ray, 0);
    assert_eq!(c_disabled, c_fill);
    assert!(brightness(c_both) > brightness(c_fill));
}

#[test]
fn render_mode_splits_radiance_and_brdf() {
    let (scene, materials, lights) = plane_scene();
    let ray = Ray::new(Vec3::new(0, fx(10), 0), Vec3::new(0, -FX_ONE, 0));
    let full = Renderer::calculate_color(false, 0, 2, &scene, &lights, &materials, 0, ray, 0);
    let radiance = Renderer::calculate_color(false, 1, 2, &scene, &lights, &materials, 0, ray, 0);
    let brdf_only = Renderer::calculate_color(false, 2, 2, &scene, &lights, &materials, 0, ray, 0);
    // Below the light the radiance term is exactly white and the BRDF
    // term the Lambertian constant, so the full mode is their product.
    assert_eq!(radiance, white());
    let expected = fx_div(FX_ONE, FX_PI);
    assert_eq!(brdf_only, Vec3::new(expected, expected, expected));
    assert_eq!(full, Vec3::new(
        fx_mul(radiance.x, brdf_only.x),
        fx_mul(radiance.y, brdf_only.y),
        fx_mul(radiance.z, brdf_only.z),
    ));
    let other = Renderer::calculate_color(false, 3, 2, &scene, &lights, &materials, 0, ray, 0);
    assert_eq!(other, Vec3::new(0, 0, 0));
}

#[test]
fn pixel_packing_quantizes_channels() {
    assert_eq!(Renderer::to_u32_rgb(FX_ONE, FX_ONE / 2, 0), (255 << 16) | (127 << 8));
    assert_eq!(Renderer::to_u32_rgb(0, 0, 0), 0);
    // Negative and over-range channels clamp to the byte range.
    assert_eq!(Renderer::to_u32_rgb(-fx(3), fx(7), FX_ONE), (255 << 8) | 255);
}

#[test]
fn renderer_new_and_toggles() {
    let mut renderer = Renderer::new(4, 2);
    assert_eq!(renderer.width, 4);
    assert_eq!(renderer.height, 2);
    assert_eq!(renderer.aspect_ratio, fx(2));
    assert_eq!(renderer.max_bounces, 2);
    assert!(renderer.are_hard_shadows_enabled);
    assert_eq!(renderer.render_mode, 0);
    assert_eq!(renderer.data.len(), 8);
    renderer.toggle_shadows();
    assert!(!renderer.are_hard_shadows_enabled);
    for expected in [3, 4, 5, 6, 1, 2] {
        renderer.toggle_max_bounce_rays();
        assert_eq!(renderer.max_bounces, expected);
    }
    for expected in [1, 2, 0, 1] {
        renderer.toggle_render_mode();
        assert_eq!(renderer.render_mode, expected);
    }
}

#[test]
fn full_frame_render_fills_buffer() {
    // A camera looking straight down the z axis at nothing renders a
    // black frame; with the plane below, some pixels light up.
    let (scene, materials, lights) = plane_scene();
    let camera = raytracer::camera::Camera::new(Vec3::new(0, fx(2), -fx(5)), fx(45), 27146);
    let mut renderer = Renderer::new(8, 6);
    renderer.render(&scene, &camera, &lights, &materials);
    assert_eq!(renderer.data.len(), 48);
    let lit = renderer.data.iter().filter(|p| **p != 0).count();
    assert!(lit > 0);
    // Rows agree with the row renderer.
    for y in 0..6u32 {
        let row = renderer.render_row(&scene, &camera, &lights, &materials, y);
        assert_eq!(row.len(), 8);
        for x in 0..8usize {
            assert_eq!(row[x], renderer.data[y as usize * 8 + x]);
        }
    }
    // Disabling every light blacks the frame out.
    let no_lights: Vec<LightEnum> = Vec::new();
    renderer.render(&scene, &camera, &no_lights, &materials);
    assert!(renderer.data.iter().all(|p| *p == 0));
}

#[test]
fn draw_pixel_writes_one_slot() {
    let mut renderer = Renderer::new(4, 4);
    renderer.draw_pixel(2, 1, 0xabcdef);
    assert_eq!(renderer.data[1 * 4 + 2], 0xabcdef);
    assert_eq!(renderer.data[0], 0);
}
