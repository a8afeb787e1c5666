//! Shading math: vector algebra, the BRDF building blocks, materials,
//! lights, and tone mapping.

use raytracer::brdf;
use raytracer::fixed::FX_ONE;
use raytracer::fixed::FX_PI;
use raytracer::fixed::fx_div;
use raytracer::fixed::fx_mul;
use raytracer::fixed::fx_powi;
use raytracer::fixed::fx_sqrt;
use raytracer::hitrecord::HitRecord;
use raytracer::lights::DirectionalLight;
use raytracer::lights::Light;
use raytracer::lights::LightEnum;
use raytracer::lights::LightProperties;
use raytracer::lights::LightType;
use raytracer::lights::PointLight;
use raytracer::materials::LambertianMaterial;
use raytracer::materials::Material;
use raytracer::materials::PhongBRDF;
use raytracer::materials::RoughnessConstants;
use raytracer::vec3::ColorTypeFunctionality;
use raytracer::vec3::Vec3;

fn fx(v: i64) -> i64 {
    v * FX_ONE
}

#[test]
fn fixed_point_basics() {
    assert_eq!(fx_mul(fx(3), fx(4)), fx(12));
    assert_eq!(fx_mul(-fx(3), fx(4)), -fx(12));
    assert_eq!(fx_div(fx(1), fx(2)), FX_ONE / 2);
    assert_eq!(fx_div(fx(5), 0), 0);
    assert_eq!(fx_sqrt(fx(4)), fx(2));
    assert_eq!(fx_sqrt(-fx(4)), 0);
    assert_eq!(fx_powi(fx(2), 5), fx(32));
    assert_eq!(fx_powi(fx(2), 0), FX_ONE);
    assert_eq!(fx_powi(fx(2), -2), FX_ONE / 4);
}

#[test]
fn vector_algebra_exact() {
    let a = Vec3::new(fx(1), fx(2), fx(3));
    let b = Vec3::new(fx(4), -fx(5), fx(6));
    assert_eq!(a.dot(&b), fx(4 - 10 + 18));
    assert_eq!(
        a.cross(&b),
        Vec3::new(fx(2 * 6 - 3 * -5), fx(3 * 4 - 1 * 6), fx(1 * -5 - 2 * 4))
    );
    assert_eq!(a.length_squared(), fx(14));
    assert_eq!(Vec3::new(fx(3), fx(4), 0).length(), fx(5));
    assert_eq!(Vec3::new(0, 0, 0).normalize(), Vec3::new(0, 0, 0));
    assert_eq!(
        Vec3::new(fx(3), fx(4), 0).normalize(),
        Vec3::new(fx_div(fx(3), fx(5)), fx_div(fx(4), fx(5)), 0)
    );
    // Mirror reflection about the y axis flips the y component.
    let d = Vec3::new(fx(1), -fx(1), 0);
    assert_eq!(d.reflect(&Vec3::new(0, FX_ONE, 0)), Vec3::new(fx(1), fx(1), 0));
    // Rejection removes the parallel component.
    let v = Vec3::new(fx(2), fx(7), 0);
    assert_eq!(v.reject_from(&Vec3::new(FX_ONE, 0, 0)), Vec3::new(0, fx(7), 0));
}

#[test]
fn lambert_is_energy_normalized() {
    let white = Vec3::new(FX_ONE, FX_ONE, FX_ONE);
    let shaded = brdf::lambert(&white, FX_ONE);
    let expected = fx_div(FX_ONE, FX_PI);
    assert_eq!(shaded, Vec3::new(expected, expected, expected));
    assert_eq!(expected, 20860);
}

#[test]
fn phong_lobe_zero_below_horizon() {
    let normal = Vec3::new(0, FX_ONE, 0);
    // Light straight down onto the surface, viewer on the opposite
    // side of the reflection: non-positive cosine gives black.
    let light_dir = Vec3::new(0, FX_ONE, 0);
    let view_away = Vec3::new(0, -FX_ONE, 0);
    assert_eq!(
        brdf::phong(FX_ONE, 60, &light_dir, &view_away, &normal),
        Vec3::new(0, 0, 0)
    );
    // Viewer aligned with the reflected direction sees the full lobe.
    let view_aligned = Vec3::new(0, FX_ONE, 0);
    let shaded = brdf::phong(FX_ONE, 60, &light_dir, &view_aligned, &normal);
    assert_eq!(shaded, Vec3::new(FX_ONE, FX_ONE, FX_ONE));
}

#[test]
fn schlick_full_reflectivity_at_grazing() {
    let base = Vec3::new(fx(1) / 25, fx(1) / 25, fx(1) / 25);
    // Half vector orthogonal to the view direction: the Fresnel term
    // rises to base + (1 - base).
    let half = Vec3::new(0, FX_ONE, 0);
    let view = Vec3::new(FX_ONE, 0, 0);
    let f = brdf::schlick(&half, &view, &base);
    // (1 - eps)^5 stays just below one; the result just below white.
    assert!(f.x > FX_ONE - 10 && f.x <= FX_ONE);
    // Half vector along the view direction: the term is the base
    // reflectivity alone.
    let f0 = brdf::schlick(&view, &view, &base);
    assert_eq!(f0, base);
}

#[test]
fn smith_masking_in_unit_range() {
    let normal = Vec3::new(0, FX_ONE, 0);
    let view = Vec3::new(0, FX_ONE, 0);
    let light = Vec3::new(0, FX_ONE, 0);
    let g = brdf::smith_method(&normal, &view, &light, RoughnessConstants::HalfRough.value());
    assert!(0 < g && g <= FX_ONE);
}

#[test]
fn smith_product_positive_at_grazing() {
    // Both cosines clamp to the smallest positive grain: each factor
    // is tiny but positive, and the product must stay positive rather
    // than truncate to zero.
    let normal = Vec3::new(0, FX_ONE, 0);
    let view = Vec3::new(FX_ONE, 0, 0);
    let light = Vec3::new(FX_ONE, 0, 0);
    let g = brdf::smith_method(&normal, &view, &light, FX_ONE / 2);
    assert_eq!(g, 1);
    // Masking and shadowing commute.
    let swapped = brdf::smith_method(&normal, &light, &view, FX_ONE / 2);
    assert_eq!(g, swapped);
}

#[test]
fn ggx_density_positive_and_large_for_smooth_head_on() {
    // A smooth surface viewed along its normal: the distribution is a
    // tall positive spike, roughly 1 / (pi * roughness^4).
    let normal = Vec3::new(0, FX_ONE, 0);
    let half = Vec3::new(0, FX_ONE, 0);
    let d = brdf::trowbridge_reitz_ggx(&normal, &half, RoughnessConstants::Smooth.value());
    assert_eq!(d, 214918559);
    // Even at a fully grazing (clamped) half vector the density stays
    // positive.
    let grazing = Vec3::new(FX_ONE, 0, 0);
    let d_grazing = brdf::trowbridge_reitz_ggx(&normal, &grazing, RoughnessConstants::Smooth.value());
    assert_eq!(d_grazing, 3);
}

#[test]
fn ggx_density_for_rough_head_on_is_one_over_pi() {
    let normal = Vec3::new(0, FX_ONE, 0);
    let half = Vec3::new(0, FX_ONE, 0);
    let d = brdf::trowbridge_reitz_ggx(&normal, &half, RoughnessConstants::Rough.value());
    assert_eq!(d, 20861);
    let d_half = brdf::trowbridge_reitz_ggx(&normal, &half, RoughnessConstants::HalfRough.value());
    assert_eq!(d_half, 160957);
}

#[test]
fn metal_has_no_diffuse_term() {
    let albedo = Vec3::new(fx(1), fx(1), fx(1));
    let metal = PhongBRDF::new(albedo, RoughnessConstants::Rough.value(), true, FX_ONE, FX_ONE);
    assert_eq!(metal.properties.diffuse_color, Vec3::new(0, 0, 0));
    let dielectric = PhongBRDF::new(albedo, RoughnessConstants::Rough.value(), false, FX_ONE, fx(1) / 2);
    assert_eq!(dielectric.properties.diffuse_color, albedo);
}

#[test]
fn lambertian_shade_ignores_directions() {
    let material = LambertianMaterial::new(Vec3::new(FX_ONE, FX_ONE / 2, 0), FX_ONE, 0);
    let record = HitRecord::new(Vec3::new(0, 0, 0), Vec3::new(0, FX_ONE, 0), 0, fx(1));
    let a = material.shade(&record, &Vec3::new(0, FX_ONE, 0), &Vec3::new(FX_ONE, 0, 0));
    let b = material.shade(&record, &Vec3::new(FX_ONE, 0, 0), &Vec3::new(0, 0, FX_ONE));
    assert_eq!(a, b);
    assert_eq!(a.x, fx_div(FX_ONE, FX_PI));
}

#[test]
fn point_light_inverse_square_falloff() {
    let light = PointLight::new(
        LightProperties::new(Vec3::new(FX_ONE, FX_ONE, FX_ONE), fx(25), true, LightType::Point),
        Vec3::new(0, fx(5), 0),
    );
    // Directly below at distance 5: 25 / 25 = 1.
    let bi = light.get_bi_radians(&Vec3::new(0, 0, 0));
    assert_eq!(bi, Vec3::new(FX_ONE, FX_ONE, FX_ONE));
    // At distance 10 the falloff quarters the radiance.
    let far = light.get_bi_radians(&Vec3::new(0, -fx(5), 0));
    assert_eq!(far, Vec3::new(FX_ONE / 4, FX_ONE / 4, FX_ONE / 4));
    // Direction and distance toward the light.
    let mut magnitude: i64 = 0;
    let direction = light.get_direction_magnitude(&Vec3::new(0, 0, 0), &mut magnitude);
    assert_eq!(direction, Vec3::new(0, FX_ONE, 0));
    assert_eq!(magnitude, fx(5));
}

#[test]
fn directional_light_constant_radiance_and_unbounded_reach() {
    let light = DirectionalLight::new(
        LightProperties::new(Vec3::new(FX_ONE, 0, 0), fx(2), true, LightType::Directional),
        Vec3::new(0, -FX_ONE, 0),
    );
    let bi_near = light.get_bi_radians(&Vec3::new(0, 0, 0));
    let bi_far = light.get_bi_radians(&Vec3::new(fx(100), 0, fx(100)));
    assert_eq!(bi_near, bi_far);
    assert_eq!(bi_near, Vec3::new(fx(2), 0, 0));
    assert_eq!(light.get_direction(&Vec3::new(0, 0, 0)), Vec3::new(0, FX_ONE, 0));
    let mut magnitude: i64 = 0;
    let _ = light.get_direction_magnitude(&Vec3::new(0, 0, 0), &mut magnitude);
    assert_eq!(magnitude, i64::MAX);
}

#[test]
fn light_toggle_flips_enabled_only() {
    let mut light = LightEnum::Point(PointLight::new(
        LightProperties::new(Vec3::new(FX_ONE, FX_ONE, FX_ONE), fx(25), true, LightType::Point),
        Vec3::new(0, fx(5), 0),
    ));
    assert!(light.is_light_enabled());
    light.toggle_light();
    assert!(!light.is_light_enabled());
    assert_eq!(light.get_type_light(), LightType::Point);
    light.toggle_light();
    assert!(light.is_light_enabled());
}

#[test]
fn tone_map_no_op_inside_gamut() {
    let mut color = Vec3::new(FX_ONE / 2, FX_ONE / 4, 0);
    let before = color;
    color.max_to_one();
    assert_eq!(color, before);
}

#[test]
fn tone_map_divides_by_max_channel() {
    // A channel above one: every channel divided by the maximum, so
    // the maximum lands exactly on one and ratios survive.
    let mut color = Vec3::new(fx(2), FX_ONE, FX_ONE / 2);
    color.max_to_one();
    assert_eq!(color, Vec3::new(FX_ONE, FX_ONE / 2, FX_ONE / 4));
}

#[test]
fn tone_map_idempotent() {
    let mut color = Vec3::new(fx(3), fx(2), FX_ONE);
    color.max_to_one();
    let once = color;
    color.max_to_one();
    assert_eq!(color, once);
    // The largest channel is exactly one after the first pass.
    assert_eq!(once.x, FX_ONE);
}

#[test]
fn roughness_presets() {
    assert_eq!(RoughnessConstants::Smooth.value(), 6554);
    assert_eq!(RoughnessConstants::HalfRough.value(), 39322);
    assert_eq!(RoughnessConstants::Rough.value(), FX_ONE);
    assert_eq!(RoughnessConstants::Smooth.string(), "Smooth");
    assert_eq!(RoughnessConstants::HalfRough.string(), "HalfRough");
    assert_eq!(RoughnessConstants::Rough.string(), "Rough");
}
