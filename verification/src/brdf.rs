//! Shading building blocks: the Lambertian and Phong terms and the
//! microfacet pieces (GGX normal distribution, Schlick Fresnel, Smith
//! geometric shadowing).
//!
//! Dot products that serve as divisors or exponent bases are clamped
//! to a small positive epsilon, so every function is total.

use vstd::prelude::*;

use crate::fixed::FX_EPS;
use crate::fixed::FX_ONE;
use crate::fixed::FX_PI;
use crate::fixed::FXW_ONE;
use crate::fixed::FXW_PI;
use crate::fixed::fx_add;
use crate::fixed::fx_mul_up;
use crate::fixed::fx_mul_up_s;
use crate::fixed::fx_widen_sq;
use crate::fixed::fx_widen_sq_s;
use crate::fixed::fxw_add;
use crate::fixed::fxw_add_s;
use crate::fixed::fxw_div;
use crate::fixed::fxw_div_s;
use crate::fixed::fxw_mul;
use crate::fixed::fxw_mul_s;
use crate::fixed::fxw_sub;
use crate::fixed::fxw_sub_s;
use crate::fixed::fxw_to_fx;
use crate::fixed::fxw_to_fx_s;
use crate::fixed::fx_add_s;
use crate::fixed::fx_div;
use crate::fixed::fx_div_s;
use crate::fixed::fx_max;
use crate::fixed::fx_max_s;
use crate::fixed::fx_mul;
use crate::fixed::fx_mul_s;
use crate::fixed::fx_powi;
use crate::fixed::fx_powi_s;
use crate::fixed::fx_sub;
use crate::fixed::fx_sub_s;
use crate::vec3::RGBColor;
use crate::vec3::V3;
use crate::vec3::Vec3;
use crate::vec3::v_add_s;
use crate::vec3::v_div_scalar_s;
use crate::vec3::v_dot_s;
use crate::vec3::v_neg_s;
use crate::vec3::v_norm_s;
use crate::vec3::v_one_s;
use crate::vec3::v_scale_s;
use crate::vec3::v_sub_s;
use crate::vec3::v_zero_s;

verus! {

/// Energy-normalized Lambertian BRDF:
/// `diffuse_color * diffuse_reflectance / pi`.
pub open spec fn lambert_s(diffuse_color: V3, diffuse_reflectance: int) -> V3 {
    v_div_scalar_s(v_scale_s(diffuse_color, diffuse_reflectance), FX_PI as int)
}

/// Lambertian BRDF with a color-valued reflectance weight.
pub open spec fn lambert_color_s(diffuse_color: V3, diffuse_reflectance: V3) -> V3 {
    v_div_scalar_s(
        V3 {
            x: fx_mul_s(diffuse_color.x, diffuse_reflectance.x),
            y: fx_mul_s(diffuse_color.y, diffuse_reflectance.y),
            z: fx_mul_s(diffuse_color.z, diffuse_reflectance.z),
        },
        FX_PI as int,
    )
}

/// Phong specular lobe: the light direction reflected about the
/// normal, dotted with the view direction; zero when that cosine is
/// not positive.
pub open spec fn phong_s(
    specular_reflectance_factor: int,
    phong_exponent: int,
    light_direction: V3,
    view_direction: V3,
    normal: V3,
) -> V3 {
    let reflected = v_add_s(
        v_neg_s(light_direction),
        v_scale_s(normal, fx_mul_s(2 * FX_ONE as int, v_dot_s(normal, light_direction))),
    );
    let cos_angle = v_dot_s(reflected, view_direction);
    if cos_angle > 0 {
        let r = fx_mul_s(specular_reflectance_factor, fx_powi_s(cos_angle, phong_exponent));
        V3 { x: r, y: r, z: r }
    } else {
        v_zero_s()
    }
}

/// GGX / Trowbridge-Reitz normal distribution term.
///
/// `roughness^4` and the squared denominator are far below the
/// ordinary grain for smooth surfaces, so the whole term is evaluated
/// on the wide scale and only the final density is brought back,
/// rounding up so a positive density never collapses to zero.
pub open spec fn trowbridge_reitz_ggx_s(normal_surface: V3, half_vector: V3, roughness: int) -> int {
    let roughness_sq = fx_widen_sq_s(roughness);
    let roughness_pow4 = fxw_mul_s(roughness_sq, roughness_sq);
    let n_dot_h_sq = fx_widen_sq_s(fx_max_s(v_dot_s(normal_surface, half_vector), FX_EPS as int));
    let denom_root = fxw_add_s(
        fxw_mul_s(n_dot_h_sq, fxw_sub_s(roughness_pow4, FXW_ONE as int)),
        FXW_ONE as int,
    );
    let denom = fxw_mul_s(FXW_PI as int, fxw_mul_s(denom_root, denom_root));
    fxw_to_fx_s(fxw_div_s(roughness_pow4, denom))
}

/// Schlick's Fresnel approximation against a base reflectivity color.
pub open spec fn schlick_s(half_vector: V3, view_dir: V3, base_reflectivity_surface: V3) -> V3 {
    let h_dot_v = fx_max_s(v_dot_s(half_vector, view_dir), FX_EPS as int);
    v_add_s(
        base_reflectivity_surface,
        v_scale_s(
            v_sub_s(v_one_s(), base_reflectivity_surface),
            fx_powi_s(fx_sub_s(FX_ONE as int, h_dot_v), 5),
        ),
    )
}

/// One Schlick-GGX geometric term with remapped roughness `k`.
pub open spec fn schlick_ggx_s(half_vector: V3, view_dir: V3, k: int) -> int {
    let n_dot_v = fx_max_s(
        v_dot_s(v_norm_s(half_vector), v_norm_s(view_dir)),
        FX_EPS as int,
    );
    fx_div_s(n_dot_v, fx_add_s(fx_mul_s(n_dot_v, fx_sub_s(FX_ONE as int, k)), k))
}

/// Smith's method: the product of the Schlick-GGX terms for the view
/// (masking) and light (shadowing) directions. The product's
/// magnitude is rounded up, so two positive factors — however close
/// to the grain the clamped cosines push them — never truncate to a
/// zero product.
pub open spec fn smith_method_s(normal_surface: V3, view_dir: V3, light_dir: V3, roughness: int)
    -> int {
    fx_mul_up_s(
        schlick_ggx_s(normal_surface, view_dir, roughness),
        schlick_ggx_s(normal_surface, light_dir, roughness),
    )
}

pub fn lambert(diffuse_color: &RGBColor, diffuse_reflectance: i64) -> (r: RGBColor)
    ensures
        r@ == lambert_s(diffuse_color@, diffuse_reflectance as int),
{
    diffuse_color.scale(diffuse_reflectance).div_scalar(FX_PI)
}

pub fn lambert_color(diffuse_color: &RGBColor, diffuse_reflectance: &RGBColor) -> (r: RGBColor)
    ensures
        r@ == lambert_color_s(diffuse_color@, diffuse_reflectance@),
{
    diffuse_color.mul(diffuse_reflectance).div_scalar(FX_PI)
}

pub fn phong(
    specular_reflectance_factor: i64,
    phong_exponent: i32,
    light_direction: &Vec3,
    view_direction: &Vec3,
    normal: &Vec3,
) -> (r: RGBColor)
    ensures
        r@ == phong_s(
            specular_reflectance_factor as int,
            phong_exponent as int,
            light_direction@,
            view_direction@,
            normal@,
        ),
{
    let reflected = light_direction.neg().add(
        &normal.scale(fx_mul(2 * FX_ONE, normal.dot(light_direction))),
    );
    let cos_angle = reflected.dot(view_direction);
    if cos_angle > 0 {
        let phong_specular_reflection = fx_mul(
            specular_reflectance_factor,
            fx_powi(cos_angle, phong_exponent),
        );
        RGBColor::new(
            phong_specular_reflection,
            phong_specular_reflection,
            phong_specular_reflection,
        )
    } else {
        RGBColor::zero()
    }
}

pub fn trowbridge_reitz_ggx(normal_surface: &Vec3, half_vector: &Vec3, roughness: i64) -> (r: i64)
    ensures
        r as int == trowbridge_reitz_ggx_s(normal_surface@, half_vector@, roughness as int),
{
    let roughness_sq = fx_widen_sq(roughness);
    let roughness_pow4 = fxw_mul(roughness_sq, roughness_sq);
    let n_dot_h_sq = fx_widen_sq(fx_max(normal_surface.dot(half_vector), FX_EPS));
    let denom_root = fxw_add(fxw_mul(n_dot_h_sq, fxw_sub(roughness_pow4, FXW_ONE)), FXW_ONE);
    let denom = fxw_mul(FXW_PI, fxw_mul(denom_root, denom_root));
    fxw_to_fx(fxw_div(roughness_pow4, denom))
}

pub fn schlick(half_vector: &Vec3, view_dir: &Vec3, base_reflectivity_surface: &RGBColor) -> (r:
    RGBColor)
    ensures
        r@ == schlick_s(half_vector@, view_dir@, base_reflectivity_surface@),
{
    let h_dot_v = fx_max(half_vector.dot(view_dir), FX_EPS);
    base_reflectivity_surface.add(
        &RGBColor::one().sub(base_reflectivity_surface).scale(
            fx_powi(fx_sub(FX_ONE, h_dot_v), 5),
        ),
    )
}

pub fn schlick_ggx(half_vector: &Vec3, view_dir: &Vec3, k: i64) -> (r: i64)
    ensures
        r as int == schlick_ggx_s(half_vector@, view_dir@, k as int),
{
    let n_dot_v = fx_max(half_vector.normalize().dot(&view_dir.normalize()), FX_EPS);
    fx_div(n_dot_v, fx_add(fx_mul(n_dot_v, fx_sub(FX_ONE, k)), k))
}

pub fn smith_method(normal_surface: &Vec3, view_dir: &Vec3, light_dir: &Vec3, roughness: i64) -> (r:
    i64)
    ensures
        r as int == smith_method_s(normal_surface@, view_dir@, light_dir@, roughness as int),
{
    fx_mul_up(
        schlick_ggx(normal_surface, view_dir, roughness),
        schlick_ggx(normal_surface, light_dir, roughness),
    )
}

} // verus!
