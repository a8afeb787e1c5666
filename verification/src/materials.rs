//! Materials: the closed set of shading models behind one contract.
//!
//! Materials are immutable once constructed and owned by a catalog;
//! primitives refer to them by index. `shade` is a pure function of
//! the hit record and the light and view directions.

use vstd::prelude::*;

use crate::brdf;
use crate::brdf::lambert_color_s;
use crate::brdf::lambert_s;
use crate::brdf::phong_s;
use crate::brdf::schlick_s;
use crate::brdf::smith_method_s;
use crate::brdf::trowbridge_reitz_ggx_s;
use crate::fixed::FX_EPS;
use crate::fixed::FX_ONE;
use crate::fixed::fx_add;
use crate::fixed::fx_add_s;
use crate::fixed::fx_div;
use crate::fixed::fx_div_s;
use crate::fixed::fx_max;
use crate::fixed::fx_max_s;
use crate::fixed::fx_mul;
use crate::fixed::fx_mul_s;
use crate::fixed::fx_powi;
use crate::fixed::fx_powi_s;
use crate::hitrecord::HitRecV;
use crate::hitrecord::HitRecord;
use crate::vec3::RGBColor;
use crate::vec3::V3;
use crate::vec3::Vec3;
use crate::vec3::v_add_s;
use crate::vec3::v_div_scalar_s;
use crate::vec3::v_dot_s;
use crate::vec3::v_norm_s;
use crate::vec3::v_one_s;
use crate::vec3::v_scale_s;
use crate::vec3::v_sub_s;
use crate::vec3::v_zero_s;

verus! {

/// The roughness presets the catalog builds microfacet materials
/// from.
#[derive(Clone, Copy, PartialEq, Eq, Structural, Debug)]
pub enum RoughnessConstants {
    Smooth,
    HalfRough,
    Rough,
}

impl RoughnessConstants {
    /// The preset's roughness value: 0.1, 0.6 or 1.0 in fixed point.
    pub fn value(self) -> (r: i64)
        ensures
            r == match self {
                RoughnessConstants::Smooth => 6554i64,
                RoughnessConstants::HalfRough => 39322i64,
                RoughnessConstants::Rough => FX_ONE,
            },
    {
        match self {
            RoughnessConstants::Smooth => 6554,
            RoughnessConstants::HalfRough => 39322,
            RoughnessConstants::Rough => FX_ONE,
        }
    }

    /// The preset's name, as material catalog keys spell it.
    pub fn string(&self) -> (r: &'static str)
        ensures
            match self {
                RoughnessConstants::Smooth => r@ == "Smooth"@,
                RoughnessConstants::HalfRough => r@ == "HalfRough"@,
                RoughnessConstants::Rough => r@ == "Rough"@,
            },
    {
        match self {
            RoughnessConstants::Smooth => "Smooth",
            RoughnessConstants::HalfRough => "HalfRough",
            RoughnessConstants::Rough => "Rough",
        }
    }
}

/// The state every material shares.
#[derive(Clone, Copy, PartialEq, Eq, Structural, Debug)]
pub struct MaterialProperties {
    pub diffuse_color: RGBColor,
    pub diffuse_reflectance: i64,
    pub reflectiveness_environment: i64,
}

impl MaterialProperties {
    pub fn new(
        diffuse_color: RGBColor,
        diffuse_reflectance: i64,
        reflectiveness_environment: i64,
    ) -> (r: Self)
        ensures
            r == (MaterialProperties {
                diffuse_color,
                diffuse_reflectance,
                reflectiveness_environment,
            }),
    {
        Self { diffuse_color, diffuse_reflectance, reflectiveness_environment }
    }
}

/// The shading contract: `shade_s` is each material's exact model of
/// one shading evaluation, and `refl_env_s` the fraction of outgoing
/// radiance attributed to a mirror bounce.
pub trait Material {
    spec fn shade_s(&self, hit: HitRecV, light_direction: V3, view_direction: V3) -> V3;

    spec fn refl_env_s(&self) -> int;

    fn shade(&self, hitrecord: &HitRecord, light_direction: &Vec3, view_direction: &Vec3) -> (r:
        RGBColor)
        ensures
            r@ == self.shade_s(hitrecord@, light_direction@, view_direction@),
    ;

    fn get_reflectiveness_environment(&self) -> (r: i64)
        ensures
            r as int == self.refl_env_s(),
    ;
}

/// The fallback material: shades black and reflects nothing.
pub struct DefaultMaterial {}

impl Material for DefaultMaterial {
    open spec fn shade_s(&self, hit: HitRecV, light_direction: V3, view_direction: V3) -> V3 {
        v_zero_s()
    }

    open spec fn refl_env_s(&self) -> int {
        0
    }

    fn shade(&self, hitrecord: &HitRecord, light_direction: &Vec3, view_direction: &Vec3) -> (r:
        RGBColor) {
        RGBColor::zero()
    }

    fn get_reflectiveness_environment(&self) -> (r: i64) {
        0
    }
}

// ---------------------------------------------------------------------
// Lambertian
// ---------------------------------------------------------------------

/// A perfectly diffuse material; its shade ignores the light and view
/// directions.
pub struct LambertianMaterial {
    pub properties: MaterialProperties,
}

impl LambertianMaterial {
    pub fn new(
        diffuse_color: RGBColor,
        diffuse_reflectance: i64,
        reflectiveness_environment: i64,
    ) -> (r: Self)
        ensures
            r.properties == (MaterialProperties {
                diffuse_color,
                diffuse_reflectance,
                reflectiveness_environment,
            }),
    {
        Self {
            properties: MaterialProperties {
                diffuse_color,
                diffuse_reflectance,
                reflectiveness_environment,
            },
        }
    }
}

impl Material for LambertianMaterial {
    open spec fn shade_s(&self, hit: HitRecV, light_direction: V3, view_direction: V3) -> V3 {
        lambert_s(self.properties.diffuse_color@, self.properties.diffuse_reflectance as int)
    }

    open spec fn refl_env_s(&self) -> int {
        self.properties.reflectiveness_environment as int
    }

    fn shade(&self, hitrecord: &HitRecord, light_direction: &Vec3, view_direction: &Vec3) -> (r:
        RGBColor) {
        brdf::lambert(&self.properties.diffuse_color, self.properties.diffuse_reflectance)
    }

    fn get_reflectiveness_environment(&self) -> (r: i64) {
        self.properties.reflectiveness_environment
    }
}

// ---------------------------------------------------------------------
// Lambert + Phong
// ---------------------------------------------------------------------

/// A diffuse material with an added Phong specular lobe.
pub struct LambertPhongMaterial {
    pub properties: MaterialProperties,
    pub specular_reflectance: i64,
    pub phong_exponent: i32,
}

impl LambertPhongMaterial {
    pub fn new(properties: MaterialProperties, specular_reflectance: i64, phong_exponent: i32) -> (
        r: Self)
        ensures
            r == (LambertPhongMaterial { properties, specular_reflectance, phong_exponent }),
    {
        Self { properties, specular_reflectance, phong_exponent }
    }
}

impl Material for LambertPhongMaterial {
    open spec fn shade_s(&self, hit: HitRecV, light_direction: V3, view_direction: V3) -> V3 {
        v_add_s(
            lambert_s(self.properties.diffuse_color@, self.properties.diffuse_reflectance as int),
            phong_s(
                self.specular_reflectance as int,
                self.phong_exponent as int,
                light_direction,
                view_direction,
                hit.normal,
            ),
        )
    }

    open spec fn refl_env_s(&self) -> int {
        self.properties.reflectiveness_environment as int
    }

    fn shade(&self, hitrecord: &HitRecord, light_direction: &Vec3, view_direction: &Vec3) -> (r:
        RGBColor) {
        brdf::lambert(&self.properties.diffuse_color, self.properties.diffuse_reflectance).add(
            &brdf::phong(
                self.specular_reflectance,
                self.phong_exponent,
                light_direction,
                view_direction,
                &hitrecord.normal,
            ),
        )
    }

    fn get_reflectiveness_environment(&self) -> (r: i64) {
        self.properties.reflectiveness_environment
    }
}

// ---------------------------------------------------------------------
// Microfacet (Cook-Torrance-style)
// ---------------------------------------------------------------------

/// A microfacet material: GGX distribution, Schlick Fresnel against
/// the albedo, Smith geometric shadowing; metals contribute no
/// diffuse term.
pub struct PhongBRDF {
    pub properties: MaterialProperties,
    pub albedo: RGBColor,
    pub roughness: i64,
    pub is_metal: bool,
}

impl PhongBRDF {
    pub fn new(
        albedo: RGBColor,
        roughness: i64,
        is_metal: bool,
        diffuse_reflectance: i64,
        reflectiveness_environment: i64,
    ) -> (r: Self)
        ensures
            r.albedo == albedo,
            r.roughness == roughness,
            r.is_metal == is_metal,
            r.properties == (MaterialProperties {
                diffuse_color: if is_metal {
                    Vec3 { x: 0, y: 0, z: 0 }
                } else {
                    albedo
                },
                diffuse_reflectance,
                reflectiveness_environment,
            }),
    {
        let properties = if is_metal {
            MaterialProperties::new(RGBColor::zero(), diffuse_reflectance, reflectiveness_environment)
        } else {
            MaterialProperties::new(albedo, diffuse_reflectance, reflectiveness_environment)
        };
        Self { properties, albedo, roughness, is_metal }
    }
}

/// The remapped roughness `k = (roughness + 1)^2 / 8` used by the
/// Smith term under direct lighting.
pub open spec fn smith_k_s(roughness: int) -> int {
    fx_div_s(fx_powi_s(fx_add_s(roughness, FX_ONE as int), 2), 8 * FX_ONE as int)
}

impl Material for PhongBRDF {
    open spec fn shade_s(&self, hit: HitRecV, light_direction: V3, view_direction: V3) -> V3 {
        let half_vector = v_norm_s(v_add_s(light_direction, view_direction));
        let fresnel = schlick_s(half_vector, view_direction, self.albedo@);
        let d = trowbridge_reitz_ggx_s(hit.normal, half_vector, self.roughness as int);
        let k = smith_k_s(self.roughness as int);
        let g = smith_method_s(hit.normal, view_direction, light_direction, k);
        let kd = v_scale_s(
            v_sub_s(v_one_s(), fresnel),
            if self.is_metal {
                0
            } else {
                FX_ONE as int
            },
        );
        let denom = fx_mul_s(
            fx_mul_s(4 * FX_ONE as int, fx_max_s(v_dot_s(hit.normal, light_direction), FX_EPS as int)),
            fx_max_s(v_dot_s(hit.normal, view_direction), FX_EPS as int),
        );
        let specular = v_div_scalar_s(v_scale_s(v_scale_s(fresnel, d), g), denom);
        let diffuse = lambert_color_s(self.properties.diffuse_color@, kd);
        v_add_s(specular, diffuse)
    }

    open spec fn refl_env_s(&self) -> int {
        self.properties.reflectiveness_environment as int
    }

    fn shade(&self, hitrecord: &HitRecord, light_direction: &Vec3, view_direction: &Vec3) -> (r:
        RGBColor) {
        let half_vector = light_direction.add(view_direction).normalize();
        let fresnel = brdf::schlick(&half_vector, view_direction, &self.albedo);
        let d = brdf::trowbridge_reitz_ggx(&hitrecord.normal, &half_vector, self.roughness);
        let k = fx_div(fx_powi(fx_add(self.roughness, FX_ONE), 2), 8 * FX_ONE);
        let g = brdf::smith_method(&hitrecord.normal, view_direction, light_direction, k);
        let kd = RGBColor::one().sub(&fresnel).scale(
            if self.is_metal {
                0
            } else {
                FX_ONE
            },
        );
        let denom = fx_mul(
            fx_mul(4 * FX_ONE, fx_max(hitrecord.normal.dot(light_direction), FX_EPS)),
            fx_max(hitrecord.normal.dot(view_direction), FX_EPS),
        );
        let specular = fresnel.scale(d).scale(g).div_scalar(denom);
        let diffuse = brdf::lambert_color(&self.properties.diffuse_color, &kd);
        specular.add(&diffuse)
    }

    fn get_reflectiveness_environment(&self) -> (r: i64) {
        self.properties.reflectiveness_environment
    }
}

// ---------------------------------------------------------------------
// The closed variant set
// ---------------------------------------------------------------------

/// The closed set of material variants a catalog may hold.
pub enum MaterialEnum {
    Lambert(LambertianMaterial),
    LambertPhong(LambertPhongMaterial),
    PhongBRDFMaterial(PhongBRDF),
}

impl Material for MaterialEnum {
    open spec fn shade_s(&self, hit: HitRecV, light_direction: V3, view_direction: V3) -> V3 {
        match self {
            MaterialEnum::Lambert(m) => m.shade_s(hit, light_direction, view_direction),
            MaterialEnum::LambertPhong(m) => m.shade_s(hit, light_direction, view_direction),
            MaterialEnum::PhongBRDFMaterial(m) => m.shade_s(hit, light_direction, view_direction),
        }
    }

    open spec fn refl_env_s(&self) -> int {
        match self {
            MaterialEnum::Lambert(m) => m.refl_env_s(),
            MaterialEnum::LambertPhong(m) => m.refl_env_s(),
            MaterialEnum::PhongBRDFMaterial(m) => m.refl_env_s(),
        }
    }

    fn shade(&self, hitrecord: &HitRecord, light_direction: &Vec3, view_direction: &Vec3) -> (r:
        RGBColor) {
        match self {
            MaterialEnum::Lambert(m) => m.shade(hitrecord, light_direction, view_direction),
            MaterialEnum::LambertPhong(m) => m.shade(hitrecord, light_direction, view_direction),
            MaterialEnum::PhongBRDFMaterial(m) => m.shade(
                hitrecord,
                light_direction,
                view_direction,
            ),
        }
    }

    fn get_reflectiveness_environment(&self) -> (r: i64) {
        match self {
            MaterialEnum::Lambert(m) => m.get_reflectiveness_environment(),
            MaterialEnum::LambertPhong(m) => m.get_reflectiveness_environment(),
            MaterialEnum::PhongBRDFMaterial(m) => m.get_reflectiveness_environment(),
        }
    }
}

} // verus!
