//! Lights: the point and directional variants behind one geometric and
//! radiometric query surface.

use vstd::prelude::*;

use crate::fixed::FX_T_MAX;
use crate::fixed::fx_div;
use crate::fixed::fx_div_s;
use crate::vec3::RGBColor;
use crate::vec3::V3;
use crate::vec3::Vec3;
use crate::vec3::v_dist_sq_s;
use crate::vec3::v_len_s;
use crate::vec3::v_neg_s;
use crate::vec3::v_norm_s;
use crate::vec3::v_scale_s;
use crate::vec3::v_sub_s;

verus! {

#[derive(Clone, Copy, PartialEq, Eq, Structural, Debug)]
pub enum LightType {
    Point,
    Directional,
}

/// The live state every light shares: color and intensity are runtime
/// adjustable, `is_enabled` gates participation in shading.
#[derive(Clone, Copy, PartialEq, Eq, Structural, Debug)]
pub struct LightProperties {
    pub color: RGBColor,
    pub intensity: i64,
    pub is_enabled: bool,
    pub light_type: LightType,
}

impl LightProperties {
    pub fn new(color: RGBColor, intensity: i64, is_enabled: bool, light_type: LightType) -> (r:
        Self)
        ensures
            r == (LightProperties { color, intensity, is_enabled, light_type }),
    {
        Self { color, intensity, is_enabled, light_type }
    }

    pub fn toggle(&mut self)
        ensures
            final(self).is_enabled == !old(self).is_enabled,
            final(self).color == old(self).color,
            final(self).intensity == old(self).intensity,
            final(self).light_type == old(self).light_type,
    {
        self.is_enabled = !self.is_enabled;
    }
}

/// Geometric and radiometric query surface of a light.
///
/// The spec functions are each variant's exact model: `direction_s` is
/// the unit vector from a surface point toward the light,
/// `magnitude_s` the distance a shadow ray must search, and
/// `bi_radians_s` the radiance contribution before any cosine or BRDF
/// term.
pub trait Light: Sized {
    spec fn enabled_s(&self) -> bool;

    spec fn type_s(&self) -> LightType;

    spec fn position_s(&self) -> Vec3;

    spec fn toggled_s(&self) -> Self;

    spec fn bi_radians_s(&self, position: V3) -> V3;

    spec fn direction_s(&self, position: V3) -> V3;

    spec fn magnitude_s(&self, position: V3) -> int;

    fn is_light_enabled(&self) -> (r: bool)
        ensures
            r == self.enabled_s(),
    ;

    fn get_type_light(&self) -> (r: LightType)
        ensures
            r == self.type_s(),
    ;

    fn get_position(&self) -> (r: &Vec3)
        ensures
            *r == self.position_s(),
    ;

    fn toggle_light(&mut self)
        ensures
            *final(self) == old(self).toggled_s(),
    ;

    fn get_bi_radians(&self, position: &Vec3) -> (r: RGBColor)
        ensures
            r@ == self.bi_radians_s(position@),
    ;

    fn get_direction(&self, position: &Vec3) -> (r: Vec3)
        ensures
            r@ == self.direction_s(position@),
    ;

    fn get_direction_magnitude(&self, position: &Vec3, direction_magnitude: &mut i64) -> (r: Vec3)
        ensures
            r@ == self.direction_s(position@),
            *final(direction_magnitude) as int == self.magnitude_s(position@),
    ;
}

// ---------------------------------------------------------------------
// Point light
// ---------------------------------------------------------------------

/// A point light: inverse-square falloff, direction and distance taken
/// from the surface point.
#[derive(Clone, Copy, PartialEq, Eq, Structural, Debug)]
pub struct PointLight {
    pub light_properties: LightProperties,
    pub position: Vec3,
}

impl PointLight {
    pub fn new(light_properties: LightProperties, position: Vec3) -> (r: Self)
        ensures
            r == (PointLight { light_properties, position }),
    {
        Self { light_properties, position }
    }
}

impl Light for PointLight {
    open spec fn enabled_s(&self) -> bool {
        self.light_properties.is_enabled
    }

    open spec fn type_s(&self) -> LightType {
        self.light_properties.light_type
    }

    open spec fn position_s(&self) -> Vec3 {
        self.position
    }

    open spec fn toggled_s(&self) -> Self {
        PointLight {
            light_properties: LightProperties {
                is_enabled: !self.light_properties.is_enabled,
                ..self.light_properties
            },
            ..*self
        }
    }

    /// `color * intensity / distance^2`.
    open spec fn bi_radians_s(&self, position: V3) -> V3 {
        v_scale_s(
            self.light_properties.color@,
            fx_div_s(
                self.light_properties.intensity as int,
                v_dist_sq_s(position, self.position@),
            ),
        )
    }

    /// The unit vector from the surface point toward the light.
    open spec fn direction_s(&self, position: V3) -> V3 {
        v_norm_s(v_sub_s(self.position@, position))
    }

    /// The Euclidean distance to the light.
    open spec fn magnitude_s(&self, position: V3) -> int {
        v_len_s(v_sub_s(self.position@, position))
    }

    fn is_light_enabled(&self) -> (r: bool) {
        self.light_properties.is_enabled
    }

    fn get_type_light(&self) -> (r: LightType) {
        self.light_properties.light_type
    }

    fn get_position(&self) -> (r: &Vec3) {
        &self.position
    }

    fn toggle_light(&mut self) {
        self.light_properties.toggle();
    }

    fn get_bi_radians(&self, position: &Vec3) -> (r: RGBColor) {
        let direction_sq = position.distance_squared(&self.position);
        self.light_properties.color.scale(fx_div(self.light_properties.intensity, direction_sq))
    }

    fn get_direction(&self, position: &Vec3) -> (r: Vec3) {
        self.position.sub(position).normalize()
    }

    fn get_direction_magnitude(&self, position: &Vec3, direction_magnitude: &mut i64) -> (r: Vec3) {
        let to_light = self.position.sub(position);
        *direction_magnitude = to_light.length();
        to_light.normalize()
    }
}

// ---------------------------------------------------------------------
// Directional light
// ---------------------------------------------------------------------

/// A directional light: constant direction, no falloff, and shadow
/// rays search the whole scene.
#[derive(Clone, Copy, PartialEq, Eq, Structural, Debug)]
pub struct DirectionalLight {
    pub light_properties: LightProperties,
    pub direction: Vec3,
}

impl DirectionalLight {
    pub fn new(light_properties: LightProperties, direction: Vec3) -> (r: Self)
        ensures
            r == (DirectionalLight { light_properties, direction }),
    {
        Self { light_properties, direction }
    }
}

impl Light for DirectionalLight {
    open spec fn enabled_s(&self) -> bool {
        self.light_properties.is_enabled
    }

    open spec fn type_s(&self) -> LightType {
        self.light_properties.light_type
    }

    /// A directional light has no position; the slot reports its
    /// direction so the same interaction surface applies.
    open spec fn position_s(&self) -> Vec3 {
        self.direction
    }

    open spec fn toggled_s(&self) -> Self {
        DirectionalLight {
            light_properties: LightProperties {
                is_enabled: !self.light_properties.is_enabled,
                ..self.light_properties
            },
            ..*self
        }
    }

    /// `color * intensity`, independent of the surface point.
    open spec fn bi_radians_s(&self, position: V3) -> V3 {
        v_scale_s(self.light_properties.color@, self.light_properties.intensity as int)
    }

    /// The negated constant direction, independent of the point.
    open spec fn direction_s(&self, position: V3) -> V3 {
        v_neg_s(self.direction@)
    }

    /// No finite distance: shadow rays search the whole scene.
    open spec fn magnitude_s(&self, position: V3) -> int {
        FX_T_MAX as int
    }

    fn is_light_enabled(&self) -> (r: bool) {
        self.light_properties.is_enabled
    }

    fn get_type_light(&self) -> (r: LightType) {
        self.light_properties.light_type
    }

    fn get_position(&self) -> (r: &Vec3) {
        &self.direction
    }

    fn toggle_light(&mut self) {
        self.light_properties.toggle();
    }

    fn get_bi_radians(&self, position: &Vec3) -> (r: RGBColor) {
        self.light_properties.color.scale(self.light_properties.intensity)
    }

    fn get_direction(&self, position: &Vec3) -> (r: Vec3) {
        self.direction.neg()
    }

    fn get_direction_magnitude(&self, position: &Vec3, direction_magnitude: &mut i64) -> (r: Vec3) {
        *direction_magnitude = FX_T_MAX;
        self.direction.neg()
    }
}

// ---------------------------------------------------------------------
// The closed variant set
// ---------------------------------------------------------------------

/// The closed set of light variants a scene may hold.
#[derive(Clone, Copy, PartialEq, Eq, Structural, Debug)]
pub enum LightEnum {
    Point(PointLight),
    Directional(DirectionalLight),
}

impl Light for LightEnum {
    open spec fn enabled_s(&self) -> bool {
        match self {
            LightEnum::Point(l) => l.enabled_s(),
            LightEnum::Directional(l) => l.enabled_s(),
        }
    }

    open spec fn type_s(&self) -> LightType {
        match self {
            LightEnum::Point(l) => l.type_s(),
            LightEnum::Directional(l) => l.type_s(),
        }
    }

    open spec fn position_s(&self) -> Vec3 {
        match self {
            LightEnum::Point(l) => l.position_s(),
            LightEnum::Directional(l) => l.position_s(),
        }
    }

    open spec fn toggled_s(&self) -> Self {
        match self {
            LightEnum::Point(l) => LightEnum::Point(l.toggled_s()),
            LightEnum::Directional(l) => LightEnum::Directional(l.toggled_s()),
        }
    }

    open spec fn bi_radians_s(&self, position: V3) -> V3 {
        match self {
            LightEnum::Point(l) => l.bi_radians_s(position),
            LightEnum::Directional(l) => l.bi_radians_s(position),
        }
    }

    open spec fn direction_s(&self, position: V3) -> V3 {
        match self {
            LightEnum::Point(l) => l.direction_s(position),
            LightEnum::Directional(l) => l.direction_s(position),
        }
    }

    open spec fn magnitude_s(&self, position: V3) -> int {
        match self {
            LightEnum::Point(l) => l.magnitude_s(position),
            LightEnum::Directional(l) => l.magnitude_s(position),
        }
    }

    fn is_light_enabled(&self) -> (r: bool) {
        match self {
            LightEnum::Point(l) => l.is_light_enabled(),
            LightEnum::Directional(l) => l.is_light_enabled(),
        }
    }

    fn get_type_light(&self) -> (r: LightType) {
        match self {
            LightEnum::Point(l) => l.get_type_light(),
            LightEnum::Directional(l) => l.get_type_light(),
        }
    }

    fn get_position(&self) -> (r: &Vec3) {
        match self {
            LightEnum::Point(l) => l.get_position(),
            LightEnum::Directional(l) => l.get_position(),
        }
    }

    fn toggle_light(&mut self) {
        match self {
            LightEnum::Point(l) => l.toggle_light(),
            LightEnum::Directional(l) => l.toggle_light(),
        }
    }

    fn get_bi_radians(&self, position: &Vec3) -> (r: RGBColor) {
        match self {
            LightEnum::Point(l) => l.get_bi_radians(position),
            LightEnum::Directional(l) => l.get_bi_radians(position),
        }
    }

    fn get_direction(&self, position: &Vec3) -> (r: Vec3) {
        match self {
            LightEnum::Point(l) => l.get_direction(position),
            LightEnum::Directional(l) => l.get_direction(position),
        }
    }

    fn get_direction_magnitude(&self, position: &Vec3, direction_magnitude: &mut i64) -> (r: Vec3) {
        match self {
            LightEnum::Point(l) => l.get_direction_magnitude(position, direction_magnitude),
            LightEnum::Directional(l) => l.get_direction_magnitude(position, direction_magnitude),
        }
    }
}

impl LightEnum {
    pub open spec fn properties_s(self) -> LightProperties {
        match self {
            LightEnum::Point(l) => l.light_properties,
            LightEnum::Directional(l) => l.light_properties,
        }
    }

    pub open spec fn with_properties_s(self, p: LightProperties) -> Self {
        match self {
            LightEnum::Point(l) => LightEnum::Point(PointLight { light_properties: p, ..l }),
            LightEnum::Directional(l) => LightEnum::Directional(
                DirectionalLight { light_properties: p, ..l },
            ),
        }
    }

    pub open spec fn with_position_s(self, p: Vec3) -> Self {
        match self {
            LightEnum::Point(l) => LightEnum::Point(PointLight { position: p, ..l }),
            LightEnum::Directional(l) => LightEnum::Directional(
                DirectionalLight { direction: p, ..l },
            ),
        }
    }

    /// Moves the light: a point light's position, a directional
    /// light's direction (the slot both expose through
    /// `get_position`).
    pub fn set_position(&mut self, p: Vec3)
        ensures
            *final(self) == old(self).with_position_s(p),
    {
        match self {
            LightEnum::Point(l) => {
                l.position = p;
            },
            LightEnum::Directional(l) => {
                l.direction = p;
            },
        }
    }

    pub fn get_color(&self) -> (r: &RGBColor)
        ensures
            *r == self.properties_s().color,
    {
        match self {
            LightEnum::Point(l) => &l.light_properties.color,
            LightEnum::Directional(l) => &l.light_properties.color,
        }
    }

    pub fn set_color(&mut self, c: RGBColor)
        ensures
            *final(self) == old(self).with_properties_s(
                LightProperties { color: c, ..old(self).properties_s() },
            ),
    {
        match self {
            LightEnum::Point(l) => {
                l.light_properties.color = c;
            },
            LightEnum::Directional(l) => {
                l.light_properties.color = c;
            },
        }
    }

    pub fn get_intensity(&self) -> (r: i64)
        ensures
            r == self.properties_s().intensity,
    {
        match self {
            LightEnum::Point(l) => l.light_properties.intensity,
            LightEnum::Directional(l) => l.light_properties.intensity,
        }
    }

    pub fn set_intensity(&mut self, intensity: i64)
        ensures
            *final(self) == old(self).with_properties_s(
                LightProperties { intensity, ..old(self).properties_s() },
            ),
    {
        match self {
            LightEnum::Point(l) => {
                l.light_properties.intensity = intensity;
            },
            LightEnum::Directional(l) => {
                l.light_properties.intensity = intensity;
            },
        }
    }
}

} // verus!
