//! Rays: an origin and direction with a valid parametric interval.

use vstd::prelude::*;

use crate::fixed::FX_SURFACE_EPS;
use crate::fixed::FX_T_MAX;
use crate::vec3::V3;
use crate::vec3::Vec3;
use crate::vec3::v_add_s;
use crate::vec3::v_scale_s;
use crate::vec3::v_zero_s;

verus! {

/// A ray with its valid parametric interval `[t_min, t_max]`.
///
/// The interval is public state: the scene traversal tightens `t_max`
/// monotonically as closer hits are found.
#[derive(Clone, Copy, PartialEq, Eq, Structural, Debug)]
pub struct Ray {
    pub origin: Vec3,
    pub direction: Vec3,
    pub t_min: i64,
    pub t_max: i64,
}

/// The mathematical model of a `Ray`.
pub struct RayV {
    pub origin: V3,
    pub direction: V3,
    pub t_min: int,
    pub t_max: int,
}

impl View for Ray {
    type V = RayV;

    open spec fn view(&self) -> RayV {
        RayV {
            origin: self.origin@,
            direction: self.direction@,
            t_min: self.t_min as int,
            t_max: self.t_max as int,
        }
    }
}

/// The point a parameter `t` along a ray: `origin + direction * t`.
pub open spec fn ray_at_s(r: RayV, t: int) -> V3 {
    v_add_s(r.origin, v_scale_s(r.direction, t))
}

impl Ray {
    /// A ray over the default interval: a small positive lower bound
    /// against self-intersection, and no upper bound.
    pub fn new(origin: Vec3, direction: Vec3) -> (r: Self)
        ensures
            r@.origin == origin@,
            r@.direction == direction@,
            r@.t_min == FX_SURFACE_EPS as int,
            r@.t_max == FX_T_MAX as int,
    {
        Self { origin, direction, t_min: FX_SURFACE_EPS, t_max: FX_T_MAX }
    }

    pub fn new_with_limits(origin: Vec3, direction: Vec3, t_min: i64, t_max: i64) -> (r: Self)
        ensures
            r@.origin == origin@,
            r@.direction == direction@,
            r@.t_min == t_min as int,
            r@.t_max == t_max as int,
    {
        Self { origin, direction, t_min, t_max }
    }

    pub fn at(&self, t: i64) -> (r: Vec3)
        ensures
            r@ == ray_at_s(self@, t as int),
    {
        self.origin.add(&self.direction.scale(t))
    }
}

impl Default for Ray {
    fn default() -> (r: Self)
        ensures
            r@.origin == v_zero_s(),
            r@.direction == v_zero_s(),
            r@.t_min == FX_SURFACE_EPS as int,
            r@.t_max == FX_T_MAX as int,
    {
        Self { origin: Vec3::zero(), direction: Vec3::zero(), t_min: FX_SURFACE_EPS, t_max: FX_T_MAX }
    }
}

} // verus!
