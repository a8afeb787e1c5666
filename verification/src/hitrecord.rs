//! Hit records: the mutable scratch result of an intersection query.

use vstd::prelude::*;

use crate::vec3::V3;
use crate::vec3::Vec3;
use crate::vec3::v_zero_s;

verus! {

/// The result of an intersection query, mutated in place by whichever
/// primitive currently holds the closest hit.
///
/// The material is a non-owning reference: an index into the material
/// catalog the scene was built against. `None` means no hit has been
/// recorded yet.
#[derive(Clone, Copy, PartialEq, Eq, Structural, Debug)]
pub struct HitRecord {
    pub hitpoint: Vec3,
    pub normal: Vec3,
    pub material: Option<usize>,
    pub t: i64,
}

/// The mathematical model of a `HitRecord`.
pub struct HitRecV {
    pub hitpoint: V3,
    pub normal: V3,
    pub material: Option<int>,
    pub t: int,
}

impl View for HitRecord {
    type V = HitRecV;

    open spec fn view(&self) -> HitRecV {
        HitRecV {
            hitpoint: self.hitpoint@,
            normal: self.normal@,
            material: match self.material {
                Some(m) => Some(m as int),
                None => None,
            },
            t: self.t as int,
        }
    }
}

impl HitRecord {
    pub fn new(hitpoint: Vec3, normal: Vec3, material: usize, t: i64) -> (r: Self)
        ensures
            r@.hitpoint == hitpoint@,
            r@.normal == normal@,
            r@.material == Some(material as int),
            r@.t == t as int,
    {
        Self { hitpoint, normal, material: Some(material), t }
    }
}

impl Default for HitRecord {
    fn default() -> (r: Self)
        ensures
            r@.hitpoint == v_zero_s(),
            r@.normal == v_zero_s(),
            r@.material == Option::<int>::None,
            r@.t == 0,
    {
        Self { hitpoint: Vec3::zero(), normal: Vec3::zero(), material: None, t: 0 }
    }
}

} // verus!
