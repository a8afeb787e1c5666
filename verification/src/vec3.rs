//! Three-component fixed-point vectors and colors.
//!
//! `Vec3` is the workhorse of the geometry and shading code; `RGBColor`
//! is the same type read as a color. The mathematical model of a vector
//! is `V3`, a triple of unbounded integers reached through `@`; every
//! operation has an exact specification over that model.

use vstd::prelude::*;

use crate::fixed::FX_ONE;
use crate::fixed::fx_add;
use crate::fixed::fx_add_s;
use crate::fixed::fx_div;
use crate::fixed::fx_div_s;
use crate::fixed::fx_max;
use crate::fixed::fx_max_s;
use crate::fixed::fx_mul;
use crate::fixed::fx_mul_s;
use crate::fixed::fx_neg;
use crate::fixed::fx_neg_s;
use crate::fixed::fx_sqrt;
use crate::fixed::fx_sqrt_s;
use crate::fixed::fx_sub;
use crate::fixed::fx_sub_s;
use crate::fixed::lemma_fx_div_mono;
use crate::fixed::lemma_fx_div_self;

verus! {

/// A vector of three fixed-point scalars.
#[derive(Clone, Copy, PartialEq, Eq, Structural, Debug)]
pub struct Vec3 {
    pub x: i64,
    pub y: i64,
    pub z: i64,
}

/// A color with red, green and blue channels; shares the vector
/// operations.
pub type RGBColor = Vec3;

/// The mathematical model of a `Vec3`: its components as integers.
pub struct V3 {
    pub x: int,
    pub y: int,
    pub z: int,
}

impl View for Vec3 {
    type V = V3;

    open spec fn view(&self) -> V3 {
        V3 { x: self.x as int, y: self.y as int, z: self.z as int }
    }
}

pub open spec fn v_zero_s() -> V3 {
    V3 { x: 0, y: 0, z: 0 }
}

/// Whether every component has magnitude at most `b`.
pub open spec fn v_bounded_s(a: V3, b: int) -> bool {
    &&& -b <= a.x <= b
    &&& -b <= a.y <= b
    &&& -b <= a.z <= b
}

/// Whether every component lies in the representable scalar range;
/// every vector operation's result does.
pub open spec fn v_in_range_s(a: V3) -> bool {
    crate::fixed::fx_in_range(a.x) && crate::fixed::fx_in_range(a.y) && crate::fixed::fx_in_range(
        a.z,
    )
}

pub open spec fn v_one_s() -> V3 {
    V3 { x: FX_ONE as int, y: FX_ONE as int, z: FX_ONE as int }
}

pub open spec fn v_add_s(a: V3, b: V3) -> V3 {
    V3 { x: fx_add_s(a.x, b.x), y: fx_add_s(a.y, b.y), z: fx_add_s(a.z, b.z) }
}

pub open spec fn v_sub_s(a: V3, b: V3) -> V3 {
    V3 { x: fx_sub_s(a.x, b.x), y: fx_sub_s(a.y, b.y), z: fx_sub_s(a.z, b.z) }
}

pub open spec fn v_neg_s(a: V3) -> V3 {
    V3 { x: fx_neg_s(a.x), y: fx_neg_s(a.y), z: fx_neg_s(a.z) }
}

/// Component-wise product; used for color modulation.
pub open spec fn v_mul_s(a: V3, b: V3) -> V3 {
    V3 { x: fx_mul_s(a.x, b.x), y: fx_mul_s(a.y, b.y), z: fx_mul_s(a.z, b.z) }
}

pub open spec fn v_scale_s(a: V3, k: int) -> V3 {
    V3 { x: fx_mul_s(a.x, k), y: fx_mul_s(a.y, k), z: fx_mul_s(a.z, k) }
}

pub open spec fn v_div_scalar_s(a: V3, k: int) -> V3 {
    V3 { x: fx_div_s(a.x, k), y: fx_div_s(a.y, k), z: fx_div_s(a.z, k) }
}

pub open spec fn v_dot_s(a: V3, b: V3) -> int {
    fx_add_s(fx_add_s(fx_mul_s(a.x, b.x), fx_mul_s(a.y, b.y)), fx_mul_s(a.z, b.z))
}

pub open spec fn v_cross_s(a: V3, b: V3) -> V3 {
    V3 {
        x: fx_sub_s(fx_mul_s(a.y, b.z), fx_mul_s(a.z, b.y)),
        y: fx_sub_s(fx_mul_s(a.z, b.x), fx_mul_s(a.x, b.z)),
        z: fx_sub_s(fx_mul_s(a.x, b.y), fx_mul_s(a.y, b.x)),
    }
}

pub open spec fn v_len_sq_s(a: V3) -> int {
    v_dot_s(a, a)
}

pub open spec fn v_len_s(a: V3) -> int {
    fx_sqrt_s(v_len_sq_s(a))
}

/// Normalization; the zero vector stays the zero vector.
pub open spec fn v_norm_s(a: V3) -> V3 {
    let m = v_len_s(a);
    if m == 0 {
        v_zero_s()
    } else {
        V3 { x: fx_div_s(a.x, m), y: fx_div_s(a.y, m), z: fx_div_s(a.z, m) }
    }
}

pub open spec fn v_dist_sq_s(a: V3, b: V3) -> int {
    v_len_sq_s(v_sub_s(a, b))
}

/// Projection of `a` onto `b`.
pub open spec fn v_project_s(a: V3, b: V3) -> V3 {
    v_scale_s(b, fx_div_s(v_dot_s(a, b), v_len_sq_s(b)))
}

/// Component of `a` orthogonal to `b`.
pub open spec fn v_reject_s(a: V3, b: V3) -> V3 {
    v_sub_s(a, v_project_s(a, b))
}

/// Mirror reflection of direction `d` about the normal `n`:
/// `d - n * (2 * dot(d, n))`.
pub open spec fn v_reflect_s(d: V3, n: V3) -> V3 {
    v_sub_s(d, v_scale_s(n, fx_mul_s(v_dot_s(d, n), 2 * FX_ONE as int)))
}

impl Vec3 {
    pub fn new(x: i64, y: i64, z: i64) -> (r: Self)
        ensures
            r@ == (V3 { x: x as int, y: y as int, z: z as int }),
    {
        Vec3 { x, y, z }
    }

    pub fn zero() -> (r: Self)
        ensures
            r@ == v_zero_s(),
    {
        Vec3 { x: 0, y: 0, z: 0 }
    }

    pub fn one() -> (r: Self)
        ensures
            r@ == v_one_s(),
    {
        Vec3 { x: FX_ONE, y: FX_ONE, z: FX_ONE }
    }

    pub fn add(&self, rhs: &Vec3) -> (r: Vec3)
        ensures
            r@ == v_add_s(self@, rhs@),
    {
        Vec3 { x: fx_add(self.x, rhs.x), y: fx_add(self.y, rhs.y), z: fx_add(self.z, rhs.z) }
    }

    pub fn sub(&self, rhs: &Vec3) -> (r: Vec3)
        ensures
            r@ == v_sub_s(self@, rhs@),
    {
        Vec3 { x: fx_sub(self.x, rhs.x), y: fx_sub(self.y, rhs.y), z: fx_sub(self.z, rhs.z) }
    }

    pub fn neg(&self) -> (r: Vec3)
        ensures
            r@ == v_neg_s(self@),
    {
        Vec3 { x: fx_neg(self.x), y: fx_neg(self.y), z: fx_neg(self.z) }
    }

    pub fn mul(&self, rhs: &Vec3) -> (r: Vec3)
        ensures
            r@ == v_mul_s(self@, rhs@),
    {
        Vec3 { x: fx_mul(self.x, rhs.x), y: fx_mul(self.y, rhs.y), z: fx_mul(self.z, rhs.z) }
    }

    pub fn scale(&self, k: i64) -> (r: Vec3)
        ensures
            r@ == v_scale_s(self@, k as int),
    {
        Vec3 { x: fx_mul(self.x, k), y: fx_mul(self.y, k), z: fx_mul(self.z, k) }
    }

    pub fn div_scalar(&self, k: i64) -> (r: Vec3)
        ensures
            r@ == v_div_scalar_s(self@, k as int),
    {
        Vec3 { x: fx_div(self.x, k), y: fx_div(self.y, k), z: fx_div(self.z, k) }
    }

    pub fn dot(&self, rhs: &Vec3) -> (r: i64)
        ensures
            r as int == v_dot_s(self@, rhs@),
    {
        fx_add(fx_add(fx_mul(self.x, rhs.x), fx_mul(self.y, rhs.y)), fx_mul(self.z, rhs.z))
    }

    pub fn cross(&self, rhs: &Vec3) -> (r: Vec3)
        ensures
            r@ == v_cross_s(self@, rhs@),
    {
        Vec3 {
            x: fx_sub(fx_mul(self.y, rhs.z), fx_mul(self.z, rhs.y)),
            y: fx_sub(fx_mul(self.z, rhs.x), fx_mul(self.x, rhs.z)),
            z: fx_sub(fx_mul(self.x, rhs.y), fx_mul(self.y, rhs.x)),
        }
    }

    pub fn length_squared(&self) -> (r: i64)
        ensures
            r as int == v_len_sq_s(self@),
    {
        self.dot(self)
    }

    pub fn length(&self) -> (r: i64)
        ensures
            r as int == v_len_s(self@),
            r >= 0,
    {
        fx_sqrt(self.length_squared())
    }

    pub fn normalize(&self) -> (r: Vec3)
        ensures
            r@ == v_norm_s(self@),
    {
        let m = self.length();
        if m == 0 {
            Vec3::zero()
        } else {
            Vec3 { x: fx_div(self.x, m), y: fx_div(self.y, m), z: fx_div(self.z, m) }
        }
    }

    pub fn distance_squared(&self, rhs: &Vec3) -> (r: i64)
        ensures
            r as int == v_dist_sq_s(self@, rhs@),
    {
        self.sub(rhs).length_squared()
    }

    pub fn project_onto(&self, rhs: &Vec3) -> (r: Vec3)
        ensures
            r@ == v_project_s(self@, rhs@),
    {
        rhs.scale(fx_div(self.dot(rhs), rhs.length_squared()))
    }

    pub fn reject_from(&self, rhs: &Vec3) -> (r: Vec3)
        ensures
            r@ == v_reject_s(self@, rhs@),
    {
        self.sub(&self.project_onto(rhs))
    }

    pub fn reflect(&self, normal: &Vec3) -> (r: Vec3)
        ensures
            r@ == v_reflect_s(self@, normal@),
    {
        self.sub(&normal.scale(fx_mul(self.dot(normal), 2 * FX_ONE)))
    }
}

/// The largest channel of a color.
pub open spec fn max_channel_s(c: V3) -> int {
    fx_max_s(fx_max_s(c.x, c.y), c.z)
}

/// Gamut clamp: when some channel exceeds one, every channel is divided
/// by the largest channel, preserving the channel ratios; colors inside
/// the unit cube are left alone.
pub open spec fn tone_map_s(c: V3) -> V3 {
    let m = max_channel_s(c);
    if m > FX_ONE as int {
        V3 { x: fx_div_s(c.x, m), y: fx_div_s(c.y, m), z: fx_div_s(c.z, m) }
    } else {
        c
    }
}

/// Contract surface for color-valued types that can be gamut-clamped.
pub trait ColorTypeFunctionality: Sized {
    spec fn tone_mapped(&self, r: Self) -> bool;

    fn max_to_one(&mut self)
        ensures
            old(self).tone_mapped(*final(self)),
    ;
}

impl ColorTypeFunctionality for Vec3 {
    open spec fn tone_mapped(&self, r: Vec3) -> bool {
        r@ == tone_map_s(self@)
    }

    fn max_to_one(&mut self)
        ensures
            final(self)@ == tone_map_s(old(self)@),
    {
        let m = fx_max(fx_max(self.x, self.y), self.z);
        if m > FX_ONE {
            *self = Vec3 { x: fx_div(self.x, m), y: fx_div(self.y, m), z: fx_div(self.z, m) };
        }
    }
}

/// Tone mapping sends the largest channel of an out-of-gamut color to
/// exactly one, and no channel above one.
pub proof fn lemma_tone_map_max_one(c: V3)
    requires
        max_channel_s(c) > FX_ONE as int,
    ensures
        max_channel_s(tone_map_s(c)) == FX_ONE as int,
{
    let m = max_channel_s(c);
    lemma_fx_div_self(m);
    lemma_fx_div_mono(c.x, m, m);
    lemma_fx_div_mono(c.y, m, m);
    lemma_fx_div_mono(c.z, m, m);
}

/// Tone mapping is a no-op on colors already inside the unit cube.
pub proof fn lemma_tone_map_noop_in_gamut(c: V3)
    requires
        max_channel_s(c) <= FX_ONE as int,
    ensures
        tone_map_s(c) == c,
{
}

/// Tone mapping is idempotent: a color inside the unit cube is left
/// alone, and a clamped color is already inside it.
pub proof fn lemma_tone_map_idempotent(c: V3)
    ensures
        tone_map_s(tone_map_s(c)) == tone_map_s(c),
{
    if max_channel_s(c) > FX_ONE as int {
        lemma_tone_map_max_one(c);
    }
}

/// Tone mapping preserves hue: each channel of an out-of-gamut color is
/// divided by the same positive maximum, so the order of the channels
/// is unchanged.
pub proof fn lemma_tone_map_hue_preserving(c: V3)
    requires
        max_channel_s(c) > FX_ONE as int,
    ensures
        tone_map_s(c).x == fx_div_s(c.x, max_channel_s(c)),
        tone_map_s(c).y == fx_div_s(c.y, max_channel_s(c)),
        tone_map_s(c).z == fx_div_s(c.z, max_channel_s(c)),
        c.x <= c.y ==> tone_map_s(c).x <= tone_map_s(c).y,
        c.y <= c.x ==> tone_map_s(c).y <= tone_map_s(c).x,
        c.y <= c.z ==> tone_map_s(c).y <= tone_map_s(c).z,
        c.z <= c.y ==> tone_map_s(c).z <= tone_map_s(c).y,
        c.x <= c.z ==> tone_map_s(c).x <= tone_map_s(c).z,
        c.z <= c.x ==> tone_map_s(c).z <= tone_map_s(c).x,
{
    let m = max_channel_s(c);
    if c.x <= c.y {
        lemma_fx_div_mono(c.x, c.y, m);
    }
    if c.y <= c.x {
        lemma_fx_div_mono(c.y, c.x, m);
    }
    if c.y <= c.z {
        lemma_fx_div_mono(c.y, c.z, m);
    }
    if c.z <= c.y {
        lemma_fx_div_mono(c.z, c.y, m);
    }
    if c.x <= c.z {
        lemma_fx_div_mono(c.x, c.z, m);
    }
    if c.z <= c.x {
        lemma_fx_div_mono(c.z, c.x, m);
    }
}

} // verus!
