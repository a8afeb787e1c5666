//! The camera: an orthonormal view basis and a camera-to-world
//! transform, recomputed lazily on a dirty flag.
//!
//! The projection scale factor (the tangent of half the field of view)
//! is transcendental, so it is supplied by the caller alongside the
//! field-of-view angle; everything derived from it here is exact.

use vstd::prelude::*;

use crate::fixed::FX_ONE;
use crate::fixed::FX_PI;
use crate::fixed::fx_add;
use crate::fixed::fx_add_s;
use crate::fixed::fx_div;
use crate::fixed::fx_div_s;
use crate::fixed::fx_mul;
use crate::fixed::fx_mul_s;
use crate::vec3::V3;
use crate::vec3::Vec3;
use crate::vec3::v_cross_s;
use crate::vec3::v_norm_s;
use crate::vec3::v_scale_s;
use crate::vec3::v_sub_s;

verus! {

/// A four-component fixed-point vector; the fourth component
/// distinguishes points from directions under the look-at transform.
#[derive(Clone, Copy, PartialEq, Eq, Structural, Debug)]
pub struct Vec4 {
    pub x: i64,
    pub y: i64,
    pub z: i64,
    pub w: i64,
}

/// The mathematical model of a `Vec4`.
pub struct V4 {
    pub x: int,
    pub y: int,
    pub z: int,
    pub w: int,
}

impl View for Vec4 {
    type V = V4;

    open spec fn view(&self) -> V4 {
        V4 { x: self.x as int, y: self.y as int, z: self.z as int, w: self.w as int }
    }
}

pub open spec fn v4_add_s(a: V4, b: V4) -> V4 {
    V4 {
        x: fx_add_s(a.x, b.x),
        y: fx_add_s(a.y, b.y),
        z: fx_add_s(a.z, b.z),
        w: fx_add_s(a.w, b.w),
    }
}

pub open spec fn v4_scale_s(a: V4, k: int) -> V4 {
    V4 { x: fx_mul_s(a.x, k), y: fx_mul_s(a.y, k), z: fx_mul_s(a.z, k), w: fx_mul_s(a.w, k) }
}

pub open spec fn v4_truncate_s(a: V4) -> V3 {
    V3 { x: a.x, y: a.y, z: a.z }
}

pub open spec fn v3_extend_s(a: V3, w: int) -> V4 {
    V4 { x: a.x, y: a.y, z: a.z, w }
}

impl Vec4 {
    pub fn new(x: i64, y: i64, z: i64, w: i64) -> (r: Self)
        ensures
            r@ == (V4 { x: x as int, y: y as int, z: z as int, w: w as int }),
    {
        Vec4 { x, y, z, w }
    }

    pub fn add(&self, rhs: &Vec4) -> (r: Vec4)
        ensures
            r@ == v4_add_s(self@, rhs@),
    {
        Vec4 {
            x: fx_add(self.x, rhs.x),
            y: fx_add(self.y, rhs.y),
            z: fx_add(self.z, rhs.z),
            w: fx_add(self.w, rhs.w),
        }
    }

    pub fn scale(&self, k: i64) -> (r: Vec4)
        ensures
            r@ == v4_scale_s(self@, k as int),
    {
        Vec4 {
            x: fx_mul(self.x, k),
            y: fx_mul(self.y, k),
            z: fx_mul(self.z, k),
            w: fx_mul(self.w, k),
        }
    }

    /// Drops the fourth component.
    pub fn truncate(&self) -> (r: Vec3)
        ensures
            r@ == v4_truncate_s(self@),
    {
        Vec3 { x: self.x, y: self.y, z: self.z }
    }
}

impl Vec3 {
    /// Extends a vector with a fourth component.
    pub fn extend(&self, w: i64) -> (r: Vec4)
        ensures
            r@ == v3_extend_s(self@, w as int),
    {
        Vec4 { x: self.x, y: self.y, z: self.z, w }
    }
}

/// A column-major four-by-four transform.
#[derive(Clone, Copy, PartialEq, Eq, Structural, Debug)]
pub struct Mat4 {
    pub x_axis: Vec4,
    pub y_axis: Vec4,
    pub z_axis: Vec4,
    pub w_axis: Vec4,
}

/// The mathematical model of a `Mat4`.
pub struct Mat4V {
    pub x_axis: V4,
    pub y_axis: V4,
    pub z_axis: V4,
    pub w_axis: V4,
}

impl View for Mat4 {
    type V = Mat4V;

    open spec fn view(&self) -> Mat4V {
        Mat4V {
            x_axis: self.x_axis@,
            y_axis: self.y_axis@,
            z_axis: self.z_axis@,
            w_axis: self.w_axis@,
        }
    }
}

/// Matrix-vector product: the columns weighted by the vector's
/// components and summed.
pub open spec fn mat4_mul_v4_s(m: Mat4V, v: V4) -> V4 {
    v4_add_s(
        v4_add_s(v4_add_s(v4_scale_s(m.x_axis, v.x), v4_scale_s(m.y_axis, v.y)), v4_scale_s(
            m.z_axis,
            v.z,
        )),
        v4_scale_s(m.w_axis, v.w),
    )
}

impl Mat4 {
    pub fn mul_vec4(&self, v: &Vec4) -> (r: Vec4)
        ensures
            r@ == mat4_mul_v4_s(self@, v@),
    {
        self.x_axis.scale(v.x).add(&self.y_axis.scale(v.y)).add(&self.z_axis.scale(v.z)).add(
            &self.w_axis.scale(v.w),
        )
    }
}

/// The world's up direction.
pub open spec fn world_up_s() -> V3 {
    V3 { x: 0, y: FX_ONE as int, z: 0 }
}

/// The right vector the camera derives from its forward vector.
pub open spec fn camera_right_s(forward: V4) -> V4 {
    v3_extend_s(v_norm_s(v_cross_s(world_up_s(), v4_truncate_s(forward))), 0)
}

/// The up vector the camera derives from its forward and right
/// vectors.
pub open spec fn camera_up_s(forward: V4, right: V4) -> V4 {
    v3_extend_s(v_norm_s(v_cross_s(v4_truncate_s(forward), v4_truncate_s(right))), 0)
}

/// The camera-to-world transform: the basis as columns and the
/// position as the translation column.
pub open spec fn camera_look_at_s(forward: V4, position: V3) -> Mat4V {
    let right = camera_right_s(forward);
    let up = camera_up_s(forward, right);
    Mat4V {
        x_axis: v3_extend_s(v4_truncate_s(right), 0),
        y_axis: v3_extend_s(v4_truncate_s(up), 0),
        z_axis: v3_extend_s(v4_truncate_s(forward), 0),
        w_axis: V4 { x: position.x, y: position.y, z: position.z, w: FX_ONE as int },
    }
}

/// The movements the camera-control surface can request.
#[derive(Clone, Copy, PartialEq, Eq, Structural, Debug)]
pub enum CameraMovement {
    Forward,
    Backward,
    Left,
    Right,
    Up,
    Down,
}

pub struct Camera {
    pub look_at: Mat4,
    pub forward_vector: Vec4,
    pub right_vector: Vec4,
    pub up_vector: Vec4,
    pub position: Vec3,
    pub fov: i64,
    pub speed: i64,
    pub scale_factor: i64,
    pub update_look_at: bool,
}

impl Camera {
    /// A camera at `position` looking along the world's z axis.
    /// `scale_factor` must be supplied as the tangent of half the
    /// field-of-view angle `fov` (given in degrees); the tangent is
    /// not computed here.
    pub fn new(position: Vec3, fov: i64, scale_factor: i64) -> (r: Self)
        ensures
            r.position == position,
            r.fov == fov,
            r.scale_factor == scale_factor,
            r.forward_vector@ == (V4 { x: 0, y: 0, z: FX_ONE as int, w: 0 }),
            r.right_vector@ == camera_right_s(r.forward_vector@),
            r.up_vector@ == camera_up_s(r.forward_vector@, r.right_vector@),
            r.look_at@ == camera_look_at_s(r.forward_vector@, position@),
            r.speed == 15 * FX_ONE,
            !r.update_look_at,
    {
        let mut camera = Self {
            look_at: Mat4 {
                x_axis: Vec4 { x: 0, y: 0, z: 0, w: 0 },
                y_axis: Vec4 { x: 0, y: 0, z: 0, w: 0 },
                z_axis: Vec4 { x: 0, y: 0, z: 0, w: 0 },
                w_axis: Vec4 { x: 0, y: 0, z: 0, w: 0 },
            },
            forward_vector: Vec4 { x: 0, y: 0, z: FX_ONE, w: 0 },
            right_vector: Vec4 { x: 0, y: 0, z: 0, w: 0 },
            up_vector: Vec4 { x: 0, y: 0, z: 0, w: 0 },
            position,
            fov,
            speed: 15 * FX_ONE,
            scale_factor,
            update_look_at: false,
        };
        camera.calculate_look_at();
        camera
    }

    pub fn set_fov(&mut self, fov: i64, scale_factor: i64)
        ensures
            *final(self) == (Camera { fov, scale_factor, ..*old(self) }),
    {
        self.fov = fov;
        self.scale_factor = scale_factor;
    }

    pub fn get_forward_vector(&self) -> (r: Vec3)
        ensures
            r@ == v4_truncate_s(self.forward_vector@),
    {
        self.forward_vector.truncate()
    }

    /// The field of view converted from degrees to radians.
    pub fn get_fov_radians(&self) -> (r: i64)
        ensures
            r as int == fx_div_s(fx_mul_s(self.fov as int, FX_PI as int), 180 * FX_ONE as int),
    {
        fx_div(fx_mul(self.fov, FX_PI), 180 * FX_ONE)
    }

    pub fn get_fov_degrees(&self) -> (r: i64)
        ensures
            r == self.fov,
    {
        self.fov
    }

    pub fn get_scale_factor(&self) -> (r: i64)
        ensures
            r == self.scale_factor,
    {
        self.scale_factor
    }

    /// Recomputes the transform when a movement or rotation marked it
    /// stale.
    pub fn update_look_at(&mut self)
        ensures
            final(self).forward_vector == old(self).forward_vector,
            final(self).position == old(self).position,
            final(self).fov == old(self).fov,
            final(self).speed == old(self).speed,
            final(self).scale_factor == old(self).scale_factor,
            final(self).update_look_at == old(self).update_look_at,
            old(self).update_look_at ==> final(self).right_vector@ == camera_right_s(
                old(self).forward_vector@,
            ) && final(self).up_vector@ == camera_up_s(
                old(self).forward_vector@,
                final(self).right_vector@,
            ) && final(self).look_at@ == camera_look_at_s(
                old(self).forward_vector@,
                old(self).position@,
            ),
            !old(self).update_look_at ==> *final(self) == *old(self),
    {
        if self.update_look_at {
            self.calculate_look_at();
        }
    }

    /// Moves the camera along its basis (or the world's up axis) by
    /// `speed * delta_time` and marks the transform stale.
    pub fn camera_translation(&mut self, delta_time: i64, movement: CameraMovement)
        ensures
            ({
                let step = fx_mul_s(old(self).speed as int, delta_time as int);
                let pos = old(self).position@;
                final(self).position@ == match movement {
                    CameraMovement::Forward => v_sub_s(
                        pos,
                        v_scale_s(v4_truncate_s(old(self).forward_vector@), step),
                    ),
                    CameraMovement::Backward => crate::vec3::v_add_s(
                        pos,
                        v_scale_s(v4_truncate_s(old(self).forward_vector@), step),
                    ),
                    CameraMovement::Left => v_sub_s(
                        pos,
                        v_scale_s(v4_truncate_s(old(self).right_vector@), step),
                    ),
                    CameraMovement::Right => crate::vec3::v_add_s(
                        pos,
                        v_scale_s(v4_truncate_s(old(self).right_vector@), step),
                    ),
                    CameraMovement::Up => crate::vec3::v_add_s(
                        pos,
                        v_scale_s(world_up_s(), step),
                    ),
                    CameraMovement::Down => v_sub_s(pos, v_scale_s(world_up_s(), step)),
                }
            }),
            final(self).update_look_at,
            final(self).forward_vector == old(self).forward_vector,
            final(self).right_vector == old(self).right_vector,
            final(self).up_vector == old(self).up_vector,
            final(self).look_at == old(self).look_at,
            final(self).fov == old(self).fov,
            final(self).speed == old(self).speed,
            final(self).scale_factor == old(self).scale_factor,
    {
        let step = fx_mul(self.speed, delta_time);
        match movement {
            CameraMovement::Forward => {
                self.position = self.position.sub(&self.forward_vector.truncate().scale(step));
            },
            CameraMovement::Backward => {
                self.position = self.position.add(&self.forward_vector.truncate().scale(step));
            },
            CameraMovement::Left => {
                self.position = self.position.sub(&self.right_vector.truncate().scale(step));
            },
            CameraMovement::Right => {
                self.position = self.position.add(&self.right_vector.truncate().scale(step));
            },
            CameraMovement::Up => {
                self.position = self.position.add(&Vec3 { x: 0, y: FX_ONE, z: 0 }.scale(step));
            },
            CameraMovement::Down => {
                self.position = self.position.sub(&Vec3 { x: 0, y: FX_ONE, z: 0 }.scale(step));
            },
        }
        self.update_look_at = true;
    }

    /// Replaces the forward vector (rotation is computed by the
    /// interaction layer) and marks the transform stale.
    pub fn set_forward_vector(&mut self, forward: Vec4)
        ensures
            final(self).forward_vector == forward,
            final(self).update_look_at,
            final(self).position == old(self).position,
            final(self).right_vector == old(self).right_vector,
            final(self).up_vector == old(self).up_vector,
            final(self).look_at == old(self).look_at,
            final(self).fov == old(self).fov,
            final(self).speed == old(self).speed,
            final(self).scale_factor == old(self).scale_factor,
    {
        self.forward_vector = forward;
        self.update_look_at = true;
    }

    fn calculate_look_at(&mut self)
        ensures
            final(self).right_vector@ == camera_right_s(old(self).forward_vector@),
            final(self).up_vector@ == camera_up_s(
                old(self).forward_vector@,
                final(self).right_vector@,
            ),
            final(self).look_at@ == camera_look_at_s(
                old(self).forward_vector@,
                old(self).position@,
            ),
            final(self).forward_vector == old(self).forward_vector,
            final(self).position == old(self).position,
            final(self).fov == old(self).fov,
            final(self).speed == old(self).speed,
            final(self).scale_factor == old(self).scale_factor,
            final(self).update_look_at == old(self).update_look_at,
    {
        let world_up = Vec3 { x: 0, y: FX_ONE, z: 0 };
        self.right_vector = world_up.cross(&self.forward_vector.truncate()).normalize().extend(0);
        self.up_vector = self.forward_vector.truncate().cross(
            &self.right_vector.truncate(),
        ).normalize().extend(0);
        self.look_at = Mat4 {
            x_axis: self.right_vector.truncate().extend(0),
            y_axis: self.up_vector.truncate().extend(0),
            z_axis: self.forward_vector.truncate().extend(0),
            w_axis: Vec4 {
                x: self.position.x,
                y: self.position.y,
                z: self.position.z,
                w: FX_ONE,
            },
        };
    }
}

} // verus!
