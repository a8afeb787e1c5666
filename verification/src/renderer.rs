//! The renderer: camera-ray generation per pixel, the recursive
//! depth-bounded bounce loop over the scene and lights, tone mapping,
//! and packing into a caller-visible 32-bit pixel buffer.
//!
//! `calc_color_s` is the exact mathematical model of the light
//! transport: what one pixel's radiance is, for any scene, lights,
//! materials and settings.

use vstd::prelude::*;

use crate::camera::Camera;
use crate::camera::V4;
use crate::camera::Vec4;
use crate::camera::mat4_mul_v4_s;
use crate::camera::v4_truncate_s;
use crate::fixed::FX_ONE;
use crate::fixed::FX_SURFACE_EPS;
use crate::fixed::FX_T_MAX;
use crate::fixed::fx_div;
use crate::fixed::fx_div_s;
use crate::fixed::fx_mul;
use crate::fixed::fx_mul_s;
use crate::fixed::fx_sub;
use crate::fixed::fx_sub_s;
use crate::hitrecord::HitRecV;
use crate::hitrecord::HitRecord;
use crate::lights::Light;
use crate::lights::LightEnum;
use crate::materials::Material;
use crate::materials::MaterialEnum;
use crate::objects::ObjectEnum;
use crate::ray::Ray;
use crate::ray::RayV;
use crate::scenegraph::Scenegraph;
use crate::scenegraph::scene_fold_s;
use crate::vec3::ColorTypeFunctionality;
use crate::vec3::RGBColor;
use crate::vec3::V3;
use crate::vec3::tone_map_s;
use crate::vec3::v_add_s;
use crate::vec3::v_dot_s;
use crate::vec3::v_mul_s;
use crate::vec3::v_norm_s;
use crate::vec3::v_reflect_s;
use crate::vec3::v_scale_s;
use crate::vec3::v_sub_s;
use crate::vec3::v_zero_s;

verus! {

/// The horizontal view-plane coordinate of a pixel column: the
/// standard `2 * (x + 0.5) / width - 1` mapping, scaled by the aspect
/// ratio and the camera's projection scale factor.
pub open spec fn ray_coord_x_s(x: int, scale_factor: int, width: int, aspect_ratio: int) -> int {
    fx_mul_s(
        fx_mul_s(
            fx_sub_s(
                fx_mul_s(
                    2 * FX_ONE as int,
                    fx_div_s(x * FX_ONE as int + 32768, width * FX_ONE as int),
                ),
                FX_ONE as int,
            ),
            aspect_ratio,
        ),
        scale_factor,
    )
}

/// The vertical view-plane coordinate of a pixel row:
/// `1 - 2 * (y + 0.5) / height`, scaled by the projection scale
/// factor.
pub open spec fn ray_coord_y_s(y: int, scale_factor: int, height: int) -> int {
    fx_mul_s(
        fx_sub_s(
            FX_ONE as int,
            fx_mul_s(
                2 * FX_ONE as int,
                fx_div_s(y * FX_ONE as int + 32768, height * FX_ONE as int),
            ),
        ),
        scale_factor,
    )
}

/// One color channel quantized to 8 bits, clamped to the byte range.
pub open spec fn channel_byte_s(c: int) -> int {
    if c <= 0 {
        0
    } else {
        let q = (c * 255) / FX_ONE as int;
        if q > 255 {
            255
        } else {
            q
        }
    }
}

/// A color packed into a 32-bit pixel, red in the highest used byte.
pub open spec fn pack_rgb_s(c: V3) -> int {
    channel_byte_s(c.x) * 0x10000 + channel_byte_s(c.y) * 0x100 + channel_byte_s(c.z)
}

/// The fresh record every traversal starts from.
pub open spec fn default_rec_s() -> HitRecV {
    HitRecV { hitpoint: v_zero_s(), normal: v_zero_s(), material: None, t: 0 }
}

/// Resolves a record's material reference against the catalog; an
/// absent or out-of-catalog reference resolves to nothing.
pub open spec fn mat_at_s(mats: Seq<MaterialEnum>, m: Option<int>) -> Option<MaterialEnum> {
    match m {
        Some(mi) => if 0 <= mi < mats.len() {
            Some(mats[mi])
        } else {
            None
        },
        None => None,
    }
}

/// The shadow ray cast from a hit toward a light: the origin offset
/// along the surface normal by the configured epsilon, bounded below
/// by the same epsilon and above by the distance to the light.
pub open spec fn shadow_ray_s(light: LightEnum, rec: HitRecV) -> RayV {
    RayV {
        origin: v_add_s(rec.hitpoint, v_scale_s(rec.normal, FX_SURFACE_EPS as int)),
        direction: light.direction_s(rec.hitpoint),
        t_min: FX_SURFACE_EPS as int,
        t_max: light.magnitude_s(rec.hitpoint),
    }
}

/// The radiance one light adds under the active render mode: the full
/// product of radiance, cosine and BRDF; radiance only; or BRDF only.
pub open spec fn mode_term_s(
    render_mode: u8,
    light: LightEnum,
    lambert_cosine_law: int,
    rec: HitRecV,
    ray_direction: V3,
    mats: Seq<MaterialEnum>,
) -> V3 {
    if render_mode == 0 {
        match mat_at_s(mats, rec.material) {
            Some(m) => v_mul_s(
                v_scale_s(light.bi_radians_s(rec.hitpoint), lambert_cosine_law),
                m.shade_s(
                    rec,
                    light.direction_s(rec.hitpoint),
                    v_scale_s(ray_direction, -(FX_ONE as int)),
                ),
            ),
            None => v_zero_s(),
        }
    } else if render_mode == 1 {
        v_scale_s(light.bi_radians_s(rec.hitpoint), lambert_cosine_law)
    } else if render_mode == 2 {
        match mat_at_s(mats, rec.material) {
            Some(m) => v_scale_s(
                m.shade_s(
                    rec,
                    light.direction_s(rec.hitpoint),
                    v_scale_s(ray_direction, -(FX_ONE as int)),
                ),
                lambert_cosine_law,
            ),
            None => v_zero_s(),
        }
    } else {
        v_zero_s()
    }
}

/// What one light contributes at a hit: nothing if it is disabled,
/// occluded (when hard shadows are on), or below the surface horizon;
/// otherwise its mode term.
pub open spec fn light_contrib_s(
    light: LightEnum,
    objs: Seq<ObjectEnum>,
    mats: Seq<MaterialEnum>,
    rec: HitRecV,
    ray_direction: V3,
    shadows: bool,
    render_mode: u8,
) -> V3 {
    if !light.enabled_s() {
        v_zero_s()
    } else if shadows && scene_fold_s(objs, shadow_ray_s(light, rec), default_rec_s(), true, false).0 {
        v_zero_s()
    } else {
        let cos = v_dot_s(rec.normal, light.direction_s(rec.hitpoint));
        if cos < 0 {
            v_zero_s()
        } else {
            mode_term_s(render_mode, light, cos, rec, ray_direction, mats)
        }
    }
}

/// The lights' contributions accumulated in order.
pub open spec fn light_sum_s(
    lights: Seq<LightEnum>,
    objs: Seq<ObjectEnum>,
    mats: Seq<MaterialEnum>,
    rec: HitRecV,
    ray_direction: V3,
    shadows: bool,
    render_mode: u8,
    acc: V3,
) -> V3
    decreases lights.len(),
{
    if lights.len() == 0 {
        acc
    } else {
        light_sum_s(
            lights.drop_first(),
            objs,
            mats,
            rec,
            ray_direction,
            shadows,
            render_mode,
            v_add_s(acc, light_contrib_s(lights[0], objs, mats, rec, ray_direction, shadows, render_mode)),
        )
    }
}

/// The exact model of the bounce loop.
///
/// Black once the bounce budget is spent or the ray escapes; otherwise
/// the direct lighting at the nearest hit, plus — when the hit
/// material reflects its environment — the mirror-reflected
/// continuation, attenuated by the reflectiveness recorded at the
/// first hit and by the reflection's own cosine term. The first-hit
/// coefficient is deliberately reused at every later bounce.
pub open spec fn calc_color_s(
    shadows: bool,
    render_mode: u8,
    max_bounces: int,
    objs: Seq<ObjectEnum>,
    lights: Seq<LightEnum>,
    mats: Seq<MaterialEnum>,
    depth: int,
    ray: RayV,
    refl_first: int,
) -> V3
    decreases max_bounces - depth,
{
    if depth >= max_bounces {
        v_zero_s()
    } else {
        let start = RayV {
            origin: ray.origin,
            direction: ray.direction,
            t_min: ray.t_min,
            t_max: FX_T_MAX as int,
        };
        let out = scene_fold_s(objs, start, default_rec_s(), false, false);
        if !out.0 {
            v_zero_s()
        } else {
            let rec = out.2;
            if depth == 0 && mat_at_s(mats, rec.material) is None {
                v_zero_s()
            } else {
                let refl_env = if depth == 0 {
                    mat_at_s(mats, rec.material)->Some_0.refl_env_s()
                } else {
                    refl_first
                };
                let direct = light_sum_s(
                    lights,
                    objs,
                    mats,
                    rec,
                    ray.direction,
                    shadows,
                    render_mode,
                    v_zero_s(),
                );
                let cur_refl = match mat_at_s(mats, rec.material) {
                    Some(m) => m.refl_env_s(),
                    None => 0,
                };
                if cur_refl == 0 {
                    direct
                } else {
                    let reflected = v_reflect_s(ray.direction, rec.normal);
                    let cos_reflect = v_dot_s(rec.normal, reflected);
                    let bounce_ray = RayV {
                        origin: rec.hitpoint,
                        direction: v_norm_s(reflected),
                        t_min: out.1.t_min,
                        t_max: out.1.t_max,
                    };
                    v_add_s(
                        direct,
                        v_scale_s(
                            v_scale_s(
                                calc_color_s(
                                    shadows,
                                    render_mode,
                                    max_bounces,
                                    objs,
                                    lights,
                                    mats,
                                    depth + 1,
                                    bounce_ray,
                                    refl_env,
                                ),
                                refl_env,
                            ),
                            cos_reflect,
                        ),
                    )
                }
            }
        }
    }
}

/// The primary ray of a pixel: the view-plane point at `z = -1` in
/// camera space, taken to world space through the look-at transform.
pub open spec fn pixel_ray_s(
    camera: Camera,
    aspect_ratio: int,
    width: int,
    height: int,
    x: int,
    y: int,
) -> RayV {
    let ss_x = ray_coord_x_s(x, camera.scale_factor as int, width, aspect_ratio);
    let ss_y = ray_coord_y_s(y, camera.scale_factor as int, height);
    let pixel = mat4_mul_v4_s(
        camera.look_at@,
        V4 { x: ss_x, y: ss_y, z: -(FX_ONE as int), w: FX_ONE as int },
    );
    RayV {
        origin: camera.position@,
        direction: v_norm_s(v_sub_s(v4_truncate_s(pixel), camera.position@)),
        t_min: FX_SURFACE_EPS as int,
        t_max: FX_T_MAX as int,
    }
}

/// The packed color of one pixel under the renderer's settings.
pub open spec fn pixel_of_s(
    ren: Renderer,
    camera: Camera,
    objs: Seq<ObjectEnum>,
    lights: Seq<LightEnum>,
    mats: Seq<MaterialEnum>,
    x: int,
    y: int,
) -> int {
    let ray = pixel_ray_s(camera, ren.aspect_ratio as int, ren.width as int, ren.height as int, x, y);
    let color = calc_color_s(
        ren.are_hard_shadows_enabled,
        ren.render_mode,
        ren.max_bounces as int,
        objs,
        lights,
        mats,
        0,
        ray,
        0,
    );
    pack_rgb_s(tone_map_s(color))
}

pub struct Renderer {
    pub aspect_ratio: i64,
    pub width: u32,
    pub height: u32,
    pub max_bounces: u32,
    pub are_hard_shadows_enabled: bool,
    pub render_mode: u8,
    pub data: Vec<u32>,
}

impl Renderer {
    /// A renderer over a `width * height` pixel buffer, starting at
    /// two bounces with hard shadows on and the full shading mode.
    pub fn new(width: u32, height: u32) -> (r: Self)
        requires
            width as int * height as int <= u32::MAX as int,
        ensures
            r.width == width,
            r.height == height,
            r.aspect_ratio as int == fx_div_s(
                width as int * FX_ONE as int,
                height as int * FX_ONE as int,
            ),
            r.max_bounces == 2,
            r.are_hard_shadows_enabled,
            r.render_mode == 0,
            r.data@.len() == width as int * height as int,
            forall|k: int| 0 <= k < r.data@.len() ==> r.data@[k] == 0,
    {
        let aspect_ratio = fx_div((width as i64) * FX_ONE, (height as i64) * FX_ONE);
        let count: usize = (width as usize) * (height as usize);
        let mut data: Vec<u32> = Vec::new();
        let mut k: usize = 0;
        while k < count
            invariant
                k <= count,
                data@.len() == k,
                forall|j: int| 0 <= j < k ==> data@[j] == 0,
            decreases count - k,
        {
            data.push(0);
            k = k + 1;
        }
        Self {
            aspect_ratio,
            width,
            height,
            max_bounces: 2,
            are_hard_shadows_enabled: true,
            render_mode: 0,
            data,
        }
    }

    pub fn get_ray_world_coord_x(x: u32, scale_factor: i64, width: u32, aspect_ratio: i64) -> (r:
        i64)
        ensures
            r as int == ray_coord_x_s(x as int, scale_factor as int, width as int, aspect_ratio as int),
    {
        let ratio = fx_div((x as i64) * FX_ONE + 32768, (width as i64) * FX_ONE);
        fx_mul(fx_mul(fx_sub(fx_mul(2 * FX_ONE, ratio), FX_ONE), aspect_ratio), scale_factor)
    }

    pub fn get_ray_world_coord_y(y: u32, scale_factor: i64, height: u32) -> (r: i64)
        ensures
            r as int == ray_coord_y_s(y as int, scale_factor as int, height as int),
    {
        let ratio = fx_div((y as i64) * FX_ONE + 32768, (height as i64) * FX_ONE);
        fx_mul(fx_sub(FX_ONE, fx_mul(2 * FX_ONE, ratio)), scale_factor)
    }

    fn channel_byte(c: i64) -> (r: u32)
        ensures
            r as int == channel_byte_s(c as int),
    {
        if c <= 0 {
            0
        } else {
            let q: u128 = ((c as u128) * 255) / (FX_ONE as u128);
            if q > 255 {
                255
            } else {
                q as u32
            }
        }
    }

    /// Quantizes a tone-mapped color to 8 bits per channel and packs
    /// it into one 32-bit pixel.
    pub fn to_u32_rgb(r: i64, g: i64, b: i64) -> (p: u32)
        ensures
            p as int == pack_rgb_s(V3 { x: r as int, y: g as int, z: b as int }),
    {
        Renderer::channel_byte(r) * 0x10000 + Renderer::channel_byte(g) * 0x100
            + Renderer::channel_byte(b)
    }

    /// What one light adds at a hit, honoring the enabled flag, the
    /// shadow test and the surface horizon.
    fn light_contribution(
        light: &LightEnum,
        scenegraph: &Scenegraph,
        materials: &Vec<MaterialEnum>,
        hit_record: &HitRecord,
        ray: &Ray,
        are_hard_shadows_enabled: bool,
        render_mode: u8,
    ) -> (r: RGBColor)
        ensures
            r@ == light_contrib_s(
                *light,
                scenegraph@,
                materials@,
                hit_record@,
                ray@.direction,
                are_hard_shadows_enabled,
                render_mode,
            ),
    {
        if !light.is_light_enabled() {
            return RGBColor::zero();
        }
        if are_hard_shadows_enabled {
            let mut direction_magnitude_returned: i64 = 0;
            let shadow_direction = light.get_direction_magnitude(
                &hit_record.hitpoint,
                &mut direction_magnitude_returned,
            );
            let mut ray_hit_to_light = Ray::new_with_limits(
                hit_record.hitpoint.add(&hit_record.normal.scale(FX_SURFACE_EPS)),
                shadow_direction,
                FX_SURFACE_EPS,
                direction_magnitude_returned,
            );
            let mut hit_record_shadow = HitRecord::default();
            if scenegraph.hit(&mut ray_hit_to_light, &mut hit_record_shadow, true) {
                return RGBColor::zero();
            }
        }
        let lambert_cosine_law = hit_record.normal.dot(
            &light.get_direction(&hit_record.hitpoint),
        );
        if lambert_cosine_law < 0 {
            return RGBColor::zero();
        }
        Renderer::get_color_mode_according_to_render_mode(
            render_mode,
            light,
            lambert_cosine_law,
            hit_record,
            ray,
            materials,
        )
    }

    fn get_color_mode_according_to_render_mode(
        render_mode: u8,
        light: &LightEnum,
        lambert_cosine_law: i64,
        hit_record: &HitRecord,
        ray: &Ray,
        materials: &Vec<MaterialEnum>,
    ) -> (r: RGBColor)
        ensures
            r@ == mode_term_s(
                render_mode,
                *light,
                lambert_cosine_law as int,
                hit_record@,
                ray@.direction,
                materials@,
            ),
    {
        if render_mode == 0 {
            match hit_record.material {
                Some(mi) => {
                    if mi < materials.len() {
                        light.get_bi_radians(&hit_record.hitpoint).scale(lambert_cosine_law).mul(
                            &materials[mi].shade(
                                hit_record,
                                &light.get_direction(&hit_record.hitpoint),
                                &ray.direction.scale(-FX_ONE),
                            ),
                        )
                    } else {
                        RGBColor::zero()
                    }
                },
                None => RGBColor::zero(),
            }
        } else if render_mode == 1 {
            light.get_bi_radians(&hit_record.hitpoint).scale(lambert_cosine_law)
        } else if render_mode == 2 {
            match hit_record.material {
                Some(mi) => {
                    if mi < materials.len() {
                        materials[mi].shade(
                            hit_record,
                            &light.get_direction(&hit_record.hitpoint),
                            &ray.direction.scale(-FX_ONE),
                        ).scale(lambert_cosine_law)
                    } else {
                        RGBColor::zero()
                    }
                },
                None => RGBColor::zero(),
            }
        } else {
            RGBColor::zero()
        }
    }

    /// The bounce loop. Structurally bounded: it always terminates
    /// within `max_bounces` levels, whatever the arrangement of
    /// reflective surfaces, and is black from `depth >= max_bounces`
    /// on.
    pub fn calculate_color(
        are_hard_shadows_enabled: bool,
        render_mode: u8,
        max_bounces: u32,
        scenegraph: &Scenegraph,
        lights: &Vec<LightEnum>,
        materials: &Vec<MaterialEnum>,
        current_amount_bounces: u32,
        ray: Ray,
        reflectiveness_env_mat_first_hit: i64,
    ) -> (r: RGBColor)
        ensures
            r@ == calc_color_s(
                are_hard_shadows_enabled,
                render_mode,
                max_bounces as int,
                scenegraph@,
                lights@,
                materials@,
                current_amount_bounces as int,
                ray@,
                reflectiveness_env_mat_first_hit as int,
            ),
            current_amount_bounces >= max_bounces ==> r@ == v_zero_s(),
        decreases max_bounces - current_amount_bounces,
    {
        let mut color = RGBColor::zero();
        if current_amount_bounces >= max_bounces {
            return color;
        }
        let mut traversal_ray = ray;
        let mut hit_record = HitRecord::default();
        if !scenegraph.hit(&mut traversal_ray, &mut hit_record, false) {
            return color;
        }
        let refl_env: i64;
        if current_amount_bounces == 0 {
            match hit_record.material {
                Some(mi) => {
                    if mi < materials.len() {
                        refl_env = materials[mi].get_reflectiveness_environment();
                    } else {
                        return color;
                    }
                },
                None => {
                    return color;
                },
            }
        } else {
            refl_env = reflectiveness_env_mat_first_hit;
        }
        let n = lights.len();
        let mut i: usize = 0;
        proof {
            assert(lights@.skip(0) =~= lights@);
        }
        while i < n
            invariant
                n == lights@.len(),
                i <= n,
                light_sum_s(
                    lights@,
                    scenegraph@,
                    materials@,
                    hit_record@,
                    ray@.direction,
                    are_hard_shadows_enabled,
                    render_mode,
                    v_zero_s(),
                ) == light_sum_s(
                    lights@.skip(i as int),
                    scenegraph@,
                    materials@,
                    hit_record@,
                    ray@.direction,
                    are_hard_shadows_enabled,
                    render_mode,
                    color@,
                ),
            decreases n - i,
        {
            let contribution = Renderer::light_contribution(
                &lights[i],
                scenegraph,
                materials,
                &hit_record,
                &ray,
                are_hard_shadows_enabled,
                render_mode,
            );
            proof {
                assert(lights@.skip(i as int)[0] == lights@[i as int]);
                assert(lights@.skip(i as int).drop_first() =~= lights@.skip(i as int + 1));
            }
            color = color.add(&contribution);
            i = i + 1;
        }
        proof {
            assert(lights@.skip(n as int) =~= Seq::<LightEnum>::empty());
        }
        let cur_refl: i64 = match hit_record.material {
            Some(mi) => {
                if mi < materials.len() {
                    materials[mi].get_reflectiveness_environment()
                } else {
                    0
                }
            },
            None => 0,
        };
        if cur_refl == 0 {
            return color;
        }
        let reflected = ray.direction.reflect(&hit_record.normal);
        let lambert_cosine_law = hit_record.normal.dot(&reflected);
        let bounce_ray = Ray::new_with_limits(
            hit_record.hitpoint,
            reflected.normalize(),
            traversal_ray.t_min,
            traversal_ray.t_max,
        );
        let bounced = Renderer::calculate_color(
            are_hard_shadows_enabled,
            render_mode,
            max_bounces,
            scenegraph,
            lights,
            materials,
            current_amount_bounces + 1,
            bounce_ray,
            refl_env,
        );
        color = color.add(&bounced.scale(refl_env).scale(lambert_cosine_law));
        color
    }

    /// One pixel: primary ray, bounce loop, tone map, pack.
    pub fn compute_pixel(
        &self,
        scenegraph: &Scenegraph,
        camera: &Camera,
        lights: &Vec<LightEnum>,
        materials: &Vec<MaterialEnum>,
        x: u32,
        y: u32,
    ) -> (p: u32)
        ensures
            p as int == pixel_of_s(
                *self,
                *camera,
                scenegraph@,
                lights@,
                materials@,
                x as int,
                y as int,
            ),
    {
        let ss_x = Renderer::get_ray_world_coord_x(
            x,
            camera.scale_factor,
            self.width,
            self.aspect_ratio,
        );
        let ss_y = Renderer::get_ray_world_coord_y(y, camera.scale_factor, self.height);
        let pixel = camera.look_at.mul_vec4(&Vec4::new(ss_x, ss_y, -FX_ONE, FX_ONE));
        let direction = pixel.truncate().sub(&camera.position).normalize();
        let ray = Ray::new(camera.position, direction);
        let mut final_color = Renderer::calculate_color(
            self.are_hard_shadows_enabled,
            self.render_mode,
            self.max_bounces,
            scenegraph,
            lights,
            materials,
            0,
            ray,
            0,
        );
        final_color.max_to_one();
        Renderer::to_u32_rgb(final_color.x, final_color.y, final_color.z)
    }

    /// One row of pixels, in order; rows are independent, so callers
    /// may distribute them over workers.
    pub fn render_row(
        &self,
        scenegraph: &Scenegraph,
        camera: &Camera,
        lights: &Vec<LightEnum>,
        materials: &Vec<MaterialEnum>,
        y: u32,
    ) -> (row: Vec<u32>)
        ensures
            row@.len() == self.width as int,
            forall|x: int|
                0 <= x < self.width as int ==> row@[x] as int == pixel_of_s(
                    *self,
                    *camera,
                    scenegraph@,
                    lights@,
                    materials@,
                    x,
                    y as int,
                ),
    {
        let mut row: Vec<u32> = Vec::new();
        let mut x: u32 = 0;
        while x < self.width
            invariant
                x <= self.width,
                row@.len() == x as int,
                forall|xx: int|
                    0 <= xx < x as int ==> row@[xx] as int == pixel_of_s(
                        *self,
                        *camera,
                        scenegraph@,
                        lights@,
                        materials@,
                        xx,
                        y as int,
                    ),
            decreases self.width - x,
        {
            let p = self.compute_pixel(scenegraph, camera, lights, materials, x, y);
            row.push(p);
            x = x + 1;
        }
        row
    }

    /// Renders a full frame into the pixel buffer: every pixel of
    /// every row becomes exactly its `pixel_of_s` value. The settings
    /// and dimensions are unchanged.
    pub fn render(
        &mut self,
        scenegraph: &Scenegraph,
        camera: &Camera,
        lights: &Vec<LightEnum>,
        materials: &Vec<MaterialEnum>,
    )
        requires
            old(self).data@.len() == old(self).width as int * old(self).height as int,
        ensures
            final(self).width == old(self).width,
            final(self).height == old(self).height,
            final(self).aspect_ratio == old(self).aspect_ratio,
            final(self).max_bounces == old(self).max_bounces,
            final(self).are_hard_shadows_enabled == old(self).are_hard_shadows_enabled,
            final(self).render_mode == old(self).render_mode,
            final(self).data@.len() == old(self).data@.len(),
            forall|x: int, y: int|
                0 <= x < old(self).width as int && 0 <= y < old(self).height as int
                    ==> final(self).data@[y * old(self).width as int + x] as int == #[trigger] pixel_of_s(
                    *old(self),
                    *camera,
                    scenegraph@,
                    lights@,
                    materials@,
                    x,
                    y,
                ),
    {
        let w = self.width;
        let h = self.height;
        let total = self.data.len();
        let mut y: u32 = 0;
        while y < h
            invariant
                w == self.width,
                h == self.height,
                *self == (Renderer { data: self.data, ..*old(self) }),
                self.data@.len() == old(self).data@.len(),
                self.data@.len() == w as int * h as int,
                self.data@.len() == total as int,
                y <= h,
                forall|xx: int, yy: int|
                    0 <= xx < w as int && 0 <= yy < y as int
                        ==> self.data@[yy * w as int + xx] as int == #[trigger] pixel_of_s(
                        *old(self),
                        *camera,
                        scenegraph@,
                        lights@,
                        materials@,
                        xx,
                        yy,
                    ),
            decreases h - y,
        {
            let mut x: u32 = 0;
            while x < w
                invariant
                    w == self.width,
                    h == self.height,
                    *self == (Renderer { data: self.data, ..*old(self) }),
                    self.data@.len() == old(self).data@.len(),
                    self.data@.len() == w as int * h as int,
                    self.data@.len() == total as int,
                    y < h,
                    x <= w,
                    forall|xx: int, yy: int|
                        0 <= xx < w as int && 0 <= yy < y as int
                            ==> self.data@[yy * w as int + xx] as int == #[trigger] pixel_of_s(
                            *old(self),
                            *camera,
                            scenegraph@,
                            lights@,
                            materials@,
                            xx,
                            yy,
                        ),
                    forall|xx: int|
                        0 <= xx < x as int ==> self.data@[y as int * w as int + xx] as int
                            == #[trigger] pixel_of_s(
                            *old(self),
                            *camera,
                            scenegraph@,
                            lights@,
                            materials@,
                            xx,
                            y as int,
                        ),
                decreases w - x,
            {
                let p = self.compute_pixel(scenegraph, camera, lights, materials, x, y);
                let index: usize;
                proof {
                    lemma_row_major_bound(y as int, x as int, w as int, h as int);
                }
                index = (y as usize) * (w as usize) + (x as usize);
                self.data.set(index, p);
                proof {
                    assert forall|xx: int, yy: int|
                        0 <= xx < w as int && 0 <= yy < y as int implies self.data@[yy * w as int
                        + xx] as int == #[trigger] pixel_of_s(
                        *old(self),
                        *camera,
                        scenegraph@,
                        lights@,
                        materials@,
                        xx,
                        yy,
                    ) by {
                        lemma_row_major_distinct(yy, xx, y as int, x as int, w as int);
                        lemma_row_major_bound(yy, xx, w as int, h as int);
                    }
                }
                x = x + 1;
            }
            y = y + 1;
        }
    }

    /// Advances the bounce budget, wrapping from six back to one.
    pub fn toggle_max_bounce_rays(&mut self)
        ensures
            final(self).max_bounces == if old(self).max_bounces >= 6 {
                1u32
            } else {
                (old(self).max_bounces + 1) as u32
            },
            *final(self) == (Renderer { max_bounces: final(self).max_bounces, ..*old(self) }),
    {
        if self.max_bounces >= 6 {
            self.max_bounces = 1;
        } else {
            self.max_bounces = self.max_bounces + 1;
        }
    }

    pub fn toggle_shadows(&mut self)
        ensures
            final(self).are_hard_shadows_enabled == !old(self).are_hard_shadows_enabled,
            *final(self) == (Renderer {
                are_hard_shadows_enabled: final(self).are_hard_shadows_enabled,
                ..*old(self)
            }),
    {
        self.are_hard_shadows_enabled = !self.are_hard_shadows_enabled;
    }

    /// Cycles the render mode through full shading, radiance only and
    /// BRDF only.
    pub fn toggle_render_mode(&mut self)
        ensures
            final(self).render_mode == if old(self).render_mode >= 2 {
                0u8
            } else {
                (old(self).render_mode + 1) as u8
            },
            *final(self) == (Renderer { render_mode: final(self).render_mode, ..*old(self) }),
    {
        if self.render_mode >= 2 {
            self.render_mode = 0;
        } else {
            self.render_mode = self.render_mode + 1;
        }
    }

    pub fn draw_pixel(&mut self, x: u32, y: u32, color: u32)
        requires
            (y as int) * (old(self).width as int) + (x as int) < old(self).data@.len(),
        ensures
            final(self).data@ == old(self).data@.update(
                y as int * old(self).width as int + x as int,
                color,
            ),
            *final(self) == (Renderer { data: final(self).data, ..*old(self) }),
    {
        let len = self.data.len();
        let index = (y as usize) * (self.width as usize) + (x as usize);
        proof {
            assert(index < len);
        }
        self.data.set(index, color);
    }
}

/// The monotone core of the lit-plane brightness claim: the
/// inverse-square falloff gives a nearer surface point at least the
/// radiance of a farther one.
pub proof fn lemma_falloff_monotone(intensity: int, near_sq: int, far_sq: int)
    requires
        0 <= intensity,
        0 < near_sq <= far_sq,
    ensures
        crate::fixed::fx_div_s(intensity, far_sq) <= crate::fixed::fx_div_s(intensity, near_sq),
{
    assert(intensity * FX_ONE as int >= 0) by (nonlinear_arith)
        requires
            intensity >= 0,
    ;
    vstd::arithmetic::div_mod::lemma_div_is_ordered_by_denominator(
        intensity * FX_ONE as int,
        near_sq,
        far_sq,
    );
}

/// The other half of that claim: under the full shading mode, one
/// channel of a light's term — radiance times cosine times BRDF —
/// grows with the radiance and with the cosine, for a nonnegative
/// BRDF value. The strict instance on a concrete scene is exercised
/// by a test; truncation can turn a strict real inequality into
/// equality, so only the non-strict order is a theorem.
pub proof fn lemma_direct_term_monotone(bi1: int, bi2: int, cos1: int, cos2: int, shade: int)
    requires
        0 <= bi2 <= bi1,
        0 <= cos2 <= cos1,
        0 <= shade,
    ensures
        fx_mul_s(fx_mul_s(bi2, cos2), shade) <= fx_mul_s(fx_mul_s(bi1, cos1), shade),
{
    crate::fixed::lemma_fx_mul_mono(bi2, bi1, cos2);
    crate::fixed::lemma_fx_mul_mono(cos2, cos1, bi1);
    assert(bi1 * cos2 == cos2 * bi1) by (nonlinear_arith);
    assert(bi1 * cos1 == cos1 * bi1) by (nonlinear_arith);
    assert(fx_mul_s(bi2, cos2) <= fx_mul_s(bi1, cos1));
    crate::fixed::lemma_fx_mul_mono(fx_mul_s(bi2, cos2), fx_mul_s(bi1, cos1), shade);
}

/// A light that is disabled adds nothing to the accumulated sum, at
/// whatever place it stands in the list.
proof fn lemma_light_sum_drop_disabled(
    lights1: Seq<LightEnum>,
    d: LightEnum,
    lights2: Seq<LightEnum>,
    objs: Seq<ObjectEnum>,
    mats: Seq<MaterialEnum>,
    rec: HitRecV,
    ray_direction: V3,
    shadows: bool,
    render_mode: u8,
    acc: V3,
)
    requires
        !d.enabled_s(),
        crate::vec3::v_in_range_s(acc),
    ensures
        light_sum_s(
            lights1 + seq![d] + lights2,
            objs,
            mats,
            rec,
            ray_direction,
            shadows,
            render_mode,
            acc,
        ) == light_sum_s(lights1 + lights2, objs, mats, rec, ray_direction, shadows, render_mode, acc),
    decreases lights1.len(),
{
    if lights1.len() == 0 {
        assert((lights1 + seq![d] + lights2)[0] == d);
        assert((lights1 + seq![d] + lights2).drop_first() =~= lights2);
        assert(lights1 + lights2 =~= lights2);
        assert(light_contrib_s(d, objs, mats, rec, ray_direction, shadows, render_mode)
            == v_zero_s());
        assert(v_add_s(acc, v_zero_s()) == acc);
    } else {
        let l0 = lights1[0];
        assert((lights1 + seq![d] + lights2)[0] == l0);
        assert((lights1 + seq![d] + lights2).drop_first() =~= lights1.drop_first() + seq![d]
            + lights2);
        assert((lights1 + lights2)[0] == l0);
        assert((lights1 + lights2).drop_first() =~= lights1.drop_first() + lights2);
        let acc2 = v_add_s(
            acc,
            light_contrib_s(l0, objs, mats, rec, ray_direction, shadows, render_mode),
        );
        assert(crate::vec3::v_in_range_s(acc2));
        lemma_light_sum_drop_disabled(
            lights1.drop_first(),
            d,
            lights2,
            objs,
            mats,
            rec,
            ray_direction,
            shadows,
            render_mode,
            acc2,
        );
    }
}

/// Disabling a light removes exactly its own additive contribution:
/// a disabled light standing anywhere in the light list leaves every
/// color the bounce loop computes unchanged, at every depth, with all
/// other lights' contributions intact.
pub proof fn lemma_disabled_light_removable(
    shadows: bool,
    render_mode: u8,
    max_bounces: int,
    objs: Seq<ObjectEnum>,
    lights1: Seq<LightEnum>,
    d: LightEnum,
    lights2: Seq<LightEnum>,
    mats: Seq<MaterialEnum>,
    depth: int,
    ray: RayV,
    refl_first: int,
)
    requires
        !d.enabled_s(),
    ensures
        calc_color_s(
            shadows,
            render_mode,
            max_bounces,
            objs,
            lights1 + seq![d] + lights2,
            mats,
            depth,
            ray,
            refl_first,
        ) == calc_color_s(
            shadows,
            render_mode,
            max_bounces,
            objs,
            lights1 + lights2,
            mats,
            depth,
            ray,
            refl_first,
        ),
    decreases max_bounces - depth,
{
    if depth < max_bounces {
        let start = RayV {
            origin: ray.origin,
            direction: ray.direction,
            t_min: ray.t_min,
            t_max: FX_T_MAX as int,
        };
        let out = scene_fold_s(objs, start, default_rec_s(), false, false);
        if out.0 {
            let rec = out.2;
            lemma_light_sum_drop_disabled(
                lights1,
                d,
                lights2,
                objs,
                mats,
                rec,
                ray.direction,
                shadows,
                render_mode,
                v_zero_s(),
            );
            if !(depth == 0 && mat_at_s(mats, rec.material) is None) {
                let refl_env = if depth == 0 {
                    mat_at_s(mats, rec.material)->Some_0.refl_env_s()
                } else {
                    refl_first
                };
                let cur_refl = match mat_at_s(mats, rec.material) {
                    Some(m) => m.refl_env_s(),
                    None => 0,
                };
                if cur_refl != 0 {
                    let reflected = v_reflect_s(ray.direction, rec.normal);
                    let bounce_ray = RayV {
                        origin: rec.hitpoint,
                        direction: v_norm_s(reflected),
                        t_min: out.1.t_min,
                        t_max: out.1.t_max,
                    };
                    lemma_disabled_light_removable(
                        shadows,
                        render_mode,
                        max_bounces,
                        objs,
                        lights1,
                        d,
                        lights2,
                        mats,
                        depth + 1,
                        bounce_ray,
                        refl_env,
                    );
                }
            }
        }
    }
}

proof fn lemma_row_major_bound(y: int, x: int, w: int, h: int)
    requires
        0 <= x < w,
        0 <= y < h,
    ensures
        0 <= y * w + x < w * h,
{
    assert(0 <= y * w + x < w * h) by (nonlinear_arith)
        requires
            0 <= x < w,
            0 <= y < h,
    ;
}

proof fn lemma_row_major_distinct(yy: int, xx: int, y: int, x: int, w: int)
    requires
        0 <= xx < w,
        0 <= x < w,
        yy < y,
        0 <= yy,
    ensures
        yy * w + xx != y * w + x,
{
    assert(yy * w + xx < y * w + x || yy * w + xx > y * w + x) by (nonlinear_arith)
        requires
            0 <= xx < w,
            0 <= x < w,
            yy < y,
            0 <= yy,
    ;
}

} // verus!
