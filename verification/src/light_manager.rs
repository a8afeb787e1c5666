//! Runtime interaction with the scene's lights: selection, toggling,
//! and per-axis adjustment of position, color and intensity.

use vstd::prelude::*;

use crate::fixed::fx_add;
use crate::fixed::fx_add_s;
use crate::lights::Light;
use crate::lights::LightEnum;
use crate::lights::LightProperties;
use crate::vec3::V3;
use crate::vec3::Vec3;

verus! {

#[derive(Clone, Copy, PartialEq, Eq, Structural, Debug)]
pub enum Axis {
    X,
    Y,
    Z,
}

/// Which property of the selected light the adjustment keys drive.
#[derive(Clone, Copy, PartialEq, Eq, Structural, Debug)]
pub enum InteractionMode {
    Position,
    Color,
}

/// One component of a vector shifted by a delta.
pub open spec fn axis_add_s(v: V3, axis: Axis, value: int) -> V3 {
    match axis {
        Axis::X => V3 { x: fx_add_s(v.x, value), y: v.y, z: v.z },
        Axis::Y => V3 { x: v.x, y: fx_add_s(v.y, value), z: v.z },
        Axis::Z => V3 { x: v.x, y: v.y, z: fx_add_s(v.z, value) },
    }
}

/// The lights of a scene with a round-robin selection cursor.
pub struct LightManager {
    pub lights: Vec<LightEnum>,
    pub selected_light_index: usize,
    pub interaction_mode: InteractionMode,
}

impl LightManager {
    pub fn new() -> (r: Self)
        ensures
            r.lights@ == Seq::<LightEnum>::empty(),
            r.selected_light_index == 0,
            r.interaction_mode == InteractionMode::Position,
    {
        Self {
            lights: Vec::new(),
            selected_light_index: 0,
            interaction_mode: InteractionMode::Position,
        }
    }

    pub fn add_light(&mut self, light: LightEnum)
        ensures
            final(self).lights@ == old(self).lights@.push(light),
            final(self).selected_light_index == old(self).selected_light_index,
            final(self).interaction_mode == old(self).interaction_mode,
    {
        self.lights.push(light);
    }

    /// Lights are identified positionally; removal is by index.
    pub fn remove_light(&mut self, index: usize)
        requires
            index < old(self).lights@.len(),
        ensures
            final(self).lights@ == old(self).lights@.remove(index as int),
            final(self).selected_light_index == old(self).selected_light_index,
            final(self).interaction_mode == old(self).interaction_mode,
    {
        self.lights.remove(index);
    }

    /// Advances the selection cursor round-robin; needs only a
    /// nonempty light list, and always lands on a valid index.
    pub fn next_selected_light(&mut self)
        requires
            old(self).lights@.len() > 0,
        ensures
            old(self).selected_light_index < old(self).lights@.len()
                ==> final(self).selected_light_index as int == (old(self).selected_light_index
                as int + 1) % (old(self).lights@.len() as int),
            final(self).selected_light_index < old(self).lights@.len(),
            final(self).lights@ == old(self).lights@,
            final(self).interaction_mode == old(self).interaction_mode,
    {
        let len = self.lights.len();
        if self.selected_light_index >= len - 1 {
            self.selected_light_index = 0;
        } else {
            self.selected_light_index = self.selected_light_index + 1;
        }
        proof {
            let sel = old(self).selected_light_index as int;
            let n = old(self).lights@.len() as int;
            if sel < n - 1 {
                vstd::arithmetic::div_mod::lemma_small_mod((sel + 1) as nat, n as nat);
            } else if sel == n - 1 {
                vstd::arithmetic::div_mod::lemma_mod_self_0(n);
            }
        }
    }

    /// Toggles the selected light's enabled flag.
    pub fn toggle_selected_light(&mut self)
        requires
            old(self).selected_light_index < old(self).lights@.len(),
        ensures
            final(self).lights@ == old(self).lights@.update(
                old(self).selected_light_index as int,
                old(self).lights@[old(self).selected_light_index as int].toggled_s(),
            ),
            final(self).selected_light_index == old(self).selected_light_index,
            final(self).interaction_mode == old(self).interaction_mode,
    {
        let sel = self.selected_light_index;
        let mut light = self.lights[sel];
        light.toggle_light();
        self.lights.set(sel, light);
    }

    /// Applies a per-axis delta to whichever property the interaction
    /// mode selects.
    pub fn change_value_of_interaction_mode(&mut self, axis: Axis, value: i64)
        requires
            old(self).selected_light_index < old(self).lights@.len(),
        ensures
            old(self).interaction_mode == InteractionMode::Position ==> final(self).lights@
                == old(self).lights@.update(
                old(self).selected_light_index as int,
                ({
                    let l = old(self).lights@[old(self).selected_light_index as int];
                    l.with_position_s(final(self).lights@[old(self).selected_light_index as int].position_s())
                }),
            ) && final(self).lights@[old(self).selected_light_index as int].position_s()@
                == axis_add_s(
                old(self).lights@[old(self).selected_light_index as int].position_s()@,
                axis,
                value as int,
            ),
            old(self).interaction_mode == InteractionMode::Color ==> final(self).lights@
                == old(self).lights@.update(
                old(self).selected_light_index as int,
                ({
                    let l = old(self).lights@[old(self).selected_light_index as int];
                    l.with_properties_s(
                        LightProperties {
                            color: final(self).lights@[old(self).selected_light_index as int].properties_s().color,
                            ..l.properties_s()
                        },
                    )
                }),
            ) && final(self).lights@[old(self).selected_light_index as int].properties_s().color@
                == axis_add_s(
                old(self).lights@[old(self).selected_light_index as int].properties_s().color@,
                axis,
                value as int,
            ),
            final(self).selected_light_index == old(self).selected_light_index,
            final(self).interaction_mode == old(self).interaction_mode,
    {
        match self.interaction_mode {
            InteractionMode::Position => {
                self.change_pos_selected_light(axis, value);
            },
            InteractionMode::Color => {
                self.change_color_of_selected_light(axis, value);
            },
        }
    }

    /// Shifts one axis of the selected light's position (for a
    /// directional light, of its direction) by the delta.
    pub fn change_pos_selected_light(&mut self, axis: Axis, value: i64)
        requires
            old(self).selected_light_index < old(self).lights@.len(),
        ensures
            final(self).lights@ == old(self).lights@.update(
                old(self).selected_light_index as int,
                old(self).lights@[old(self).selected_light_index as int].with_position_s(
                    final(self).lights@[old(self).selected_light_index as int].position_s(),
                ),
            ),
            final(self).lights@[old(self).selected_light_index as int].position_s()@ == axis_add_s(
                old(self).lights@[old(self).selected_light_index as int].position_s()@,
                axis,
                value as int,
            ),
            final(self).selected_light_index == old(self).selected_light_index,
            final(self).interaction_mode == old(self).interaction_mode,
    {
        let sel = self.selected_light_index;
        let mut light = self.lights[sel];
        let pos = *light.get_position();
        let new_pos = match axis {
            Axis::X => Vec3 { x: fx_add(pos.x, value), y: pos.y, z: pos.z },
            Axis::Y => Vec3 { x: pos.x, y: fx_add(pos.y, value), z: pos.z },
            Axis::Z => Vec3 { x: pos.x, y: pos.y, z: fx_add(pos.z, value) },
        };
        light.set_position(new_pos);
        self.lights.set(sel, light);
    }

    /// Shifts one channel of the selected light's color by the delta.
    pub fn change_color_of_selected_light(&mut self, axis: Axis, value: i64)
        requires
            old(self).selected_light_index < old(self).lights@.len(),
        ensures
            final(self).lights@ == old(self).lights@.update(
                old(self).selected_light_index as int,
                ({
                    let l = old(self).lights@[old(self).selected_light_index as int];
                    l.with_properties_s(
                        LightProperties {
                            color: final(self).lights@[old(self).selected_light_index as int].properties_s().color,
                            ..l.properties_s()
                        },
                    )
                }),
            ),
            final(self).lights@[old(self).selected_light_index as int].properties_s().color@
                == axis_add_s(
                old(self).lights@[old(self).selected_light_index as int].properties_s().color@,
                axis,
                value as int,
            ),
            final(self).selected_light_index == old(self).selected_light_index,
            final(self).interaction_mode == old(self).interaction_mode,
    {
        let sel = self.selected_light_index;
        let mut light = self.lights[sel];
        let color = *light.get_color();
        let new_color = match axis {
            Axis::X => Vec3 { x: fx_add(color.x, value), y: color.y, z: color.z },
            Axis::Y => Vec3 { x: color.x, y: fx_add(color.y, value), z: color.z },
            Axis::Z => Vec3 { x: color.x, y: color.y, z: fx_add(color.z, value) },
        };
        light.set_color(new_color);
        self.lights.set(sel, light);
    }

    /// Shifts the selected light's intensity by the delta.
    pub fn change_intensity_of_selected_light(&mut self, value: i64)
        requires
            old(self).selected_light_index < old(self).lights@.len(),
        ensures
            final(self).lights@ == old(self).lights@.update(
                old(self).selected_light_index as int,
                ({
                    let l = old(self).lights@[old(self).selected_light_index as int];
                    l.with_properties_s(
                        LightProperties {
                            intensity: final(self).lights@[old(self).selected_light_index as int].properties_s().intensity,
                            ..l.properties_s()
                        },
                    )
                }),
            ),
            final(self).lights@[old(self).selected_light_index as int].properties_s().intensity
                as int == fx_add_s(
                old(self).lights@[old(self).selected_light_index as int].properties_s().intensity
                    as int,
                value as int,
            ),
            final(self).selected_light_index == old(self).selected_light_index,
            final(self).interaction_mode == old(self).interaction_mode,
    {
        let sel = self.selected_light_index;
        let mut light = self.lights[sel];
        let intensity = light.get_intensity();
        light.set_intensity(fx_add(intensity, value));
        self.lights.set(sel, light);
    }

    pub fn num_lights(&self) -> (r: usize)
        ensures
            r == self.lights@.len(),
    {
        self.lights.len()
    }

    /// Switches the adjustment keys between position and color.
    pub fn change_interaction_mode(&mut self)
        ensures
            final(self).interaction_mode == (match old(self).interaction_mode {
                InteractionMode::Position => InteractionMode::Color,
                InteractionMode::Color => InteractionMode::Position,
            }),
            final(self).lights@ == old(self).lights@,
            final(self).selected_light_index == old(self).selected_light_index,
    {
        match self.interaction_mode {
            InteractionMode::Position => {
                self.interaction_mode = InteractionMode::Color;
            },
            InteractionMode::Color => {
                self.interaction_mode = InteractionMode::Position;
            },
        }
    }

    pub fn get_lights(&self) -> (r: &Vec<LightEnum>)
        ensures
            r@ == self.lights@,
    {
        &self.lights
    }
}

} // verus!
