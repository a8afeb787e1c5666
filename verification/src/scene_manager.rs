//! Scene switching: an ordered collection of scenes with a current
//! index that cycles in both directions.

use vstd::prelude::*;

use crate::scenegraph::Scenegraph;

verus! {

pub struct SceneManager {
    pub scenes: Vec<Scenegraph>,
    pub current_scene_index: usize,
}

impl SceneManager {
    pub fn new() -> (r: Self)
        ensures
            r.scenes@.len() == 0,
            r.current_scene_index == 0,
    {
        Self { scenes: Vec::new(), current_scene_index: 0 }
    }

    /// Runs the current scene's per-frame update; no geometry is
    /// animated, so every scene keeps its objects.
    pub fn update(&mut self, delta_time: i64)
        requires
            old(self).current_scene_index < old(self).scenes@.len(),
        ensures
            final(self).scenes@.len() == old(self).scenes@.len(),
            forall|i: int|
                0 <= i < old(self).scenes@.len() ==> #[trigger] final(self).scenes@[i]@
                    == old(self).scenes@[i]@,
            final(self).current_scene_index == old(self).current_scene_index,
    {
        let index = self.current_scene_index;
        let mut scene = self.scenes.remove(index);
        scene.update(delta_time);
        self.scenes.insert(index, scene);
        proof {
            assert(self.scenes@ =~= old(self).scenes@.update(index as int, self.scenes@[index as int]));
        }
    }

    pub fn add_scene(&mut self, scene: Scenegraph)
        ensures
            final(self).scenes@ == old(self).scenes@.push(scene),
            final(self).current_scene_index == old(self).current_scene_index,
    {
        self.scenes.push(scene);
    }

    pub fn get_current_scene_safe(&self) -> (r: Option<&Scenegraph>)
        ensures
            self.current_scene_index < self.scenes@.len() ==> r == Some(
                &self.scenes@[self.current_scene_index as int],
            ),
            self.current_scene_index >= self.scenes@.len() ==> r is None,
    {
        if self.current_scene_index < self.scenes.len() {
            Some(&self.scenes[self.current_scene_index])
        } else {
            None
        }
    }

    pub fn get_current_scene(&self) -> (r: &Scenegraph)
        requires
            self.current_scene_index < self.scenes@.len(),
        ensures
            *r == self.scenes@[self.current_scene_index as int],
    {
        &self.scenes[self.current_scene_index]
    }

    /// Advances to the next scene, wrapping to the first.
    pub fn next_scene(&mut self)
        ensures
            final(self).current_scene_index as int == if old(self).current_scene_index as int + 1
                >= old(self).scenes@.len() {
                0
            } else {
                old(self).current_scene_index as int + 1
            },
            final(self).scenes@ == old(self).scenes@,
    {
        let len = self.scenes.len();
        if len == 0 || self.current_scene_index >= len - 1 {
            self.current_scene_index = 0;
        } else {
            self.current_scene_index = self.current_scene_index + 1;
        }
    }

    /// Steps back to the previous scene, wrapping to the last.
    pub fn previous_scene(&mut self)
        requires
            old(self).scenes@.len() > 0,
        ensures
            final(self).current_scene_index as int == if old(self).current_scene_index == 0 {
                old(self).scenes@.len() - 1
            } else {
                old(self).current_scene_index as int - 1
            },
            final(self).scenes@ == old(self).scenes@,
    {
        if self.current_scene_index == 0 {
            self.current_scene_index = self.scenes.len() - 1;
        } else {
            self.current_scene_index = self.current_scene_index - 1;
        }
    }
}

} // verus!
