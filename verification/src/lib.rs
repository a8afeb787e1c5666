//! An offline-style ray tracer, verified end to end over fixed-point
//! arithmetic: camera-ray generation, linear scene traversal with
//! nearest-hit resolution, shadow testing, a depth-bounded recursive
//! bounce loop, and pluggable material and light shading.

pub mod brdf;
pub mod camera;
pub mod evector;
pub mod fixed;
pub mod hitrecord;
pub mod light_manager;
pub mod lights;
pub mod materials;
pub mod objects;
pub mod ray;
pub mod renderer;
pub mod scene_manager;
pub mod scenegraph;
pub mod vec3;
