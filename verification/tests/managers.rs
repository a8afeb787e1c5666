//! The interaction surfaces: light selection and adjustment, scene
//! switching, camera state, and the generic vector.

use raytracer::camera::Camera;
use raytracer::camera::CameraMovement;
use raytracer::camera::Vec4;
use raytracer::evector::EVector;
use raytracer::fixed::FX_ONE;
use raytracer::fixed::FX_PI;
use raytracer::fixed::fx_div;
use raytracer::fixed::fx_mul;
use raytracer::light_manager::Axis;
use raytracer::light_manager::InteractionMode;
use raytracer::light_manager::LightManager;
use raytracer::lights::Light;
use raytracer::lights::LightEnum;
use raytracer::lights::LightProperties;
use raytracer::lights::LightType;
use raytracer::lights::PointLight;
use raytracer::objects::ObjectEnum;
use raytracer::objects::ObjectProperties;
use raytracer::objects::Sphere;
use raytracer::scene_manager::SceneManager;
use raytracer::scenegraph::Scenegraph;
use raytracer::vec3::Vec3;

fn fx(v: i64) -> i64 {
    v * FX_ONE
}

fn point_light(x: i64) -> LightEnum {
    LightEnum::Point(PointLight::new(
        LightProperties::new(Vec3::new(FX_ONE, FX_ONE, FX_ONE), fx(10), true, LightType::Point),
        Vec3::new(x, 0, 0),
    ))
}

#[test]
fn light_manager_round_robin_selection() {
    let mut manager = LightManager::new();
    manager.add_light(point_light(0));
    manager.add_light(point_light(fx(1)));
    manager.add_light(point_light(fx(2)));
    assert_eq!(manager.num_lights(), 3);
    assert_eq!(manager.selected_light_index, 0);
    manager.next_selected_light();
    assert_eq!(manager.selected_light_index, 1);
    manager.next_selected_light();
    manager.next_selected_light();
    assert_eq!(manager.selected_light_index, 0);
}

#[test]
fn light_manager_toggle_and_move() {
    let mut manager = LightManager::new();
    manager.add_light(point_light(fx(4)));
    manager.toggle_selected_light();
    assert!(!manager.lights[0].is_light_enabled());
    manager.change_pos_selected_light(Axis::Y, fx(3));
    assert_eq!(*manager.lights[0].get_position(), Vec3::new(fx(4), fx(3), 0));
    manager.change_pos_selected_light(Axis::X, -fx(1));
    assert_eq!(*manager.lights[0].get_position(), Vec3::new(fx(3), fx(3), 0));
}

#[test]
fn light_manager_interaction_modes() {
    let mut manager = LightManager::new();
    manager.add_light(point_light(0));
    assert_eq!(manager.interaction_mode, InteractionMode::Position);
    // In position mode the axis delta moves the light.
    manager.change_value_of_interaction_mode(Axis::Z, fx(2));
    assert_eq!(*manager.lights[0].get_position(), Vec3::new(0, 0, fx(2)));
    // In color mode it shifts a channel instead.
    manager.change_interaction_mode();
    assert_eq!(manager.interaction_mode, InteractionMode::Color);
    manager.change_value_of_interaction_mode(Axis::X, -FX_ONE / 2);
    assert_eq!(*manager.lights[0].get_color(), Vec3::new(FX_ONE / 2, FX_ONE, FX_ONE));
    assert_eq!(*manager.lights[0].get_position(), Vec3::new(0, 0, fx(2)));
    manager.change_intensity_of_selected_light(fx(5));
    assert_eq!(manager.lights[0].get_intensity(), fx(15));
}

#[test]
fn light_manager_remove_by_index() {
    let mut manager = LightManager::new();
    manager.add_light(point_light(0));
    manager.add_light(point_light(fx(1)));
    manager.remove_light(0);
    assert_eq!(manager.num_lights(), 1);
    assert_eq!(*manager.get_lights()[0].get_position(), Vec3::new(fx(1), 0, 0));
}

fn one_sphere_scene(x: i64) -> Scenegraph {
    let mut scene = Scenegraph::new();
    scene.add_object(ObjectEnum::Sphere(Sphere::new(
        ObjectProperties::new(Vec3::new(x, 0, 0), 0),
        FX_ONE,
    )));
    scene
}

#[test]
fn scene_manager_cycles_both_ways() {
    let mut manager = SceneManager::new();
    manager.add_scene(one_sphere_scene(0));
    manager.add_scene(one_sphere_scene(fx(1)));
    manager.add_scene(one_sphere_scene(fx(2)));
    assert_eq!(manager.current_scene_index, 0);
    manager.next_scene();
    assert_eq!(manager.current_scene_index, 1);
    manager.previous_scene();
    manager.previous_scene();
    assert_eq!(manager.current_scene_index, 2);
    manager.next_scene();
    assert_eq!(manager.current_scene_index, 0);
    assert_eq!(manager.get_current_scene().get_objects().len(), 1);
    manager.update(fx(1) / 60);
    assert!(manager.get_current_scene_safe().is_some());
}

#[test]
fn camera_basis_and_translation() {
    let scale = 27146;  // tan(22.5 degrees) in fixed point
    let mut camera = Camera::new(Vec3::new(0, 0, 0), fx(45), scale);
    assert_eq!(camera.get_scale_factor(), scale);
    assert_eq!(camera.get_fov_degrees(), fx(45));
    assert_eq!(camera.get_fov_radians(), fx_div(fx_mul(fx(45), FX_PI), fx(180)));
    assert_eq!(camera.get_forward_vector(), Vec3::new(0, 0, FX_ONE));
    // The derived basis is the world axes for the default forward.
    assert_eq!(camera.right_vector, Vec4::new(FX_ONE, 0, 0, 0));
    assert_eq!(camera.up_vector, Vec4::new(0, FX_ONE, 0, 0));
    assert_eq!(camera.look_at.w_axis, Vec4::new(0, 0, 0, FX_ONE));
    // Moving up shifts the position by speed * delta along world up.
    camera.camera_translation(FX_ONE, CameraMovement::Up);
    assert_eq!(camera.position, Vec3::new(0, fx(15), 0));
    camera.camera_translation(FX_ONE, CameraMovement::Backward);
    assert_eq!(camera.position, Vec3::new(0, fx(15), fx(15)));
    assert!(camera.update_look_at);
    camera.update_look_at();
    assert_eq!(camera.look_at.w_axis, Vec4::new(0, fx(15), fx(15), FX_ONE));
}

#[test]
fn camera_transforms_points_through_look_at() {
    let camera = Camera::new(Vec3::new(fx(1), fx(2), fx(3)), fx(45), 27146);
    let p = camera.look_at.mul_vec4(&Vec4::new(0, 0, 0, FX_ONE));
    assert_eq!(p.truncate(), Vec3::new(fx(1), fx(2), fx(3)));
    let q = camera.look_at.mul_vec4(&Vec4::new(0, 0, FX_ONE, 0));
    assert_eq!(q.truncate(), Vec3::new(0, 0, FX_ONE));
}

#[test]
fn evector_dot_and_cross() {
    let a = EVector::new([fx(1), fx(2), fx(3)]);
    let b = EVector::new([fx(4), -fx(5), fx(6)]);
    assert_eq!(a.dot(&b), fx(4 - 10 + 18));
    assert_eq!(a.sqr_magnitude(), fx(14));
    assert_eq!(a.sqr_distance(&b), fx(9 + 49 + 9));
    let c = a.cross(&b);
    let d = c.sub(&EVector::new([fx(27), fx(6), -fx(13)]));
    assert_eq!(d.sqr_magnitude(), 0);
}

#[test]
fn evector_magnitude_and_normalize() {
    let v = EVector::new([fx(3), fx(4)]);
    assert_eq!(v.magnitude(), fx(5));
    assert_eq!(v.distance(&EVector::new([0, 0])), fx(5));
    let n = v.get_normalized();
    assert_eq!(n.dot(&EVector::new([FX_ONE, 0])), fx_div(fx(3), fx(5)));
    assert_eq!(n.dot(&EVector::new([0, FX_ONE])), fx_div(fx(4), fx(5)));
}
