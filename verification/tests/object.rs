use std::time::Duration;

use toy_engine::component::{Color, Transform, Vector3, Vector4, F32_ONE, F32_ZERO};
use toy_engine::engine::{Application, ApplicationContext};
use toy_engine::object::GameObject;

fn v3(x: f32, y: f32, z: f32) -> Vector3 {
    Vector3::new(x.to_bits(), y.to_bits(), z.to_bits())
}

fn v4(x: f32, y: f32, z: f32, w: f32) -> Vector4 {
    Vector4::new(x.to_bits(), y.to_bits(), z.to_bits(), w.to_bits())
}

#[test]
fn float_constants_are_bit_patterns() {
    assert_eq!(F32_ZERO, 0.0f32.to_bits());
    assert_eq!(F32_ONE, 1.0f32.to_bits());
}

#[test]
fn default_components() {
    let transform = Transform::new();
    assert_eq!(transform.position, v3(0.0, 0.0, 0.0));
    assert_eq!(transform.rotation, v3(0.0, 0.0, 0.0));
    assert_eq!(transform.scale, v3(1.0, 1.0, 1.0));
    assert_eq!(Transform::default(), transform);
    assert_eq!(Color::new().color, v4(0.0, 0.0, 0.0, 0.0));
    assert_eq!(Color::default(), Color::new());
}

#[test]
fn a_new_object_has_the_default_components() {
    let object = GameObject::new();
    assert_eq!(object.transform, Transform::new());
    assert_eq!(object.color, Color::new());
    assert_eq!(GameObject::default(), object);
}

#[test]
fn builders_change_one_component_each() {
    let object = GameObject::new()
        .with_position(v3(1.0, 2.0, 3.0))
        .with_rotation(v3(0.5, 0.0, 0.0))
        .with_scale(v3(0.02, 0.015, 1.0))
        .with_color(v4(0.1, 0.2, 0.7, 1.0));
    assert_eq!(object.transform.position, v3(1.0, 2.0, 3.0));
    assert_eq!(object.transform.rotation, v3(0.5, 0.0, 0.0));
    assert_eq!(object.transform.scale, v3(0.02, 0.015, 1.0));
    assert_eq!(object.color.color, v4(0.1, 0.2, 0.7, 1.0));
    let moved = object.with_position(v3(9.0, 9.0, 9.0));
    assert_eq!(moved.transform.position, v3(9.0, 9.0, 9.0));
    assert_eq!(moved.transform.rotation, object.transform.rotation);
    assert_eq!(moved.transform.scale, object.transform.scale);
    assert_eq!(moved.color, object.color);
}

#[test]
fn objects_added_through_the_context_are_in_the_scene() {
    let mut objects = vec![GameObject::new()];
    let delta = Duration::from_millis(16);
    {
        let mut ctx = ApplicationContext::new(&mut objects, delta);
        assert_eq!(ctx.delta_time(), delta);
        ctx.add_object(GameObject::new().with_position(v3(1.0, 0.0, 0.0)));
        ctx.add_object(GameObject::new().with_position(v3(2.0, 0.0, 0.0)));
        assert_eq!(ctx.delta_time(), delta);
    }
    assert_eq!(objects.len(), 3);
    assert_eq!(objects[0], GameObject::new());
    assert_eq!(objects[1].transform.position, v3(1.0, 0.0, 0.0));
    assert_eq!(objects[2].transform.position, v3(2.0, 0.0, 0.0));
}

struct Grid {
    updates: u32,
}

impl Application for Grid {
    fn on_init(&mut self, mut ctx: ApplicationContext) {
        for x in 0..3 {
            ctx.add_object(GameObject::new().with_position(v3(x as f32, 0.0, 1.0)));
        }
    }

    fn on_update(&mut self, _: ApplicationContext) {
        self.updates += 1;
    }
}

#[test]
fn an_application_fills_the_scene() {
    let mut app = Grid { updates: 0 };
    let mut objects = Vec::new();
    app.on_init(ApplicationContext::new(&mut objects, Duration::ZERO));
    app.on_update(ApplicationContext::new(&mut objects, Duration::from_millis(5)));
    assert_eq!(objects.len(), 3);
    assert_eq!(app.updates, 1);
}
