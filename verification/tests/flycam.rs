use camera_control::bindings::{button, keycode};
use camera_control::flycam::{
    evaluate, fly_camera_controller, plan_binding, CameraEffect, Factor, FlyCameraAction,
    FlyCameraController, FlyCameraInput, FlyCameraInputs, Resolved,
};
use camera_control::input::{
    FrameInput, KeyCode, MouseButton, KEY_1, KEY_5, KEY_SHIFT_LEFT, KEY_W, KEY_Z,
};
use camera_control::scalar::{Scalar, Vec2, Vec3};

fn num(x: f32) -> Scalar {
    Scalar { bits: x.to_bits() }
}

fn val(s: Scalar) -> f32 {
    f32::from_bits(s.bits)
}

fn vec3(x: f32, y: f32, z: f32) -> Vec3 {
    Vec3 { x: num(x), y: num(y), z: num(z) }
}

fn quiet_frame(delta_seconds: f32) -> FrameInput {
    FrameInput {
        pressed_keys: vec![],
        just_pressed_keys: vec![],
        pressed_buttons: vec![],
        just_pressed_buttons: vec![],
        mouse_delta: Vec2 { x: num(0.0), y: num(0.0) },
        wheel_delta: Vec2 { x: num(0.0), y: num(0.0) },
        delta_seconds: num(delta_seconds),
    }
}

fn holding(keys: &[u32], delta_seconds: f32) -> FrameInput {
    let mut frame = quiet_frame(delta_seconds);
    frame.pressed_keys = keys.iter().map(|k| KeyCode(*k)).collect();
    frame
}

fn striking(keys: &[u32], delta_seconds: f32) -> FrameInput {
    let mut frame = holding(keys, delta_seconds);
    frame.just_pressed_keys = keys.iter().map(|k| KeyCode(*k)).collect();
    frame
}

/// The product of the factors, from left to right, starting from one.
fn product(factors: &[Scalar]) -> f32 {
    factors.iter().fold(1.0, |acc, s| acc * val(*s))
}

/// The gain of an effect for a camera of the given speed.
fn gain(effect: &CameraEffect, speed: f32) -> f32 {
    effect.gain.iter().fold(1.0, |acc, factor| {
        acc * match factor {
            Factor::Value(s) => val(*s),
            Factor::Speed => speed,
        }
    })
}

/// A camera that does not turn: its own axes are the world's.
struct Rig {
    position: [f32; 3],
    angles: [f32; 3],
    speed: f32,
}

fn carry_out(rig: &mut Rig, effects: &[CameraEffect]) {
    for effect in effects {
        let g = gain(effect, rig.speed);
        match effect.action {
            FlyCameraAction::MoveLocal(v) | FlyCameraAction::MoveGlobal(v) => {
                rig.position[0] += val(v.x) * g;
                rig.position[1] += val(v.y) * g;
                rig.position[2] += val(v.z) * g;
            }
            FlyCameraAction::RotateEuler(v) => {
                rig.angles[0] += val(v.x) * g;
                rig.angles[1] += val(v.y) * g;
                rig.angles[2] += val(v.z) * g;
            }
            FlyCameraAction::ChangeSpeed(x) => rig.speed *= (val(x) * g).exp(),
            FlyCameraAction::SetSpeed(x) => rig.speed = val(x) * g,
        }
    }
}

fn controller(bindings: Vec<(Vec<FlyCameraInput>, FlyCameraAction)>) -> FlyCameraController {
    FlyCameraController { speed: num(1.0), inputs: FlyCameraInputs(bindings) }
}

fn factors_of(resolved: &Resolved) -> Vec<f32> {
    resolved.factors.iter().map(|s| val(*s)).collect()
}

#[test]
fn held_key_resolves_to_one() {
    let r = evaluate(&vec![keycode(KEY_Z, false)], &holding(&[KEY_Z], 0.5)).unwrap();
    assert_eq!(factors_of(&r), vec![1.0]);
    assert!(!r.instantaneous);
    assert_eq!(product(&r.factors), 1.0);
}

#[test]
fn absent_level_condition_skips_the_rule() {
    let conditions = vec![keycode(KEY_Z, false), keycode(KEY_SHIFT_LEFT, false)];
    assert!(evaluate(&conditions, &holding(&[KEY_Z], 0.5)).is_none());
    assert!(evaluate(&conditions, &holding(&[KEY_SHIFT_LEFT], 0.5)).is_none());
    assert!(evaluate(&conditions, &quiet_frame(0.5)).is_none());
    assert!(evaluate(&conditions, &holding(&[KEY_Z, KEY_SHIFT_LEFT], 0.5)).is_some());
}

#[test]
fn skipped_rule_leaves_the_camera_as_it_is() {
    let action = FlyCameraAction::MoveLocal(vec3(0.0, 0.0, -1.0));
    let with = controller(vec![
        (vec![keycode(KEY_W, false)], FlyCameraAction::SetSpeed(num(4.0))),
        (vec![keycode(KEY_Z, false)], action),
    ]);
    let without = controller(vec![(vec![keycode(KEY_Z, false)], action)]);
    let frame = holding(&[KEY_Z], 0.25);
    let a = fly_camera_controller(&with, &frame);
    let b = fly_camera_controller(&without, &frame);
    assert_eq!(a.len(), 1);
    assert_eq!(b.len(), 1);
    assert_eq!(a[0].action, b[0].action);
    assert_eq!(a[0].gain, b[0].gain);
    let mut rig = Rig { position: [1.0, 2.0, 3.0], angles: [0.0; 3], speed: 2.0 };
    carry_out(&mut rig, &fly_camera_controller(&with, &quiet_frame(0.25)));
    assert_eq!(rig.position, [1.0, 2.0, 3.0]);
    assert_eq!(rig.speed, 2.0);
}

#[test]
fn still_axes_resolve_to_zero_and_are_not_skipped() {
    let conditions = vec![FlyCameraInput::MouseMoveX, FlyCameraInput::ScrollY];
    let r = evaluate(&conditions, &quiet_frame(0.5)).unwrap();
    assert_eq!(factors_of(&r), vec![0.0, 0.0]);
    assert!(!r.instantaneous);
    assert_eq!(product(&r.factors), 0.0);
    let c = controller(vec![(conditions, FlyCameraAction::MoveGlobal(vec3(1.0, 0.0, 0.0)))]);
    let effects = fly_camera_controller(&c, &quiet_frame(0.5));
    assert_eq!(effects.len(), 1);
    let mut rig = Rig { position: [1.0, 2.0, 3.0], angles: [0.0; 3], speed: 2.0 };
    carry_out(&mut rig, &effects);
    assert_eq!(rig.position, [1.0, 2.0, 3.0]);
}

#[test]
fn axis_contributes_the_movement_of_the_frame() {
    let mut frame = quiet_frame(0.5);
    frame.mouse_delta = Vec2 { x: num(3.0), y: num(-4.0) };
    frame.wheel_delta = Vec2 { x: num(0.5), y: num(2.0) };
    let all = vec![
        FlyCameraInput::MouseMoveX,
        FlyCameraInput::MouseMoveY,
        FlyCameraInput::ScrollX,
        FlyCameraInput::ScrollY,
    ];
    let r = evaluate(&all, &frame).unwrap();
    assert_eq!(factors_of(&r), vec![3.0, -4.0, 0.5, 2.0]);
    assert_eq!(product(&r.factors), -12.0);
    assert_eq!(FlyCameraInput::MouseMoveY.contribution(&frame), Some(num(-4.0)));
    assert_eq!(keycode(KEY_Z, false).contribution(&frame), None);
}

#[test]
fn edge_triggered_rule_fires_once_per_press() {
    let conditions = vec![keycode(KEY_W, true)];
    let mut fired = 0;
    let frames = vec![
        quiet_frame(0.1),
        striking(&[KEY_W], 0.1),
        holding(&[KEY_W], 0.1),
        holding(&[KEY_W], 0.1),
        quiet_frame(0.1),
    ];
    for (i, frame) in frames.iter().enumerate() {
        match evaluate(&conditions, frame) {
            Some(r) => {
                assert_eq!(i, 1);
                assert!(r.instantaneous);
                fired += 1;
            }
            None => assert_ne!(i, 1),
        }
    }
    assert_eq!(fired, 1);
}

#[test]
fn key_struck_and_released_within_the_frame_still_fires() {
    let mut frame = quiet_frame(0.1);
    frame.just_pressed_keys = vec![KeyCode(KEY_W)];
    assert!(evaluate(&vec![keycode(KEY_W, true)], &frame).is_some());
    assert!(evaluate(&vec![keycode(KEY_W, false)], &frame).is_none());
    assert!(frame.key_just_pressed(KeyCode(KEY_W)));
    assert!(!frame.key_pressed(KeyCode(KEY_W)));
}

#[test]
fn buttons_are_told_apart() {
    let mut frame = quiet_frame(0.1);
    frame.pressed_buttons = vec![MouseButton::Right, MouseButton::Other(4)];
    frame.just_pressed_buttons = vec![MouseButton::Other(4)];
    assert!(frame.button_pressed(MouseButton::Right));
    assert!(frame.button_pressed(MouseButton::Other(4)));
    assert!(!frame.button_pressed(MouseButton::Other(5)));
    assert!(!frame.button_pressed(MouseButton::Left));
    assert!(!frame.button_just_pressed(MouseButton::Right));
    assert!(frame.button_just_pressed(MouseButton::Other(4)));
    assert!(evaluate(&vec![button(MouseButton::Right, false)], &frame).is_some());
    assert!(evaluate(&vec![button(MouseButton::Right, true)], &frame).is_none());
    assert!(evaluate(&vec![button(MouseButton::Middle, false)], &frame).is_none());
    let r = evaluate(&vec![button(MouseButton::Other(4), true)], &frame).unwrap();
    assert!(r.instantaneous);
}

#[test]
fn one_edge_condition_makes_the_whole_rule_instantaneous() {
    let frame = striking(&[KEY_W, KEY_Z], 0.1);
    let r = evaluate(&vec![keycode(KEY_Z, false), keycode(KEY_W, true)], &frame).unwrap();
    assert!(r.instantaneous);
    let r = evaluate(&vec![keycode(KEY_W, true), keycode(KEY_Z, false)], &frame).unwrap();
    assert!(r.instantaneous);
    let r = evaluate(&vec![keycode(KEY_Z, false), keycode(KEY_W, false)], &frame).unwrap();
    assert!(!r.instantaneous);
}

#[test]
fn empty_condition_set_resolves_to_the_empty_product() {
    let r = evaluate(&vec![], &quiet_frame(0.1)).unwrap();
    assert!(r.factors.is_empty());
    assert!(!r.instantaneous);
    assert_eq!(product(&r.factors), 1.0);
}

#[test]
fn movement_is_scaled_by_speed_and_frame_time() {
    let action = FlyCameraAction::MoveLocal(vec3(0.0, 0.0, -1.0));
    let r = Resolved { factors: vec![num(1.0)], instantaneous: false };
    let e = action.effect(&r, num(0.25));
    assert_eq!(e.action, action);
    assert_eq!(e.gain, vec![Factor::Value(num(1.0)), Factor::Speed, Factor::Value(num(0.25))]);
    assert_eq!(gain(&e, 8.0), 2.0);
    let e = FlyCameraAction::MoveGlobal(vec3(1.0, 0.0, 0.0)).effect(&r, num(0.25));
    assert_eq!(e.gain, vec![Factor::Value(num(1.0)), Factor::Speed, Factor::Value(num(0.25))]);
}

#[test]
fn instantaneous_movement_leaves_the_frame_time_out() {
    let action = FlyCameraAction::MoveLocal(vec3(0.0, 0.0, -5.0));
    let r = Resolved { factors: vec![num(1.0)], instantaneous: true };
    let e = action.effect(&r, num(0.25));
    assert_eq!(e.gain, vec![Factor::Value(num(1.0)), Factor::Speed, Factor::Value(num(1.0))]);
    assert_eq!(gain(&e, 2.0), 2.0);
    let c = controller(vec![(vec![keycode(KEY_W, true)], action)]);
    let mut rig = Rig { position: [0.0; 3], angles: [0.0; 3], speed: 2.0 };
    carry_out(&mut rig, &fly_camera_controller(&c, &striking(&[KEY_W], 0.25)));
    assert_eq!(rig.position, [0.0, 0.0, -10.0]);
    carry_out(&mut rig, &fly_camera_controller(&c, &holding(&[KEY_W], 0.25)));
    assert_eq!(rig.position, [0.0, 0.0, -10.0]);
}

#[test]
fn rotation_and_speed_actions_take_the_raw_value() {
    let r = Resolved { factors: vec![num(3.0), num(1.0)], instantaneous: false };
    let raw = vec![Factor::Value(num(3.0)), Factor::Value(num(1.0))];
    let e = FlyCameraAction::RotateEuler(vec3(-0.002, 0.0, 0.0)).effect(&r, num(0.25));
    assert_eq!(e.gain, raw);
    let e = FlyCameraAction::ChangeSpeed(num(-0.05)).effect(&r, num(0.25));
    assert_eq!(e.gain, raw);
    let e = FlyCameraAction::SetSpeed(num(4.0)).effect(&r, num(0.25));
    assert_eq!(e.gain, raw);
    assert_eq!(gain(&e, 100.0), 3.0);
}

#[test]
fn rotation_follows_the_pointer_while_the_button_is_held() {
    let c = controller(vec![(
        vec![FlyCameraInput::MouseMoveX, button(MouseButton::Right, false)],
        FlyCameraAction::RotateEuler(vec3(-0.002, 0.0, 0.0)),
    )]);
    let mut frame = quiet_frame(0.25);
    frame.mouse_delta = Vec2 { x: num(10.0), y: num(7.0) };
    assert!(fly_camera_controller(&c, &frame).is_empty());
    frame.pressed_buttons = vec![MouseButton::Right];
    let effects = fly_camera_controller(&c, &frame);
    assert_eq!(effects.len(), 1);
    assert_eq!(effects[0].gain, vec![Factor::Value(num(10.0)), Factor::Value(num(1.0))]);
    let mut rig = Rig { position: [0.0; 3], angles: [0.5, 0.0, 0.0], speed: 50.0 };
    carry_out(&mut rig, &effects);
    assert_eq!(rig.angles, [0.5 + -0.002 * 10.0, 0.0, 0.0]);
}

#[test]
fn change_speed_is_multiplicative() {
    let d = -0.05f32;
    let c = controller(vec![(vec![keycode(KEY_Z, false)], FlyCameraAction::ChangeSpeed(num(d)))]);
    let frame = holding(&[KEY_Z], 0.016);
    let mut rig = Rig { position: [0.0; 3], angles: [0.0; 3], speed: 1.5 };
    let n = 40;
    for _ in 0..n {
        let effects = fly_camera_controller(&c, &frame);
        assert_eq!(effects.len(), 1);
        assert_eq!(effects[0].gain, vec![Factor::Value(num(1.0))]);
        carry_out(&mut rig, &effects);
    }
    let direct = 1.5 * (n as f32 * d).exp();
    assert!((rig.speed - direct).abs() <= 1e-4 * direct);
}

#[test]
fn change_speed_by_scroll_uses_the_scroll_delta() {
    let c = controller(vec![(vec![FlyCameraInput::ScrollY], FlyCameraAction::ChangeSpeed(num(-0.05)))]);
    let mut frame = quiet_frame(0.016);
    frame.wheel_delta = Vec2 { x: num(9.0), y: num(-2.0) };
    let effects = fly_camera_controller(&c, &frame);
    assert_eq!(effects[0].gain, vec![Factor::Value(num(-2.0))]);
    let mut rig = Rig { position: [0.0; 3], angles: [0.0; 3], speed: 1.0 };
    carry_out(&mut rig, &effects);
    assert!((rig.speed - 0.1f32.exp()).abs() <= 1e-6);
}

#[test]
fn change_speed_scales_a_negative_speed() {
    let c = controller(vec![
        (vec![FlyCameraInput::ScrollY], FlyCameraAction::SetSpeed(num(2.0))),
        (vec![keycode(KEY_Z, false)], FlyCameraAction::ChangeSpeed(num(0.5))),
    ]);
    let mut frame = holding(&[KEY_Z], 0.016);
    frame.wheel_delta = Vec2 { x: num(0.0), y: num(-1.0) };
    let mut rig = Rig { position: [0.0; 3], angles: [0.0; 3], speed: 1.0 };
    carry_out(&mut rig, &fly_camera_controller(&c, &frame));
    assert_eq!(rig.speed, -2.0 * 0.5f32.exp());
    assert!(rig.speed < 0.0);
}

#[test]
fn change_speed_twice_in_either_order_is_the_same() {
    let up = FlyCameraAction::ChangeSpeed(num(0.25));
    let down = FlyCameraAction::ChangeSpeed(num(-0.75));
    let r = Resolved { factors: vec![num(1.0)], instantaneous: false };
    let effects = [up.effect(&r, num(0.016)), down.effect(&r, num(0.016))];
    let mut one = Rig { position: [0.0; 3], angles: [0.0; 3], speed: 3.0 };
    carry_out(&mut one, &effects);
    let mut other = Rig { position: [0.0; 3], angles: [0.0; 3], speed: 3.0 };
    carry_out(&mut other, &[effects[1].clone(), effects[0].clone()]);
    assert!((one.speed - other.speed).abs() <= 1e-6 * one.speed.abs());
    assert!((one.speed - 3.0 * (-0.5f32).exp()).abs() <= 1e-6 * one.speed.abs());
}

#[test]
fn set_speed_sets_the_target_whatever_the_speed_was() {
    let c = controller(vec![(vec![keycode(KEY_5, true)], FlyCameraAction::SetSpeed(num(0.3125)))]);
    let frame = striking(&[KEY_5], 0.016);
    for before in [0.0f32, 1.0, 123.456, 1e-20, f32::INFINITY] {
        let effects = fly_camera_controller(&c, &frame);
        assert_eq!(effects.len(), 1);
        assert_eq!(effects[0].action, FlyCameraAction::SetSpeed(num(0.3125)));
        assert_eq!(effects[0].gain, vec![Factor::Value(num(1.0))]);
        let mut rig = Rig { position: [0.0; 3], angles: [0.0; 3], speed: before };
        carry_out(&mut rig, &effects);
        assert_eq!(rig.speed.to_bits(), 0.3125f32.to_bits());
    }
}

#[test]
fn base_and_boosted_moves_sum() {
    let c = controller(vec![
        (vec![keycode(KEY_Z, false)], FlyCameraAction::MoveLocal(vec3(0.0, 0.0, -1.0))),
        (
            vec![keycode(KEY_Z, false), keycode(KEY_SHIFT_LEFT, false)],
            FlyCameraAction::MoveLocal(vec3(0.0, 0.0, -2.0)),
        ),
    ]);
    let dt = 0.5f32;
    let speed = 4.0f32;
    let mut rig = Rig { position: [0.0; 3], angles: [0.0; 3], speed };
    let effects = fly_camera_controller(&c, &holding(&[KEY_Z, KEY_SHIFT_LEFT], dt));
    assert_eq!(effects.len(), 2);
    carry_out(&mut rig, &effects);
    assert_eq!(rig.position, [0.0, 0.0, -3.0 * speed * dt]);
    let mut rig = Rig { position: [0.0; 3], angles: [0.0; 3], speed };
    carry_out(&mut rig, &fly_camera_controller(&c, &holding(&[KEY_Z], dt)));
    assert_eq!(rig.position, [0.0, 0.0, -1.0 * speed * dt]);
}

#[test]
fn effects_come_in_table_order() {
    let c = controller(vec![
        (vec![keycode(KEY_1, true)], FlyCameraAction::SetSpeed(num(2.0))),
        (vec![keycode(KEY_W, false)], FlyCameraAction::MoveGlobal(vec3(9.0, 9.0, 9.0))),
        (vec![keycode(KEY_Z, false)], FlyCameraAction::MoveGlobal(vec3(1.0, 0.0, 0.0))),
        (vec![keycode(KEY_5, true)], FlyCameraAction::SetSpeed(num(8.0))),
        (vec![keycode(KEY_Z, false)], FlyCameraAction::MoveGlobal(vec3(0.0, 1.0, 0.0))),
    ]);
    let mut frame = striking(&[KEY_1, KEY_5], 0.5);
    frame.pressed_keys.push(KeyCode(KEY_Z));
    let effects = fly_camera_controller(&c, &frame);
    let actions: Vec<FlyCameraAction> = effects.iter().map(|e| e.action).collect();
    assert_eq!(
        actions,
        vec![
            FlyCameraAction::SetSpeed(num(2.0)),
            FlyCameraAction::MoveGlobal(vec3(1.0, 0.0, 0.0)),
            FlyCameraAction::SetSpeed(num(8.0)),
            FlyCameraAction::MoveGlobal(vec3(0.0, 1.0, 0.0)),
        ]
    );
    let mut rig = Rig { position: [0.0; 3], angles: [0.0; 3], speed: 1.0 };
    carry_out(&mut rig, &effects);
    assert_eq!(rig.position, [1.0, 4.0, 0.0]);
    assert_eq!(rig.speed, 8.0);
    assert_eq!(val(c.speed), 1.0);
}

#[test]
fn plan_binding_plans_what_evaluate_resolves() {
    let action = FlyCameraAction::SetSpeed(num(2.0));
    let conditions = vec![keycode(KEY_1, true)];
    assert!(plan_binding(&conditions, action, &holding(&[KEY_1], 0.5)).is_none());
    let e = plan_binding(&conditions, action, &striking(&[KEY_1], 0.5)).unwrap();
    assert_eq!(e.action, action);
    assert_eq!(e.gain, vec![Factor::Value(num(1.0))]);
}

#[test]
fn controller_without_bindings_plans_nothing() {
    let c = controller(vec![]);
    assert!(fly_camera_controller(&c, &striking(&[KEY_W, KEY_Z], 0.5)).is_empty());
}
