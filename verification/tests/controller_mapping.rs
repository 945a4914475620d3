use xrizer_wxr::actions::{ActionTy, F32Bits, F32_ONE_BITS};
use xrizer_wxr::controls::{
    action_name_from_path, button_index, hand_curl_inputs, hand_curl_target, hand_from_path,
    resolve_action, resolve_analog, resolve_digital, ActionValue, ButtonKind, ControllerInputs,
    CurlInputs, Hand, StickAxes,
};
use xrizer_wxr::paths::PathRegistry;

fn axes(x: f32, y: f32) -> StickAxes {
    StickAxes { x_bits: x.to_bits(), y_bits: y.to_bits() }
}

fn pose(buttons: [bool; 19], left_thumb: StickAxes, right_thumb: StickAxes) -> ControllerInputs {
    ControllerInputs { buttons, left_thumb, right_thumb }
}

fn action_name(path: &str) -> Option<String> {
    let mut registry = PathRegistry::new();
    let p = registry.string_to_path_global(path);
    action_name_from_path(&registry, p.0)
}

fn is_bool(v: ActionValue, expected: bool) -> bool {
    matches!(v, ActionValue::Bool(b) if b == expected)
}

#[test]
fn resolves_left_grip_and_trigger() {
    let mut b = [false; 19];
    b[0] = true; // left grip
    let p = pose(b, axes(0.0, 0.0), axes(0.0, 0.0));

    assert!(is_bool(
        resolve_action(action_name("/actions/set/in/grip"), Some(Hand::Left), &p),
        true
    ));
}

#[test]
fn resolves_thumbstick_analog_and_click() {
    let buttons = [false; 19];
    let p = pose(buttons, axes(0.4, -0.6), axes(0.0, 0.0));

    let analog = resolve_action(action_name("/actions/set/in/main-joystick"), Some(Hand::Left), &p);
    match analog {
        ActionValue::Vector2(v) => {
            assert_eq!(f32::from_bits(v.x_bits), 0.4);
            assert_eq!(f32::from_bits(v.y_bits), -0.6);
        }
        other => panic!("expected a thumbstick value, got {other:?}"),
    }

    let click = resolve_action(action_name("/actions/set/in/thumbstick-click"), Some(Hand::Left), &p);
    assert!(is_bool(click, false));
}

#[test]
fn trigger_analog_reflects_button() {
    let mut b = [false; 19];
    b[18] = true; // right trigger
    let p = pose(b, axes(0.0, 0.0), axes(0.0, 0.0));
    let v = resolve_action(action_name("/actions/set/in/trigger"), Some(Hand::Right), &p);
    assert!(is_bool(v, true));
    let f: F32Bits = F32Bits::from_value(&v);
    assert_eq!(f32::from_bits(f.0), 1.0);
    assert_eq!(f.0, F32_ONE_BITS);
}

#[test]
fn menu_maps_only_to_left_hand() {
    let mut b = [false; 19];
    b[1] = true; // left menu
    let p = pose(b, axes(0.0, 0.0), axes(0.0, 0.0));
    assert!(is_bool(
        resolve_action(action_name("/actions/set/in/app-menu"), Some(Hand::Left), &p),
        true
    ));
    assert!(matches!(
        resolve_action(action_name("/actions/set/in/app-menu"), Some(Hand::Right), &p),
        ActionValue::Unresolved
    ));
}

fn curl_fractions(c: [u8; 5]) -> [f32; 5] {
    c.map(|t| t as f32 / 12.0)
}

#[test]
fn curl_from_buttons_follows_grip_trigger_and_thumbstick() {
    let mut b = [false; 19];
    b[7] = true; // left trigger
    let curls = curl_fractions(hand_curl_target(Hand::Left, Some(&b)));
    assert_eq!(curls[1], 1.0); // index follows trigger
    assert!(curls[2] >= 0.5 && curls[2] < 1.0); // partial bleed into middle

    let mut b = [false; 19];
    b[0] = true; // left grip
    let curls = curl_fractions(hand_curl_target(Hand::Left, Some(&b)));
    assert_eq!(curls, [0.0, 0.0, 1.0, 1.0, 1.0]);

    let mut b = [false; 19];
    b[13] = true; // right thumbstick click
    let curls = curl_fractions(hand_curl_target(Hand::Right, Some(&b)));
    assert_eq!(curls[0], 1.0); // thumb
    assert_eq!(curls[1..], [0.0, 0.0, 0.0, 0.0]);

    assert_eq!(curl_fractions(hand_curl_target(Hand::Left, None)), [0.0; 5]);
}

#[test]
fn trigger_bleeds_a_half_a_quarter_and_a_sixth() {
    let mut b = [false; 19];
    b[18] = true; // right trigger
    assert_eq!(hand_curl_target(Hand::Right, Some(&b)), [0, 12, 6, 3, 2]);
    let curls = curl_fractions(hand_curl_target(Hand::Right, Some(&b)));
    assert_eq!(curls[4], 1.0f32 / 6.0);
    b[12] = true; // right grip too
    assert_eq!(hand_curl_target(Hand::Right, Some(&b)), [0, 12, 12, 12, 12]);
}

#[test]
fn curl_inputs_read_the_hand_buttons() {
    let mut b = [false; 19];
    b[2] = true; // left thumbstick click
    b[12] = true; // right grip
    assert_eq!(
        hand_curl_inputs(Hand::Left, Some(&b)),
        CurlInputs { thumb: true, index: false, grip: false }
    );
    assert_eq!(
        hand_curl_inputs(Hand::Right, Some(&b)),
        CurlInputs { thumb: false, index: false, grip: true }
    );
    assert_eq!(
        hand_curl_inputs(Hand::Right, None),
        CurlInputs { thumb: false, index: false, grip: false }
    );
}

#[test]
fn button_layout_follows_the_protocol() {
    assert_eq!(button_index(Hand::Left, ButtonKind::Grip), Some(0));
    assert_eq!(button_index(Hand::Left, ButtonKind::ThumbstickClick), Some(2));
    assert_eq!(button_index(Hand::Left, ButtonKind::TriggerClick), Some(7));
    assert_eq!(button_index(Hand::Left, ButtonKind::ButtonA), Some(8));
    assert_eq!(button_index(Hand::Left, ButtonKind::ButtonB), Some(9));
    assert_eq!(button_index(Hand::Right, ButtonKind::ButtonA), Some(10));
    assert_eq!(button_index(Hand::Right, ButtonKind::ButtonB), Some(11));
    assert_eq!(button_index(Hand::Right, ButtonKind::Grip), Some(12));
    assert_eq!(button_index(Hand::Right, ButtonKind::ThumbstickClick), Some(13));
    assert_eq!(button_index(Hand::Right, ButtonKind::TriggerClick), Some(18));
}

#[test]
fn digital_names_resolve_case_insensitively() {
    let mut b = [false; 19];
    b[8] = true; // left X
    b[11] = true; // right B
    assert_eq!(resolve_digital(Some("X".to_string()), Hand::Left, &b), Some(true));
    assert_eq!(resolve_digital(Some("a".to_string()), Hand::Left, &b), Some(true));
    assert_eq!(resolve_digital(Some("Y".to_string()), Hand::Right, &b), Some(true));
    assert_eq!(resolve_digital(Some("b".to_string()), Hand::Left, &b), Some(false));
    assert_eq!(resolve_digital(Some("Squeeze".to_string()), Hand::Right, &b), Some(false));
    assert_eq!(resolve_digital(Some("thumbstick".to_string()), Hand::Left, &b), None);
    assert_eq!(resolve_digital(Some("ax".to_string()), Hand::Left, &b), None);
    assert_eq!(resolve_digital(Some("system".to_string()), Hand::Right, &b), None);
    assert_eq!(resolve_digital(None, Hand::Left, &b), None);
}

#[test]
fn analog_names_exclude_clicks_and_touches() {
    let stick = axes(0.25, 0.5);
    assert!(matches!(
        resolve_analog(Some("Trackpad".to_string()), stick),
        Some(ActionValue::Vector2(v)) if v == stick
    ));
    assert!(resolve_analog(Some("joystick-touch".to_string()), stick).is_none());
    assert!(resolve_analog(Some("thumbstick-click".to_string()), stick).is_none());
    assert!(resolve_analog(Some("trigger".to_string()), stick).is_none());
    assert!(resolve_analog(None, stick).is_none());
}

#[test]
fn each_hand_reads_only_its_controller() {
    let mut b = [false; 19];
    b[12] = true; // right grip only
    let p = pose(b, axes(0.1, 0.2), axes(0.3, 0.4));
    assert!(is_bool(resolve_action(Some("grip".to_string()), Some(Hand::Left), &p), false));
    assert!(is_bool(resolve_action(Some("grip".to_string()), Some(Hand::Right), &p), true));
    match resolve_action(Some("thumbstick".to_string()), Some(Hand::Right), &p) {
        ActionValue::Vector2(v) => assert_eq!(v, axes(0.3, 0.4)),
        other => panic!("expected the right thumbstick, got {other:?}"),
    }
    assert!(matches!(
        resolve_action(Some("grip".to_string()), None, &p),
        ActionValue::Unresolved
    ));
}

#[test]
fn action_and_hand_come_from_registered_paths() {
    let mut registry = PathRegistry::new();
    let action = registry.string_to_path_global("/actions/main/in/Fire/in/Trigger");
    let left = registry.string_to_path_global("/user/hand/left/");
    let right = registry.string_to_path_global("/user/hand/right");
    let head = registry.string_to_path_global("/user/head");
    let bare = registry.string_to_path_global("/actions/main/in/");
    assert_eq!(action_name_from_path(&registry, action.0), Some("Trigger".to_string()));
    assert_eq!(action_name_from_path(&registry, bare.0), None);
    assert_eq!(action_name_from_path(&registry, 12345), None);
    assert_eq!(hand_from_path(&registry, left.0), Some(Hand::Left));
    assert_eq!(hand_from_path(&registry, right.0), Some(Hand::Right));
    assert_eq!(hand_from_path(&registry, head.0), None);
    assert_eq!(hand_from_path(&registry, 0), None);
}
