use xrizer_wxr::actions::{ActionSet, ActionState, ActiveActionSet, F32Bits};
use xrizer_wxr::controls::{ActionValue, ControllerInputs, StickAxes};
use xrizer_wxr::paths::{hash_path, Path, PathRegistry, DEFAULT_INTERACTION_PROFILE};
use xrizer_wxr::tracking::{
    f32_bits_equal, is_resolved, update_entry, values_equal, InputActionEntry, InputTracker,
};
use xrizer_wxr::xr::XrTime;

fn inputs(buttons: [bool; 19]) -> ControllerInputs {
    let zero = StickAxes { x_bits: 0, y_bits: 0 };
    ControllerInputs { buttons, left_thumb: zero, right_thumb: zero }
}

struct Fixture {
    registry: PathRegistry,
    grip: Path,
    menu: Path,
    left: Path,
    right: Path,
}

fn fixture() -> Fixture {
    let mut registry = PathRegistry::new();
    let grip = registry.string_to_path_global("/actions/main/in/grip");
    let menu = registry.string_to_path_global("/actions/main/in/menu");
    let left = registry.string_to_path_global("/user/hand/left");
    let right = registry.string_to_path_global("/user/hand/right");
    Fixture { registry, grip, menu, left, right }
}

#[test]
fn registered_paths_read_back() {
    let mut registry = PathRegistry::new();
    let p = registry.string_to_path_global("/user/hand/left");
    assert_eq!(p.0, hash_path("/user/hand/left"));
    assert_eq!(registry.path_to_string_global(p), Some("/user/hand/left".to_string()));
    let again = registry.string_to_path_global("/user/hand/left");
    assert_eq!(again, p);
    assert_eq!(registry.path_to_string_global(Path::null()), None);
    assert_eq!(registry.path_to_string_global(Path(p.0 ^ 1)), None);
}

#[test]
fn path_hash_is_fnv1a() {
    assert_eq!(hash_path(""), 0xcbf2_9ce4_8422_2325);
    assert_eq!(hash_path("a"), 0xaf63_dc4c_8601_ec8c);
    assert_eq!(hash_path("foobar"), 0x8594_4171_f739_67e8);
}

#[test]
fn interaction_profile_defaults_to_touch_controller() {
    let mut registry = PathRegistry::new();
    let p = registry.interaction_profile_path(None);
    assert_eq!(registry.path_to_string_global(p), Some(DEFAULT_INTERACTION_PROFILE.to_string()));
    let q = registry.interaction_profile_path(Some("/interaction_profiles/valve/index_controller"));
    assert_eq!(
        registry.path_to_string_global(q),
        Some("/interaction_profiles/valve/index_controller".to_string())
    );
}

#[test]
fn sync_makes_changes_report_transitions_only() {
    let f = fixture();
    let mut tracker = InputTracker::new();
    let mut pressed = [false; 19];
    pressed[0] = true;

    let first = tracker.action_state(&f.registry, Some(&inputs(pressed)), f.grip, f.left, XrTime(10));
    assert!(matches!(first.value, ActionValue::Bool(true)));
    assert!(first.changed_since_last_sync);
    assert!(first.is_active);
    assert_eq!(first.last_change_time, XrTime(10));

    tracker.sync_actions();
    let same = tracker.action_state(&f.registry, Some(&inputs(pressed)), f.grip, f.left, XrTime(20));
    assert!(!same.changed_since_last_sync);
    assert_eq!(same.last_change_time, XrTime(10));

    let released = tracker.action_state(&f.registry, Some(&inputs([false; 19])), f.grip, f.left, XrTime(30));
    assert!(matches!(released.value, ActionValue::Bool(false)));
    assert!(released.changed_since_last_sync);
    assert_eq!(released.last_change_time, XrTime(30));

    tracker.sync_actions();
    let again = tracker.action_state(&f.registry, Some(&inputs([false; 19])), f.grip, f.left, XrTime(40));
    assert!(!again.changed_since_last_sync);
}

#[test]
fn unresolved_actions_are_not_recorded() {
    let f = fixture();
    let mut tracker = InputTracker::new();
    let mut b = [false; 19];
    b[1] = true;
    let r = tracker.action_state(&f.registry, Some(&inputs(b)), f.menu, f.right, XrTime(5));
    assert!(matches!(r.value, ActionValue::Unresolved));
    assert!(!r.is_active);
    assert!(!r.changed_since_last_sync);
    assert!(tracker.entry(f.menu, f.right).is_none());
    assert!(tracker.is_active(&f.registry, Some(&inputs(b)), f.menu, f.left, XrTime(6)));
    assert!(!tracker.is_active(&f.registry, Some(&inputs(b)), f.menu, f.right, XrTime(6)));
}

#[test]
fn without_a_packet_the_last_value_stands() {
    let f = fixture();
    let mut tracker = InputTracker::new();
    let mut b = [false; 19];
    b[12] = true;
    let v = tracker.action_value_from_input(&f.registry, None, f.grip, f.right, XrTime(1));
    assert!(matches!(v, ActionValue::Unresolved));
    tracker.action_value_from_input(&f.registry, Some(&inputs(b)), f.grip, f.right, XrTime(2));
    let v = tracker.action_value_from_input(&f.registry, None, f.grip, f.right, XrTime(3));
    assert!(matches!(v, ActionValue::Bool(true)));
    let e = tracker.entry(f.grip, f.right).unwrap();
    assert_eq!(e.last_change_time, XrTime(2));
}

#[test]
fn action_state_converts_to_the_action_type() {
    let mut f = fixture();
    let set = ActionSet::new("main", "Main", 0);
    let trigger = set
        .create_action::<F32Bits>(&mut f.registry, "trigger", "Trigger", &[f.left, f.right])
        .unwrap();
    assert_eq!(
        f.registry.path_to_string_global(trigger.path),
        Some("/actions/main/in/trigger".to_string())
    );
    let mut tracker = InputTracker::new();
    let mut b = [false; 19];
    b[7] = true;
    let s: ActionState<F32Bits> = trigger
        .state(&mut tracker, &f.registry, Some(&inputs(b)), f.left, XrTime(7))
        .unwrap();
    assert_eq!(f32::from_bits(s.current_state().0), 1.0);
    assert!(s.is_active());
    assert!(s.changed_since_last_sync());
    assert_eq!(s.last_change_time(), XrTime(7));
    let s = trigger
        .state(&mut tracker, &f.registry, Some(&inputs(b)), f.right, XrTime(8))
        .unwrap();
    assert_eq!(f32::from_bits(s.unwrap().0), 0.0);
    assert!(trigger.is_active(&mut tracker, &f.registry, None, f.left, XrTime(9)).unwrap());
    let copy = trigger.clone();
    assert_eq!(copy.name, "trigger");
    assert_eq!(copy.path, trigger.path);
    assert_eq!(copy.as_raw().as_ffi(), trigger.path.0);
    assert_eq!(copy.unwrap(), trigger.path);
}

#[test]
fn entries_track_change_times() {
    let mut e = InputActionEntry::new();
    assert!(!e.is_active);
    update_entry(&mut e, ActionValue::Bool(false), XrTime(3));
    assert_eq!(e.last_change_time, XrTime(3));
    assert!(e.is_active);
    update_entry(&mut e, ActionValue::Bool(false), XrTime(4));
    assert_eq!(e.last_change_time, XrTime(3));
    update_entry(&mut e, ActionValue::Unresolved, XrTime(5));
    assert_eq!(e.last_change_time, XrTime(5));
    assert!(!e.is_active);
}

#[test]
fn value_equality_follows_f32_equality() {
    let nan = f32::NAN.to_bits();
    assert!(!f32_bits_equal(nan, nan));
    assert!(f32_bits_equal(0.0f32.to_bits(), (-0.0f32).to_bits()));
    assert!(f32_bits_equal(0.5f32.to_bits(), 0.5f32.to_bits()));
    assert!(!f32_bits_equal(0.5f32.to_bits(), 0.25f32.to_bits()));
    let a = ActionValue::Vector2(StickAxes { x_bits: 0.5f32.to_bits(), y_bits: 0 });
    let b = ActionValue::Vector2(StickAxes { x_bits: 0.5f32.to_bits(), y_bits: (-0.0f32).to_bits() });
    assert!(values_equal(&a, &b));
    assert!(!values_equal(&a, &ActionValue::Bool(true)));
    assert!(values_equal(&ActionValue::Unresolved, &ActionValue::Unresolved));
    assert!(is_resolved(&a));
    assert!(!is_resolved(&ActionValue::Unresolved));
}

#[test]
fn unknown_paths_are_reported_by_handle() {
    let mut registry = PathRegistry::new();
    let p = registry.string_to_path_global("/user/head");
    assert_eq!(registry.path_to_string(p).unwrap(), "/user/head");
    match registry.path_to_string(Path(42)) {
        Err(xrizer_wxr::xr::SessionCreationError::InitializationFailed(m)) => {
            assert_eq!(m, format!("Unknown path: {:?}", Path(42)));
        }
        other => panic!("unexpected {other:?}"),
    }
    assert!(registry.path_to_string(Path::null()).is_err());
}

#[test]
fn defaults_are_inactive_and_at_rest() {
    let s: ActionState<bool> = ActionState::default();
    assert!(!s.state());
    assert!(!s.is_active());
    assert!(!s.changed_since_last_sync());
    assert_eq!(s.last_change_time(), XrTime(0));
    let f: ActionState<F32Bits> = ActionState::default();
    assert_eq!(f.current_state(), F32Bits(0));
    let e = InputActionEntry::default();
    assert!(matches!(e.value, ActionValue::Unresolved));
    assert!(matches!(e.previous_synced, ActionValue::Unresolved));
    assert!(!e.is_active);
    assert_eq!(e.last_change_time, XrTime(0));
}

#[test]
fn active_sets_cover_all_hands() {
    let set = ActionSet::new("main", "Main", 3);
    let active = ActiveActionSet::from(&set);
    assert_eq!(active.action_set.name, "main");
    assert_eq!(active.action_set.localized_name, "Main");
    assert_eq!(active.action_set.priority, 3);
    assert!(active.subaction_path.is_none());
    let again = ActiveActionSet::new(&set);
    assert_eq!(again.action_set.priority, 3);
}

#[test]
fn a_read_and_an_active_check_agree() {
    let f = fixture();
    let mut b = [false; 19];
    b[0] = true;
    for (action, hand) in [(f.grip, f.left), (f.grip, f.right), (f.menu, f.left), (f.menu, f.right)] {
        for packet in [Some(inputs(b)), Some(inputs([false; 19])), None] {
            let mut tracker = InputTracker::new();
            tracker.action_value_from_input(&f.registry, Some(&inputs(b)), action, hand, XrTime(1));
            let read = tracker.action_state(&f.registry, packet.as_ref(), action, hand, XrTime(2));
            let active = tracker.is_active(&f.registry, packet.as_ref(), action, hand, XrTime(3));
            assert_eq!(read.is_active, active);
        }
    }
}
