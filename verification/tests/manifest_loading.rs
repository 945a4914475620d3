use xrizer_wxr::actions::{
    build_action_sets, can_load_actions, create_action_set, load_action_sets, load_actions, parse_skeleton, ActionData,
    ActionDataCommon, ActionPath, ActionSetJson, ActionType, InputError, Localization,
    SkeletonData, SkeletonPathError, MAX_ACTION_NAME_BYTES,
};
use xrizer_wxr::controls::Hand;
use xrizer_wxr::paths::PathRegistry;

fn set_json(path: &str) -> ActionSetJson {
    ActionSetJson { path: path.to_string() }
}

fn common(path: &str) -> ActionDataCommon {
    ActionDataCommon { name: ActionPath { path: path.to_string() } }
}

#[test]
fn action_sets_are_keyed_by_lowercased_path() {
    let mut english = Localization::new("en_US".to_string());
    english.add_name("/actions/Main".to_string(), "Main Controls".to_string());
    let sets = load_action_sets(
        Some(&english),
        vec![set_json("/actions/Main"), set_json("/actions/legacy")],
    )
    .unwrap();
    assert_eq!(sets.len(), 2);
    let main = sets.get("/actions/main").unwrap();
    assert_eq!(main.name, "main");
    assert_eq!(main.localized_name, "Main Controls");
    assert_eq!(main.priority, 0);
    let legacy = sets.get("/actions/legacy").unwrap();
    assert_eq!(legacy.localized_name, "/actions/legacy");
    assert!(sets.get("/actions/Main").is_none());
}

#[test]
fn action_set_outside_actions_is_refused() {
    let r = load_action_sets(None, vec![set_json("/actions/ok"), set_json("/sets/bad")]);
    assert_eq!(r.err(), Some(InputError::InvalidParam));
    assert_eq!(create_action_set("/action/x", None).err(), Some(InputError::InvalidParam));
    let s = create_action_set("/actions/x", Some("X")).unwrap();
    assert_eq!(s.name, "x");
    assert_eq!(s.localized_name, "X");
}

#[test]
fn later_set_with_same_key_replaces_earlier() {
    let mut english = Localization::new("en_US".to_string());
    english.add_name("/actions/MAIN".to_string(), "Second".to_string());
    let sets = load_action_sets(
        Some(&english),
        vec![set_json("/actions/main"), set_json("/actions/MAIN")],
    )
    .unwrap();
    assert_eq!(sets.len(), 1);
    assert_eq!(sets.get("/actions/main").unwrap().localized_name, "Second");
}

#[test]
fn skeleton_paths_name_a_hand() {
    assert_eq!(parse_skeleton("/skeleton/hand/left").ok(), Some(Hand::Left));
    assert_eq!(parse_skeleton("/skeleton/hand/right").ok(), Some(Hand::Right));
    match parse_skeleton("/skeleton/hand/middle") {
        Err(SkeletonPathError::NotAHand(rest)) => assert_eq!(rest, "/middle"),
        other => panic!("unexpected {other:?}"),
    }
    match parse_skeleton("/user/hand/left") {
        Err(SkeletonPathError::NotSkeleton(p)) => assert_eq!(p, "/user/hand/left"),
        other => panic!("unexpected {other:?}"),
    }
}

#[test]
fn action_paths_split_into_set_and_name() {
    let p = ActionPath { path: "/actions/main/in/Jump".to_string() };
    assert_eq!(p.action_set_name(), "/actions/main");
    assert_eq!(p.cleaned_name(), "Jump");
    let p = ActionPath { path: "noslash".to_string() };
    assert_eq!(p.action_set_name(), "noslash");
    assert_eq!(p.cleaned_name(), "noslash");
}

#[test]
fn actions_load_into_their_sets() {
    let mut registry = PathRegistry::new();
    let left = registry.string_to_path_global("/user/hand/left");
    let right = registry.string_to_path_global("/user/hand/right");
    let mut sets = load_action_sets(None, vec![set_json("/actions/main")]).unwrap();
    let actions = vec![
        ActionType::Boolean(common("/actions/main/in/Jump")),
        ActionType::Vector1(common("/actions/main/in/Throttle")),
        ActionType::Vector2(common("/actions/main/in/Move")),
        ActionType::Vector3(common("/actions/main/in/Ignored")),
        ActionType::Pose(common("/actions/main/in/Pose")),
        ActionType::Skeleton(SkeletonData {
            skeleton: Hand::Right,
            data: common("/actions/main/in/SkelRight"),
        }),
        ActionType::Vibration(common("/actions/extra/out/Haptic")),
    ];
    let loaded = load_actions(None, &mut sets, actions, left, right, &mut registry).unwrap();
    assert_eq!(loaded.len(), 6);
    match loaded.get("/actions/main/in/Jump").unwrap() {
        ActionData::Bool(a) => {
            assert_eq!(a.name, "Jump");
            assert_eq!(
                registry.path_to_string_global(a.path),
                Some("/actions/main/in/Jump".to_string())
            );
        }
        other => panic!("unexpected {other:?}"),
    }
    match loaded.get("/actions/main/in/Throttle").unwrap() {
        ActionData::Vector1 { action, last_value } => {
            assert_eq!(action.name, "Throttle");
            assert_eq!(last_value.0, 0);
        }
        other => panic!("unexpected {other:?}"),
    }
    assert!(matches!(loaded.get("/actions/main/in/Move"), Some(ActionData::Vector2 { .. })));
    assert!(loaded.get("/actions/main/in/Ignored").is_none());
    assert!(matches!(loaded.get("/actions/main/in/Pose"), Some(ActionData::Pose)));
    assert!(matches!(
        loaded.get("/actions/main/in/SkelRight"),
        Some(ActionData::Skeleton(Hand::Right))
    ));
    match loaded.get("/actions/extra/out/Haptic").unwrap() {
        ActionData::Haptic(a) => {
            assert_eq!(
                registry.path_to_string_global(a.path),
                Some("/actions/extra/in/Haptic".to_string())
            );
        }
        other => panic!("unexpected {other:?}"),
    }
    // the set the manifest did not declare is created from its path
    let extra = sets.get("/actions/extra").unwrap();
    assert_eq!(extra.name, "extra");
    assert_eq!(extra.localized_name, "/actions/extra");
}

#[test]
fn overlong_action_names_are_shortened_and_numbered() {
    let mut registry = PathRegistry::new();
    let left = registry.string_to_path_global("/user/hand/left");
    let right = registry.string_to_path_global("/user/hand/right");
    let mut sets = load_action_sets(None, vec![set_json("/actions/main")]).unwrap();
    let long_a = "a".repeat(300);
    let long_b = "b".repeat(256);
    let exact = "c".repeat(MAX_ACTION_NAME_BYTES);
    let actions = vec![
        ActionType::Boolean(common(&format!("/actions/main/in/{long_a}"))),
        ActionType::Boolean(common(&format!("/actions/main/in/{exact}"))),
        ActionType::Boolean(common(&format!("/actions/main/in/{long_b}"))),
    ];
    let loaded = load_actions(None, &mut sets, actions, left, right, &mut registry).unwrap();
    let name_of = |p: String| match loaded.get(&p).unwrap() {
        ActionData::Bool(a) => a.name.clone(),
        other => panic!("unexpected {other:?}"),
    };
    let a = name_of(format!("/actions/main/in/{long_a}"));
    assert_eq!(a.len(), MAX_ACTION_NAME_BYTES);
    assert_eq!(a, format!("{}_ln0", "a".repeat(251)));
    assert_eq!(name_of(format!("/actions/main/in/{exact}")), exact);
    let b = name_of(format!("/actions/main/in/{long_b}"));
    assert_eq!(b, format!("{}_ln1", "b".repeat(251)));
}

#[test]
fn loadability_is_checked_before_loading() {
    let mut registry = PathRegistry::new();
    let sets = load_action_sets(None, vec![set_json("/actions/main")]).unwrap();
    let fine = vec![
        ActionType::Boolean(common("/actions/main/in/Jump")),
        ActionType::Pose(common("/nowhere/Pose")),
    ];
    assert!(can_load_actions(&sets, &registry, &fine));
    let missing_set = vec![ActionType::Boolean(common("/other/main/in/Jump"))];
    assert!(!can_load_actions(&sets, &registry, &missing_set));
    // an overlong name whose cut falls inside a two-byte character
    let split = format!("/actions/main/in/{}", "é".repeat(130));
    assert!(!can_load_actions(&sets, &registry, &[ActionType::Boolean(common(&split))]));
    // the same length of two-byte characters after one ASCII byte is cut cleanly
    let clean = format!("/actions/main/in/a{}", "é".repeat(130));
    assert!(can_load_actions(&sets, &registry, &[ActionType::Boolean(common(&clean))]));
    let left = registry.string_to_path_global("/user/hand/left");
    let right = registry.string_to_path_global("/user/hand/right");
    let mut sets = sets;
    let loaded = load_actions(
        None,
        &mut sets,
        vec![ActionType::Boolean(common(&clean))],
        left,
        right,
        &mut registry,
    )
    .unwrap();
    match loaded.get(&clean).unwrap() {
        ActionData::Bool(a) => {
            assert_eq!(a.name, format!("a{}_ln0", "é".repeat(125)));
        }
        other => panic!("unexpected {other:?}"),
    }
}

#[test]
fn sets_are_built_under_the_given_keys() {
    let mut english = Localization::new("en_US".to_string());
    english.add_name("/actions/A".to_string(), "First".to_string());
    english.add_name("/actions/B".to_string(), "Second".to_string());
    let entries = vec![set_json("/actions/A"), set_json("/actions/B"), set_json("/actions/C")];
    let keys = vec!["/actions/x".to_string(), "/actions/x".to_string(), "/actions/y".to_string()];
    let sets = build_action_sets(Some(&english), &entries, &keys).unwrap();
    assert_eq!(sets.len(), 2);
    let x = sets.get("/actions/x").unwrap();
    assert_eq!(x.name, "x");
    assert_eq!(x.localized_name, "Second");
    let y = sets.get("/actions/y").unwrap();
    assert_eq!(y.name, "y");
    assert_eq!(y.localized_name, "/actions/y");
    let bad = vec!["/actions/x".to_string(), "/sets/x".to_string(), "/actions/y".to_string()];
    assert_eq!(
        build_action_sets(None, &entries, &bad).err(),
        Some(InputError::InvalidParam)
    );
}
