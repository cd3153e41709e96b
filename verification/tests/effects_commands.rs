use flowcut::commands::effects::{apply_filter, get_filter_params, remove_filter, update_filter_params};
use flowcut::commands::project::create_project;
use flowcut::commands::timeline::{add_clip_to_track, add_track};
use flowcut::json::JsonValue;
use flowcut::project::ProjectState;
use flowcut::utils::UndoManager;

fn setup() -> (ProjectState, UndoManager, String) {
    let mut ps = ProjectState::new();
    let mut um = UndoManager::new();
    create_project("Demo".to_string(), "/tmp/demo".to_string(), &mut ps, &mut um).ok().unwrap();
    let t = add_track("video".to_string(), "V".to_string(), &mut ps, &mut um).ok().unwrap();
    let c = add_clip_to_track(t.id, "m".to_string(), 0, 1_000, &mut ps, &mut um).ok().unwrap();
    (ps, um, c.id)
}

fn object(members: &[(&str, i64)]) -> JsonValue {
    JsonValue::Object(members.iter().map(|(k, v)| (k.to_string(), JsonValue::Int(*v))).collect())
}

fn int_of(params: &JsonValue, key: &str) -> Option<i64> {
    match params {
        JsonValue::Object(ms) => ms.iter().find(|(k, _)| k == key).and_then(|(_, v)| match v {
            JsonValue::Int(x) => Some(*x),
            _ => None,
        }),
        _ => None,
    }
}

#[test]
fn apply_stacks_filters_in_order() {
    let (mut ps, mut um, clip) = setup();
    let a = apply_filter(clip.clone(), "brightness".to_string(), object(&[("amount", 2)]), &mut ps, &mut um)
        .ok()
        .unwrap();
    assert_eq!(a.order, 0);
    assert_eq!(a.clip_id, clip);
    assert_eq!(a.filter_type, "brightness");
    assert_eq!(a.name, "brightness");
    assert!(a.enabled);
    assert_eq!(int_of(&a.params, "amount"), Some(2));
    let b = apply_filter(clip.clone(), "blur".to_string(), JsonValue::Null, &mut ps, &mut um).ok().unwrap();
    assert_eq!(b.order, 1);
    match &b.params {
        JsonValue::Object(ms) => assert!(ms.is_empty()),
        _ => panic!("defaults are an empty object"),
    }
    let rec = um.get_undo_history().pop().unwrap();
    assert_eq!(rec.action_type, "apply_filter");
    let filters = &ps.get_current_project().unwrap().timeline.tracks[0].clips[0].filters;
    assert_eq!(filters.len(), 2);
}

#[test]
fn update_changes_only_given_keys() {
    let (mut ps, mut um, clip) = setup();
    let a = apply_filter(clip, "color".to_string(), object(&[("hue", 1), ("saturation", 5)]), &mut ps, &mut um)
        .ok()
        .unwrap();
    let u = update_filter_params(a.id.clone(), object(&[("hue", 7), ("gamma", 3)]), &mut ps, &mut um).ok().unwrap();
    assert_eq!(int_of(&u.params, "hue"), Some(7));
    assert_eq!(int_of(&u.params, "saturation"), Some(5));
    assert_eq!(int_of(&u.params, "gamma"), Some(3));
    let p = get_filter_params(a.id.clone(), &ps).ok().unwrap();
    assert_eq!(int_of(&p, "hue"), Some(7));
    let e = update_filter_params(a.id.clone(), JsonValue::Null, &mut ps, &mut um).err().unwrap();
    assert_eq!(e.message, "Parameters must not be null.");
    let replaced = update_filter_params(a.id.clone(), JsonValue::Int(4), &mut ps, &mut um).ok().unwrap();
    match replaced.params {
        JsonValue::Int(4) => {},
        _ => panic!("non-object parameters replace the old ones"),
    }
}

#[test]
fn remove_closes_the_gap() {
    let (mut ps, mut um, clip) = setup();
    let a = apply_filter(clip.clone(), "a".to_string(), JsonValue::Null, &mut ps, &mut um).ok().unwrap();
    apply_filter(clip.clone(), "b".to_string(), JsonValue::Null, &mut ps, &mut um).ok().unwrap();
    apply_filter(clip.clone(), "c".to_string(), JsonValue::Null, &mut ps, &mut um).ok().unwrap();
    assert_eq!(remove_filter(a.id.clone(), &mut ps, &mut um).ok(), Some(true));
    let project = ps.get_current_project().unwrap();
    let filters = &project.timeline.tracks[0].clips[0].filters;
    let types: Vec<(String, u32)> = filters.iter().map(|f| (f.filter_type.clone(), f.order)).collect();
    assert_eq!(types, vec![("b".to_string(), 0), ("c".to_string(), 1)]);
    let e = get_filter_params(a.id.clone(), &ps).err().unwrap();
    assert_eq!(e.kind, "filter_not_found");
    assert_eq!(e.message, format!("Filter '{}' not found: no filter has this id.", a.id));
}

#[test]
fn filter_command_checks() {
    let (mut ps, mut um, clip) = setup();
    let e = apply_filter(" ".to_string(), "x".to_string(), JsonValue::Null, &mut ps, &mut um).err().unwrap();
    assert_eq!((e.kind.as_str(), e.message.as_str()), ("validation", "Clip ID must not be empty."));
    let e = apply_filter(clip.clone(), "".to_string(), JsonValue::Null, &mut ps, &mut um).err().unwrap();
    assert_eq!(e.message, "Filter type must not be empty.");
    let e = apply_filter(
        "00000000-0000-0000-0000-000000000000".to_string(),
        "x".to_string(),
        JsonValue::Null,
        &mut ps,
        &mut um,
    )
    .err()
    .unwrap();
    assert_eq!(e.kind, "clip_not_found");
    let e = remove_filter("".to_string(), &mut ps, &mut um).err().unwrap();
    assert_eq!(e.message, "Filter ID must not be empty.");
    let e = get_filter_params("x".to_string(), &ProjectState::new()).err().unwrap();
    assert_eq!(e.kind, "no_active_project");
}

#[test]
fn apply_then_remove_gives_stack_back() {
    let (mut ps, mut um, clip) = setup();
    apply_filter(clip.clone(), "a".to_string(), JsonValue::Null, &mut ps, &mut um).ok().unwrap();
    let top = apply_filter(clip.clone(), "b".to_string(), JsonValue::Null, &mut ps, &mut um).ok().unwrap();
    remove_filter(top.id, &mut ps, &mut um).ok().unwrap();
    let project = ps.get_current_project().unwrap();
    let filters = &project.timeline.tracks[0].clips[0].filters;
    assert_eq!(filters.len(), 1);
    assert_eq!(filters[0].filter_type, "a");
    assert_eq!(filters[0].order, 0);
}
