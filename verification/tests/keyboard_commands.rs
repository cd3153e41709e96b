use flowcut::commands::keyboard::{get_shortcuts, set_shortcut};
use flowcut::project::{Project, ProjectSettings, ProjectState, Timeline};

fn open_state() -> ProjectState {
    let mut ps = ProjectState::new();
    ps.open_project(Project {
        id: 1,
        name: "p".to_string(),
        path: "/p".to_string(),
        timeline: Timeline::default(),
        media_pool: Vec::new(),
        created_at: 0,
        modified_at: 0,
        settings: ProjectSettings::default(),
    });
    ps
}

fn mods(list: &[&str]) -> Vec<String> {
    list.iter().map(|s| s.to_string()).collect()
}

#[test]
fn shortcuts_are_global_and_customizable() {
    let list = get_shortcuts(&ProjectState::new()).ok().unwrap();
    assert_eq!(list.len(), 27);
    for s in &list {
        assert_eq!(s.context, "global");
        assert!(s.customizable);
        assert_eq!(s.default_key, s.key);
        assert_eq!(s.default_modifiers, s.modifiers);
    }
    assert_eq!(list[1].action, "redo");
    assert_eq!(list[1].key, "z");
    assert_eq!(list[1].modifiers, mods(&["ctrl", "shift"]));
}

#[test]
fn free_binding_is_accepted_and_stored() {
    let mut ps = open_state();
    assert_eq!(set_shortcut("undo".to_string(), "u".to_string(), mods(&["alt"]), &mut ps).ok(), Some(true));
    let list = get_shortcuts(&ps).ok().unwrap();
    assert_eq!(list[0].action, "undo");
    assert_eq!(list[0].key, "u");
    assert_eq!(list[0].modifiers, mods(&["alt"]));
    assert_eq!(list[0].default_key, "z");
    assert_eq!(list[0].default_modifiers, mods(&["ctrl"]));
    // The other actions keep their bindings.
    assert_eq!(list[1].key, "z");
    assert_eq!(list[1].modifiers, mods(&["ctrl", "shift"]));
    // Binding the action again replaces its override.
    assert_eq!(set_shortcut("undo".to_string(), "z".to_string(), mods(&["ctrl"]), &mut ps).ok(), Some(true));
    let list = get_shortcuts(&ps).ok().unwrap();
    assert_eq!((list[0].key.as_str(), list[0].modifiers.clone()), ("z", mods(&["ctrl"])));
    assert_eq!(ps.get_current_project().unwrap().settings.shortcut_overrides.len(), 1);
}

#[test]
fn every_default_binding_can_be_applied_again() {
    let mut ps = open_state();
    for d in get_shortcuts(&ProjectState::new()).ok().unwrap() {
        assert_eq!(set_shortcut(d.action.clone(), d.key.clone(), d.modifiers.clone(), &mut ps).ok(), Some(true));
    }
}

#[test]
fn default_bindings_are_distinct() {
    let list = get_shortcuts(&ProjectState::new()).ok().unwrap();
    for i in 0..list.len() {
        for j in i + 1..list.len() {
            assert!(!(list[i].key == list[j].key && list[i].modifiers == list[j].modifiers));
        }
    }
    let split = list.iter().find(|s| s.action == "split_clip").unwrap();
    assert_eq!((split.key.as_str(), split.modifiers.len()), ("s", 0));
    let export = list.iter().find(|s| s.action == "export").unwrap();
    assert_eq!((export.key.as_str(), export.modifiers.clone()), ("e", mods(&["ctrl"])));
    let zoom_in = list.iter().find(|s| s.action == "zoom_in").unwrap();
    assert_eq!((zoom_in.key.as_str(), zoom_in.modifiers.len()), ("+", 0));
    let zoom_out = list.iter().find(|s| s.action == "zoom_out").unwrap();
    assert_eq!((zoom_out.key.as_str(), zoom_out.modifiers.len()), ("-", 0));
}

#[test]
fn conflicting_binding_is_refused() {
    let mut ps = open_state();
    let e = set_shortcut("redo".to_string(), "z".to_string(), mods(&["ctrl"]), &mut ps).err().unwrap();
    assert_eq!(e.kind, "conflict");
    assert_eq!(
        e.message,
        "Key 'z' with modifiers [ctrl] conflicts with action 'undo'. Resolve the conflict before applying."
    );
    let e = set_shortcut("undo".to_string(), "s".to_string(), mods(&["ctrl", "shift"]), &mut ps).err().unwrap();
    assert_eq!(
        e.message,
        "Key 's' with modifiers [ctrl+shift] conflicts with action 'save_project_as'. Resolve the conflict before applying."
    );
    // A refused binding is not stored.
    assert!(ps.get_current_project().unwrap().settings.shortcut_overrides.is_empty());
}

#[test]
fn conflicts_follow_the_bindings_in_force() {
    let mut ps = open_state();
    assert_eq!(set_shortcut("undo".to_string(), "u".to_string(), mods(&["alt"]), &mut ps).ok(), Some(true));
    // The default binding of undo is free now.
    assert_eq!(set_shortcut("redo".to_string(), "z".to_string(), mods(&["ctrl"]), &mut ps).ok(), Some(true));
    // The user's binding of undo is taken.
    let e = set_shortcut("copy".to_string(), "u".to_string(), mods(&["alt"]), &mut ps).err().unwrap();
    assert_eq!(
        e.message,
        "Key 'u' with modifiers [alt] conflicts with action 'undo'. Resolve the conflict before applying."
    );
}

#[test]
fn binding_checks() {
    let mut ps = open_state();
    let e = set_shortcut(" ".to_string(), "a".to_string(), Vec::new(), &mut ps).err().unwrap();
    assert_eq!((e.kind.as_str(), e.message.as_str()), ("validation", "Action identifier must not be empty."));
    let e = set_shortcut("undo".to_string(), "".to_string(), Vec::new(), &mut ps).err().unwrap();
    assert_eq!(e.message, "Key must not be empty.");
    let e = set_shortcut("undo".to_string(), "a".to_string(), mods(&["ctrl", "hyper"]), &mut ps).err().unwrap();
    assert_eq!(e.message, "Invalid modifier 'hyper'. Valid modifiers are: ctrl, alt, shift, meta.");
    let e = set_shortcut("undo".to_string(), "a".to_string(), Vec::new(), &mut ProjectState::new()).err().unwrap();
    assert_eq!(e.kind, "no_active_project");
    assert_eq!(e.message, "No active project. Shortcuts are managed per-project.");
    let e = set_shortcut("fly".to_string(), "a".to_string(), Vec::new(), &mut ps).err().unwrap();
    assert_eq!(e.kind, "action_not_found");
    assert_eq!(e.message, "Action 'fly' not found in shortcut definitions.");
}
