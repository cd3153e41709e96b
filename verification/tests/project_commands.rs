use flowcut::commands::project::{close_project, create_project, get_project_info, open_project, save_project};
use flowcut::project::{Project, ProjectSettings, ProjectState, Timeline};
use flowcut::utils::UndoManager;

fn stored(id: u128, name: &str) -> Project {
    Project {
        id,
        name: name.to_string(),
        path: "/p/x.flowcut".to_string(),
        timeline: Timeline::default(),
        media_pool: Vec::new(),
        created_at: 0,
        modified_at: 86_400_000,
        settings: ProjectSettings::default(),
    }
}

#[test]
fn create_project_opens_it() {
    let mut ps = ProjectState::new();
    let mut um = UndoManager::new();
    let info = create_project("My Edit".to_string(), "/home/me/edit".to_string(), &mut ps, &mut um).ok().unwrap();
    assert_eq!(info.name, "My Edit");
    assert_eq!(info.path, "/home/me/edit");
    assert_eq!(info.timeline_duration, 0);
    assert_eq!(info.media_count, 0);
    assert_eq!(info.track_count, 0);
    assert_eq!(info.id.len(), 36);
    assert_eq!(info.created_at, info.modified_at);
    let current = ps.get_current_project().unwrap();
    assert_eq!(current.name, "My Edit");
    assert_eq!(current.settings.frame_rate, 30_000);
    assert_eq!(ps.get_recent_projects().len(), 1);
    let rec = um.get_undo_history().pop().unwrap();
    assert_eq!(rec.action_type, "create_project");
    assert_eq!(rec.description, "Created project 'My Edit'");
    assert_eq!(get_project_info(&ps).ok().unwrap().id, info.id);
}

#[test]
fn create_project_validates_name_and_path() {
    let mut ps = ProjectState::new();
    let mut um = UndoManager::new();
    let e = create_project(" ".to_string(), "/x".to_string(), &mut ps, &mut um).err().unwrap();
    assert_eq!((e.kind.as_str(), e.message.as_str()), ("validation", "Project name must not be empty."));
    let e = create_project("a".repeat(257), "/x".to_string(), &mut ps, &mut um).err().unwrap();
    assert_eq!(e.message, "Project name must not exceed 256 characters.");
    // 256 bytes pass; the limit counts bytes, so 129 two-byte characters do not.
    assert!(create_project("a".repeat(256), "/x".to_string(), &mut ps, &mut um).is_ok());
    let e = create_project("\u{e9}".repeat(129), "/x".to_string(), &mut ps, &mut um).err().unwrap();
    assert_eq!(e.message, "Project name must not exceed 256 characters.");
    let e = create_project("ok".to_string(), "".to_string(), &mut ps, &mut um).err().unwrap();
    assert_eq!(e.message, "Project path must not be empty.");
}

#[test]
fn open_project_uses_loaded_project() {
    let mut ps = ProjectState::new();
    let mut um = UndoManager::new();
    let info = open_project("/p/x.flowcut".to_string(), Ok(stored(0x1234, "Loaded")), &mut ps, &mut um).ok().unwrap();
    assert_eq!(info.name, "Loaded");
    assert_eq!(info.id, "00000000-0000-0000-0000-000000001234");
    assert_eq!(info.created_at, "1970-01-01T00:00:00+00:00");
    assert_eq!(info.modified_at, "1970-01-02T00:00:00+00:00");
    assert_eq!(ps.get_current_project().unwrap().id, 0x1234);
    assert_eq!(um.get_undo_history().pop().unwrap().action_type, "open_project");
    let e = open_project("/p/y".to_string(), Err("no such file".to_string()), &mut ps, &mut um).err().unwrap();
    assert_eq!(e.kind, "open_failed");
    assert_eq!(e.message, "Failed to open project: no such file");
    assert_eq!(ps.get_current_project().unwrap().id, 0x1234);
    let e = open_project(" ".to_string(), Ok(stored(1, "x")), &mut ps, &mut um).err().unwrap();
    assert_eq!(e.message, "Project path must not be empty.");
}

#[test]
fn save_close_and_info_need_open_project() {
    let mut ps = ProjectState::new();
    let e = save_project(&ps).err().unwrap();
    assert_eq!(e.message, "No active project to save. Open or create a project first.");
    let e = close_project(&mut ps).err().unwrap();
    assert_eq!((e.kind.as_str(), e.message.as_str()), ("no_active_project", "No active project to close."));
    let e = get_project_info(&ps).err().unwrap();
    assert_eq!(e.message, "No active project. Open or create a project first.");
    ps.open_project(stored(7, "seven"));
    assert_eq!(save_project(&ps).ok().unwrap().id, 7);
    assert_eq!(close_project(&mut ps).ok(), Some(true));
    assert!(ps.get_current_project().is_none());
    assert_eq!(ps.get_recent_projects().len(), 1);
}
