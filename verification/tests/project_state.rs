use flowcut::project::{
    Clip, Project, ProjectInfo, ProjectSettings, ProjectState, Timeline, Track, TrackType,
};

fn project(id: u128, name: &str) -> Project {
    Project {
        id,
        name: name.to_string(),
        path: format!("/projects/{}", name),
        timeline: Timeline::default(),
        media_pool: Vec::new(),
        created_at: 1_000,
        modified_at: 2_000,
        settings: ProjectSettings::default(),
    }
}

fn clip(id: u128, start: i64, duration: i64) -> Clip {
    Clip {
        id,
        media_id: "m".to_string(),
        track_id: "t".to_string(),
        start_time: start,
        duration,
        in_point: 0,
        out_point: duration,
        filters: Vec::new(),
        transitions: Vec::new(),
        speed: 1000,
    }
}

#[test]
fn new_state_has_no_project() {
    let s = ProjectState::new();
    assert!(s.get_current_project().is_none());
    assert!(s.get_recent_projects().is_empty());
}

#[test]
fn open_makes_current_and_puts_it_first() {
    let mut s = ProjectState::new();
    s.open_project(project(1, "one"));
    s.open_project(project(2, "two"));
    assert_eq!(s.get_current_project().unwrap().id, 2);
    let recent: Vec<u128> = s.get_recent_projects().iter().map(|p| p.id).collect();
    assert_eq!(recent, vec![2, 1]);
}

#[test]
fn reopening_moves_entry_to_front_without_duplicate() {
    let mut s = ProjectState::new();
    s.open_project(project(1, "one"));
    s.open_project(project(2, "two"));
    s.open_project(project(1, "one"));
    let recent: Vec<u128> = s.get_recent_projects().iter().map(|p| p.id).collect();
    assert_eq!(recent, vec![1, 2]);
}

#[test]
fn recent_list_keeps_twenty() {
    let mut s = ProjectState::new();
    for i in 0..25u128 {
        s.open_project(project(i, "p"));
    }
    let recent = s.get_recent_projects();
    assert_eq!(recent.len(), 20);
    assert_eq!(recent[0].id, 24);
    assert_eq!(recent[19].id, 5);
}

#[test]
fn close_keeps_recent_list() {
    let mut s = ProjectState::new();
    s.open_project(project(1, "one"));
    s.close_project();
    assert!(s.get_current_project().is_none());
    assert_eq!(s.get_recent_projects().len(), 1);
}

#[test]
fn update_refreshes_recent_entry() {
    let mut s = ProjectState::new();
    s.open_project(project(1, "one"));
    s.open_project(project(2, "two"));
    let mut p = project(1, "renamed");
    p.timeline.duration = 42;
    s.open_project(project(3, "three"));
    s.update_project(p);
    assert_eq!(s.get_current_project().unwrap().name, "renamed");
    let recent = s.get_recent_projects();
    assert_eq!(recent.iter().map(|r| r.id).collect::<Vec<_>>(), vec![3, 2, 1]);
    assert_eq!(recent[2].name, "renamed");
    assert_eq!(recent[2].duration, 42);
}

#[test]
fn update_of_unlisted_project_leaves_recent_list() {
    let mut s = ProjectState::new();
    s.open_project(project(1, "one"));
    s.update_project(project(9, "nine"));
    assert_eq!(s.get_current_project().unwrap().id, 9);
    let recent: Vec<u128> = s.get_recent_projects().iter().map(|p| p.id).collect();
    assert_eq!(recent, vec![1]);
}

#[test]
fn info_counts_tracks_and_clips() {
    let mut p = project(5, "five");
    p.timeline.tracks.push(Track {
        id: 10,
        track_type: TrackType::Video,
        name: "V".to_string(),
        clips: vec![clip(1, 0, 10), clip(2, 10, 10)],
        locked: false,
        visible: true,
        volume: 1000,
    });
    p.timeline.tracks.push(Track {
        id: 11,
        track_type: TrackType::Audio,
        name: "A".to_string(),
        clips: vec![clip(3, 0, 5)],
        locked: false,
        visible: true,
        volume: 1000,
    });
    p.timeline.duration = 20;
    let info = ProjectInfo::from(&p);
    assert_eq!(info.id, 5);
    assert_eq!(info.name, "five");
    assert_eq!(info.path, "/projects/five");
    assert_eq!(info.track_count, 2);
    assert_eq!(info.clip_count, 3);
    assert_eq!(info.duration, 20);
    assert_eq!(info.created_at, 1_000);
    assert_eq!(info.modified_at, 2_000);
}

#[test]
fn default_settings_are_full_hd_at_thirty_fps() {
    let s = ProjectSettings::default();
    assert_eq!(s.resolution_width, 1920);
    assert_eq!(s.resolution_height, 1080);
    assert_eq!(s.frame_rate, 30_000);
    assert_eq!(s.sample_rate, 48_000);
    assert_eq!(s.color_depth, 8);
    assert_eq!(s.preview_quality, "medium");
}
