use flowcut::commands::preview::{frames_in, get_preview_info, render_preview_frame, seek_preview, PLACEHOLDER_FRAME};
use flowcut::engine::EngineState;
use flowcut::project::{MediaItem, MediaType, Project, ProjectSettings, ProjectState, Timeline};

fn media(id: u128, width: u32, height: u32) -> MediaItem {
    MediaItem {
        id,
        name: "v".to_string(),
        path: "/v.mp4".to_string(),
        media_type: MediaType::Video,
        duration: 2_000_000,
        width,
        height,
        frame_rate: 30_000,
        codec: "hevc".to_string(),
        bitrate: 0,
        file_size: 0,
        thumbnail_path: None,
    }
}

fn state_with(duration: i64) -> ProjectState {
    let mut ps = ProjectState::new();
    let mut timeline = Timeline::default();
    timeline.duration = duration;
    ps.open_project(Project {
        id: 1,
        name: "p".to_string(),
        path: "/p".to_string(),
        timeline,
        media_pool: vec![media(0x10, 1920, 1080), media(0x20, 640, 0)],
        created_at: 0,
        modified_at: 0,
        settings: ProjectSettings::default(),
    });
    ps
}

fn ready_engine() -> EngineState {
    let mut e = EngineState::new();
    e.initialize(true, false, Vec::new(), Vec::new());
    e
}

#[test]
fn render_gives_placeholder_frame() {
    let ps = state_with(5_000_000);
    let frame = render_preview_frame(1_000_000, &ready_engine(), &ps).ok().unwrap();
    assert_eq!(frame, PLACEHOLDER_FRAME);
    assert!(frame.starts_with("iVBORw0KGgo"));
}

#[test]
fn render_checks_in_order() {
    let ps = state_with(5_000_000);
    let e = render_preview_frame(-1, &ready_engine(), &ps).err().unwrap();
    assert_eq!((e.kind.as_str(), e.message.as_str()), ("validation", "Timestamp must not be negative."));
    let e = render_preview_frame(0, &EngineState::new(), &ps).err().unwrap();
    assert_eq!(e.kind, "engine_not_initialized");
    assert_eq!(e.message, "The video engine has not been initialized. Call initialize_engine first.");
    let e = render_preview_frame(0, &ready_engine(), &ProjectState::new()).err().unwrap();
    assert_eq!(e.message, "No active project. Open a project before rendering previews.");
    let e = render_preview_frame(6_500_000, &ready_engine(), &ps).err().unwrap();
    assert_eq!(e.message, "Timestamp 6.500000s exceeds timeline duration 5.000000s.");
    // An empty timeline accepts any timestamp.
    assert!(render_preview_frame(99_000_000, &ready_engine(), &state_with(0)).is_ok());
}

#[test]
fn seek_checks_bounds() {
    let ps = state_with(1_000_000);
    assert_eq!(seek_preview(1_000_000, &ready_engine(), &ps).ok(), Some(true));
    let e = seek_preview(1_000_001, &ready_engine(), &ps).err().unwrap();
    assert_eq!(e.message, "Seek timestamp 1.000001s exceeds timeline duration 1.000000s.");
    let e = seek_preview(0, &EngineState::new(), &ps).err().unwrap();
    assert_eq!(e.message, "The video engine has not been initialized.");
    let e = seek_preview(0, &ready_engine(), &ProjectState::new()).err().unwrap();
    assert_eq!(e.message, "No active project.");
}

#[test]
fn preview_info_of_media() {
    let ps = state_with(0);
    let info = get_preview_info("00000000-0000-0000-0000-000000000010".to_string(), &ready_engine(), &ps)
        .ok()
        .unwrap();
    assert_eq!(info.width, 1920);
    assert_eq!(info.height, 1080);
    assert_eq!(info.aspect_ratio, 1777);
    assert_eq!(info.total_frames, 60);
    assert_eq!(info.available_resolutions, vec!["1920x1080", "1280x720", "640x360"]);
    assert!(info.supports_scrubbing);
    assert_eq!(info.codec, "hevc");
    let zero_height = get_preview_info("00000000-0000-0000-0000-000000000020".to_string(), &ready_engine(), &ps)
        .ok()
        .unwrap();
    assert_eq!(zero_height.aspect_ratio, 1777);
    assert_eq!(zero_height.available_resolutions[0], "640x0");
    let e = get_preview_info("00000000-0000-0000-0000-000000000030".to_string(), &ready_engine(), &ps).err().unwrap();
    assert_eq!(e.kind, "media_not_found");
    let e = get_preview_info("zz".to_string(), &ready_engine(), &ps).err().unwrap();
    assert_eq!(e.kind, "invalid_media_id");
    let e = get_preview_info(" ".to_string(), &ready_engine(), &ps).err().unwrap();
    assert_eq!(e.message, "Media ID must not be empty.");
}

#[test]
fn frame_counts() {
    assert_eq!(frames_in(2_000_000, 30_000), 60);
    assert_eq!(frames_in(1_000_000, 29_970), 29);
    assert_eq!(frames_in(1_000_000, 0), 0);
    assert_eq!(frames_in(-1_000_000, 30_000), 0);
    assert_eq!(frames_in(i64::MAX, i64::MAX), u64::MAX);
}
