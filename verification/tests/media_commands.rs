use flowcut::commands::media::{classify, get_media_info, import_media, list_media, media_info_for, remove_media};
use flowcut::commands::project::create_project;
use flowcut::project::{MediaItem, MediaType, ProjectState};
use flowcut::utils::UndoManager;

fn open_project() -> (ProjectState, UndoManager) {
    let mut ps = ProjectState::new();
    let mut um = UndoManager::new();
    create_project("Demo".to_string(), "/tmp/demo".to_string(), &mut ps, &mut um).ok().unwrap();
    (ps, um)
}

#[test]
fn import_classifies_by_extension_and_skips_blank_paths() {
    let (mut ps, mut um) = open_project();
    let before = um.undo_count();
    let paths = vec![
        "/videos/Holiday.MP4".to_string(),
        "   ".to_string(),
        "/music/song.flac".to_string(),
        "/pics/photo.png".to_string(),
        "/misc/noext".to_string(),
    ];
    let items = import_media(paths, &mut ps, &mut um).ok().unwrap();
    assert_eq!(items.len(), 4);
    assert_eq!(items[0].name, "Holiday.MP4");
    assert_eq!(items[0].path, "/videos/Holiday.MP4");
    assert_eq!(items[0].media_type, "video");
    assert_eq!(items[0].video_codec, Some(String::new()));
    assert_eq!(items[0].audio_codec, None);
    assert_eq!(items[1].media_type, "audio");
    assert_eq!(items[1].audio_codec, Some(String::new()));
    assert_eq!(items[1].video_codec, None);
    assert_eq!(items[2].media_type, "image");
    assert_eq!(items[3].name, "noext");
    assert_eq!(items[3].media_type, "image");
    assert_eq!(items[0].width, None);
    assert_eq!(items[0].frame_rate, None);
    assert_eq!(items[0].total_frames, None);
    assert_eq!(items[0].duration, 0);
    assert_eq!(um.undo_count(), before + 4);
    let rec = um.get_undo_history().pop().unwrap();
    assert_eq!(rec.action_type, "import_media");
    assert_eq!(rec.description, "Imported media 'noext'");
    let pool = ps.get_current_project().unwrap().media_pool;
    assert_eq!(pool.len(), 4);
    assert_eq!(pool[1].media_type, MediaType::Audio);
}

#[test]
fn import_errors() {
    let (mut ps, mut um) = open_project();
    let e = import_media(Vec::new(), &mut ps, &mut um).err().unwrap();
    assert_eq!(e.kind, "validation");
    assert_eq!(e.message, "No media paths provided. Pass at least one file path.");
    let mut empty = ProjectState::new();
    let e = import_media(vec!["/a.mp4".to_string()], &mut empty, &mut um).err().unwrap();
    assert_eq!(e.kind, "no_active_project");
    assert_eq!(e.message, "No active project. Open or create a project before importing media.");
}

#[test]
fn info_list_and_remove() {
    let (mut ps, mut um) = open_project();
    let items = import_media(vec!["/a.mov".to_string(), "/b.wav".to_string()], &mut ps, &mut um).ok().unwrap();
    let info = get_media_info(items[1].id.clone(), &ps).ok().unwrap();
    assert_eq!(info.name, "b.wav");
    assert_eq!(info.media_type, "audio");
    let listed = list_media(&ps).ok().unwrap();
    assert_eq!(listed.iter().map(|m| m.name.clone()).collect::<Vec<_>>(), vec!["a.mov", "b.wav"]);
    assert_eq!(remove_media(items[0].id.clone(), &mut ps, &mut um).ok(), Some(true));
    assert_eq!(list_media(&ps).ok().unwrap().len(), 1);
    let rec = um.get_undo_history().pop().unwrap();
    assert_eq!(rec.description, "Removed media 'a.mov'");
    let e = get_media_info(items[0].id.clone(), &ps).err().unwrap();
    assert_eq!(e.kind, "media_not_found");
    assert_eq!(e.message, format!("Media item '{}' not found.", items[0].id));
    let e = get_media_info("xyz".to_string(), &ps).err().unwrap();
    assert_eq!(e.kind, "invalid_id");
    assert!(e.message.starts_with("Invalid media ID format: "));
    let e = remove_media(" ".to_string(), &mut ps, &mut um).err().unwrap();
    assert_eq!(e.message, "Media ID must not be empty.");
    let e = list_media(&ProjectState::new()).err().unwrap();
    assert_eq!(e.kind, "no_active_project");
}

#[test]
fn description_of_a_measured_video() {
    let m = MediaItem {
        id: 0xabc,
        name: "clip".to_string(),
        path: "/clip.mp4".to_string(),
        media_type: MediaType::Video,
        duration: 10_000_000,
        width: 1920,
        height: 1080,
        frame_rate: 25_000,
        codec: "h264".to_string(),
        bitrate: 1,
        file_size: 2048,
        thumbnail_path: Some("thumbs/clip.png".to_string()),
    };
    let info = media_info_for(&m, "2024-01-01T00:00:00+00:00".to_string());
    assert_eq!(info.id, "00000000-0000-0000-0000-000000000abc");
    assert_eq!(info.width, Some(1920));
    assert_eq!(info.height, Some(1080));
    assert_eq!(info.frame_rate, Some(25_000));
    assert_eq!(info.total_frames, Some(250));
    assert_eq!(info.video_codec, Some("h264".to_string()));
    assert_eq!(info.file_size, 2048);
    assert_eq!(info.imported_at, "2024-01-01T00:00:00+00:00");
    assert_eq!(info.thumbnail_path, Some("thumbs/clip.png".to_string()));
}

#[test]
fn classify_by_lower_case_extension() {
    assert_eq!(classify(&"webm".to_string()), MediaType::Video);
    assert_eq!(classify(&"ts".to_string()), MediaType::Video);
    assert_eq!(classify(&"m4a".to_string()), MediaType::Audio);
    assert_eq!(classify(&"wma".to_string()), MediaType::Audio);
    assert_eq!(classify(&"MP4".to_string()), MediaType::Image);
    assert_eq!(classify(&"".to_string()), MediaType::Image);
}

#[test]
fn extension_is_taken_after_the_last_dot_of_the_file_name() {
    let (mut ps, mut um) = open_project();
    let paths = vec![
        "/a/.mp3".to_string(),
        "/a/.hidden.mp3".to_string(),
        "/a/archive.tar.wav".to_string(),
        "/a.mp4/clip".to_string(),
        "/a/clip.".to_string(),
    ];
    let items = import_media(paths, &mut ps, &mut um).ok().unwrap();
    let kinds: Vec<String> = items.iter().map(|i| i.media_type.clone()).collect();
    assert_eq!(kinds, vec!["image", "audio", "audio", "image", "image"]);
}

#[test]
fn undo_of_an_import_takes_the_item_out() {
    let (mut ps, mut um) = open_project();
    import_media(vec!["/v/a.mp4".to_string(), "/v/b.mp4".to_string()], &mut ps, &mut um).ok().unwrap();
    flowcut::commands::undo::undo_action(&mut um, &mut ps).ok().unwrap();
    let pool = ps.get_current_project().unwrap().media_pool;
    assert_eq!(pool.len(), 1);
    assert_eq!(pool[0].name, "a.mp4");
}
