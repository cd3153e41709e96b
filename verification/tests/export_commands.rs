use flowcut::commands::export::{cancel_export, get_export_formats, get_export_progress, start_export, ExportConfig};
use flowcut::engine::EngineState;
use flowcut::export::{ExportState, QualityPreset};
use flowcut::project::{Project, ProjectSettings, ProjectState, Timeline};

fn config() -> ExportConfig {
    ExportConfig {
        output_path: "/out/movie.mp4".to_string(),
        format: "mp4".to_string(),
        video_codec: "h264".to_string(),
        audio_codec: "aac".to_string(),
        width: 1920,
        height: 1080,
        frame_rate: 30_000,
        video_bitrate: 8_000,
        audio_bitrate: 192,
        preset: "slow".to_string(),
        profile: "high".to_string(),
        audio_channels: 2,
        audio_sample_rate: 48_000,
        metadata_title: None,
        metadata_comment: None,
        embed_creation_date: false,
        custom_flags: None,
    }
}

fn open_state() -> ProjectState {
    let mut ps = ProjectState::new();
    ps.open_project(Project {
        id: 1,
        name: "p".to_string(),
        path: "/p".to_string(),
        timeline: Timeline::default(),
        media_pool: Vec::new(),
        created_at: 0,
        modified_at: 0,
        settings: ProjectSettings::default(),
    });
    ps
}

fn ready_engine() -> EngineState {
    let mut e = EngineState::new();
    e.initialize(true, false, Vec::new(), Vec::new());
    e
}

#[test]
fn start_export_creates_pending_job() {
    let mut ex = ExportState::new();
    let id = start_export(config(), &mut ex, &open_state(), &ready_engine()).ok().unwrap();
    assert_eq!(id.len(), 36);
    let jobs = ex.get_active_jobs();
    assert_eq!(jobs.len(), 1);
    assert_eq!(jobs[0].config.bitrate, 8_000_000);
    assert_eq!(jobs[0].config.audio_bitrate, 192_000);
    assert_eq!(jobs[0].config.quality_preset, QualityPreset::Slow);
    assert_eq!(jobs[0].config.codec, "h264");
    let p = get_export_progress(id.clone(), &ex).ok().unwrap();
    assert_eq!(p.job_id, id);
    assert_eq!(p.phase, "pending");
    assert!(!p.completed);
    assert!(!p.cancelled);
    assert_eq!(p.error, None);
    // Only one job at a time.
    let e = start_export(config(), &mut ex, &open_state(), &ready_engine()).err().unwrap();
    assert_eq!(e.kind, "job_already_active");
    assert_eq!(cancel_export(id.clone(), &mut ex).ok(), Some(true));
    let p = get_export_progress(id.clone(), &ex).ok().unwrap();
    assert_eq!(p.phase, "cancelled");
    assert!(p.cancelled);
    let e = cancel_export(id.clone(), &mut ex).err().unwrap();
    assert_eq!(e.kind, "cancel_failed");
    assert_eq!(e.message, format!("Failed to cancel export job '{}': no active job has this id.", id));
    assert!(start_export(config(), &mut ex, &open_state(), &ready_engine()).is_ok());
}

#[test]
fn start_export_checks() {
    let mut ex = ExportState::new();
    let ps = open_state();
    let eng = ready_engine();
    let mut c = config();
    c.output_path = " ".to_string();
    assert_eq!(start_export(c, &mut ex, &ps, &eng).err().unwrap().message, "Output path must not be empty.");
    let mut c = config();
    c.height = 0;
    assert_eq!(start_export(c, &mut ex, &ps, &eng).err().unwrap().message, "Output resolution must not be zero.");
    let mut c = config();
    c.frame_rate = 0;
    assert_eq!(start_export(c, &mut ex, &ps, &eng).err().unwrap().message, "Frame rate must be positive.");
    let e = start_export(config(), &mut ex, &ProjectState::new(), &eng).err().unwrap();
    assert_eq!(e.message, "No active project. Open a project before exporting.");
    let e = start_export(config(), &mut ex, &ps, &EngineState::new()).err().unwrap();
    assert_eq!(e.kind, "engine_not_initialized");
    let mut c = config();
    c.format = "flv".to_string();
    let e = start_export(c, &mut ex, &ps, &eng).err().unwrap();
    assert_eq!(e.kind, "invalid_config");
    assert_eq!(e.message, "Unsupported export configuration: format 'flv' is not offered");
    let mut c = config();
    c.video_codec = "vp9".to_string();
    let e = start_export(c, &mut ex, &ps, &eng).err().unwrap();
    assert_eq!(e.message, "Unsupported export configuration: video codec 'vp9' is not offered for format 'mp4'");
    assert!(ex.get_active_jobs().is_empty());
}

#[test]
fn progress_of_unknown_job() {
    let ex = ExportState::new();
    let e = get_export_progress("00000000-0000-0000-0000-000000000000".to_string(), &ex).err().unwrap();
    assert_eq!(e.kind, "job_not_found");
    assert_eq!(e.message, "Export job '00000000-0000-0000-0000-000000000000' not found: no job has this id.");
    let e = get_export_progress("".to_string(), &ex).err().unwrap();
    assert_eq!(e.message, "Job ID must not be empty.");
    let e = get_export_progress("nope".to_string(), &ex).err().unwrap();
    assert_eq!(e.kind, "job_not_found");
}

#[test]
fn export_format_menu() {
    let e = get_export_formats(&EngineState::new()).err().unwrap();
    assert_eq!(e.message, "The video engine has not been initialized.");
    let menu = get_export_formats(&ready_engine()).ok().unwrap();
    assert_eq!(menu.len(), 7);
    assert_eq!(menu[0].format, "mp4");
    assert_eq!(menu[0].extension, ".mp4");
    assert_eq!(menu[0].max_resolution, "3840x2160");
    assert_eq!(menu[3].max_resolution, "1920x1080");
    assert_eq!(menu[4].max_resolution, "640x480");
    assert!(menu[0].audio_codecs.is_empty());
    assert_eq!(menu[3].video_codecs, vec!["vp9".to_string(), "av1".to_string()]);
}
