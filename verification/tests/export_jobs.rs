use flowcut::export::{ExportConfig, ExportProgress, ExportState, ExportStatus, QualityPreset};

fn progress(percent: i64) -> ExportProgress {
    ExportProgress {
        percent,
        current_frame: 10,
        total_frames: 100,
        elapsed_ms: 500,
        estimated_remaining_ms: 4_500,
        current_fps: 20_000,
    }
}

#[test]
fn preset_names_and_descriptions() {
    assert_eq!(QualityPreset::Medium.to_ffmpeg_string(), "medium");
    assert_eq!(QualityPreset::UltraFast.to_ffmpeg_string(), "ultrafast");
    assert_eq!(QualityPreset::Fast.to_ffmpeg_string(), "fast");
    assert_eq!(QualityPreset::Slow.to_ffmpeg_string(), "slow");
    assert_eq!(QualityPreset::VerySlow.to_ffmpeg_string(), "veryslow");
    assert_eq!(
        QualityPreset::Medium.description(),
        "Balanced speed and quality \u{2014} recommended for most exports"
    );
    assert_eq!(
        QualityPreset::UltraFast.description(),
        "Fastest encoding, lower quality \u{2014} ideal for quick previews"
    );
}

#[test]
fn default_config_is_full_hd_mp4() {
    let c = ExportConfig::default();
    assert_eq!(c.format, "mp4");
    assert_eq!(c.codec, "h264");
    assert_eq!(c.resolution_width, 1920);
    assert_eq!(c.resolution_height, 1080);
    assert_eq!(c.frame_rate, 30_000);
    assert_eq!(c.bitrate, 8_000_000);
    assert_eq!(c.audio_codec, "aac");
    assert_eq!(c.audio_bitrate, 192_000);
    assert_eq!(c.output_path, "");
    assert_eq!(c.quality_preset, QualityPreset::Medium);
    let p = ExportProgress::default();
    assert_eq!(p.percent, 0);
    assert_eq!(p.total_frames, 0);
}

#[test]
fn created_job_is_pending_and_found() {
    let mut s = ExportState::new();
    let id = s.create_job(ExportConfig::default());
    let job = s.get_job(id).unwrap();
    assert_eq!(job.id, id);
    assert_eq!(job.status, ExportStatus::Pending);
    assert_eq!(job.progress, ExportProgress::default());
    assert_eq!(s.get_active_jobs().len(), 1);
    assert!(s.get_completed_jobs().is_empty());
}

#[test]
fn job_lifecycle_to_completion() {
    let mut s = ExportState::new();
    let id = s.create_job(ExportConfig::default());
    assert!(s.start_processing(id));
    assert_eq!(s.get_job(id).unwrap().status, ExportStatus::Processing);
    assert!(s.update_progress(id, progress(50_000)));
    assert_eq!(s.get_job(id).unwrap().progress.percent, 50_000);
    assert!(s.complete_job(id, progress(100_000)));
    let job = s.get_job(id).unwrap();
    assert_eq!(job.status, ExportStatus::Completed);
    assert_eq!(job.progress.percent, 100_000);
    assert!(s.get_active_jobs().is_empty());
    assert_eq!(s.get_completed_jobs().len(), 1);
    // A retired job cannot change any more.
    assert!(!s.cancel_job(id));
    assert!(!s.update_progress(id, progress(1)));
    assert!(!s.start_processing(id));
}

#[test]
fn cancel_and_fail_retire_jobs() {
    let mut s = ExportState::new();
    let a = s.create_job(ExportConfig::default());
    let b = s.create_job(ExportConfig::default());
    assert!(s.cancel_job(a));
    assert!(s.fail_job(b));
    assert_eq!(s.get_job(a).unwrap().status, ExportStatus::Cancelled);
    assert_eq!(s.get_job(b).unwrap().status, ExportStatus::Failed);
    assert!(s.get_active_jobs().is_empty());
    let done: Vec<u128> = s.get_completed_jobs().iter().map(|j| j.id).collect();
    assert_eq!(done, vec![a, b]);
    assert!(!s.fail_job(b));
}

#[test]
fn unknown_job_is_not_found() {
    let mut s = ExportState::default();
    assert!(s.get_job(42).is_none());
    assert!(!s.cancel_job(42));
    assert!(!s.complete_job(42, progress(0)));
    assert!(!s.fail_job(42));
}

#[test]
fn seven_export_formats() {
    let f = ExportState::get_export_formats();
    assert_eq!(f.len(), 7);
    let exts: Vec<&str> = f.iter().map(|x| x.extension.as_str()).collect();
    assert_eq!(exts, vec!["mp4", "mkv", "mov", "webm", "gif", "avi", "ts"]);
    assert_eq!(f[0].name, "MP4 (MPEG-4 Part 14)");
    assert_eq!(f[0].codecs, vec!["h264".to_string(), "hevc".to_string(), "av1".to_string()]);
    assert_eq!(f[0].supported_resolutions[0], (3840, 2160));
    assert_eq!(f[0].supported_resolutions.len(), 5);
    assert_eq!(f[1].codecs.len(), 5);
    assert_eq!(f[4].codecs, vec!["gif".to_string()]);
    assert_eq!(f[4].supported_resolutions, vec![(640, 480), (480, 360), (320, 240)]);
    assert_eq!(f[2].description, "Apple's native format, widely used in professional video production and post-production workflows. Ideal for macOS/iOS targets.");
}
