use flowcut::commands::engine::{get_engine_status, get_system_info, initialize_engine, system_info_for};
use flowcut::engine::{CodecInfo, EngineState};

fn codec(name: &str) -> CodecInfo {
    CodecInfo {
        name: name.to_string(),
        description: format!("{} codec", name),
        encode_support: true,
        decode_support: false,
    }
}

#[test]
fn new_engine_is_not_initialized() {
    let e = EngineState::new();
    let st = e.get_status();
    assert!(!st.is_initialized);
    assert!(!st.ffmpeg_available);
    assert!(!st.gpu_available);
    assert_eq!(st.supported_formats_count, 0);
    assert_eq!(st.active_jobs, 0);
    assert!(e.get_supported_formats().is_empty());
    assert!(e.get_codec_list().is_empty());
}

#[test]
fn initialize_sets_flags_and_lists() {
    let mut e = EngineState::default();
    e.initialize(
        true,
        true,
        vec!["mp4".to_string(), "mkv".to_string()],
        vec![codec("h264")],
    );
    let st = e.get_status();
    assert!(st.is_initialized);
    assert!(st.ffmpeg_available);
    assert!(st.gpu_available);
    assert_eq!(st.supported_formats_count, 2);
    assert_eq!(st.active_jobs, 0);
    assert_eq!(e.get_supported_formats(), vec!["mp4".to_string(), "mkv".to_string()]);
    let codecs = e.get_codec_list();
    assert_eq!(codecs.len(), 1);
    assert_eq!(codecs[0].name, "h264");
    assert_eq!(codecs[0].description, "h264 codec");
    assert!(codecs[0].encode_support);
    assert!(!codecs[0].decode_support);
}

#[test]
fn initialize_engine_probes_eight_formats_and_five_codecs() {
    let mut e = EngineState::new();
    assert_eq!(initialize_engine(&mut e).ok(), Some(true));
    assert!(e.is_initialized);
    assert!(e.ffmpeg_available);
    assert!(!e.gpu_available);
    assert_eq!(
        e.get_supported_formats(),
        ["mp4", "mkv", "mov", "avi", "webm", "flv", "ts", "gif"].iter().map(|s| s.to_string()).collect::<Vec<_>>()
    );
    let codecs = e.get_codec_list();
    assert_eq!(codecs.len(), 5);
    assert_eq!(codecs[0].name, "h264");
    assert_eq!(codecs[0].description, "H.264 / AVC / MPEG-4 AVC / MPEG-4 part 10");
    assert_eq!(codecs[4].name, "av1");
    assert!(!codecs[4].encode_support);
    assert!(codecs[4].decode_support);
    // A second call probes again with the same outcome.
    assert_eq!(initialize_engine(&mut e).ok(), Some(true));
    assert_eq!(e.get_codec_list().len(), 5);
}

#[test]
fn engine_status_counts_follow_formats() {
    let mut e = EngineState::new();
    initialize_engine(&mut e).ok().unwrap();
    let st = get_engine_status(&e).ok().unwrap();
    assert!(st.initialized);
    assert_eq!(st.ffmpeg_version, "6.0");
    assert_eq!(st.libavcodec_version, "60.3");
    assert_eq!(st.libavutil_version, "58.2");
    assert!(!st.hw_accel_available);
    assert_eq!(st.hw_accel_type, "none");
    assert_eq!(st.video_decoders_count, 4);
    assert_eq!(st.video_encoders_count, 2);
    assert_eq!(st.audio_decoders_count, 8);
    assert_eq!(st.audio_encoders_count, 4);
    assert_eq!(st.muxers_count, 8);
    assert_eq!(st.demuxers_count, 8);
    assert_eq!(st.video_filters_count, 50);
    assert_eq!(st.audio_filters_count, 30);
    assert!(!st.busy);
}

#[test]
fn engine_status_reports_cuda_with_gpu() {
    let mut e = EngineState::new();
    e.initialize(true, true, vec!["a".to_string(); 7], Vec::new());
    let st = get_engine_status(&e).ok().unwrap();
    assert!(st.hw_accel_available);
    assert_eq!(st.hw_accel_type, "cuda");
    assert_eq!(st.video_decoders_count, 3);
    assert_eq!(st.video_encoders_count, 2);
}

#[test]
fn uninitialized_engine_status() {
    let e = EngineState::new();
    let st = get_engine_status(&e).ok().unwrap();
    assert!(!st.initialized);
    assert_eq!(st.muxers_count, 0);
    assert_eq!(st.video_decoders_count, 0);
}

#[test]
fn system_info_for_given_threads() {
    let info = system_info_for(true, "x86_64".to_string(), 12);
    assert_eq!(info.os_name, "Linux");
    assert_eq!(info.os_version, "6.5.0");
    assert_eq!(info.cpu_arch, "x86_64");
    assert_eq!(info.cpu_cores, 12);
    assert_eq!(info.gpu_model, Some("Unknown GPU".to_string()));
    assert_eq!(info.screen_resolution, "1920x1080");
    assert_eq!(info.display_count, 1);
    let none = system_info_for(false, "aarch64".to_string(), 4);
    assert_eq!(none.gpu_model, None);
}

#[test]
fn system_info_reports_worker_threads() {
    let e = EngineState::new();
    let info = get_system_info(&e, "x86_64".to_string()).ok().unwrap();
    assert_eq!(info.cpu_arch, "x86_64");
    assert!(info.cpu_cores >= 1);
    assert_eq!(info.gpu_model, None);
}
