//! Engine commands: set the engine up, report its status and describe the
//! host.

use vstd::prelude::*;

use crate::deep_copy::views;
use crate::engine::{initialized, CodecInfo, CodecInfoView, EngineState, EngineStateView};
use crate::project::opt_string_view;
use vstd::string::StringExecFns;

verus! {

/// The engine's status as the front end shows it.
pub struct EngineStatus {
    pub initialized: bool,
    pub ffmpeg_version: String,
    pub libavcodec_version: String,
    pub libavformat_version: String,
    pub libavutil_version: String,
    pub hw_accel_available: bool,
    /// "cuda" when a GPU is available, else "none".
    pub hw_accel_type: String,
    pub video_decoders_count: usize,
    pub video_encoders_count: usize,
    pub audio_decoders_count: usize,
    pub audio_encoders_count: usize,
    pub muxers_count: usize,
    pub demuxers_count: usize,
    pub video_filters_count: usize,
    pub audio_filters_count: usize,
    pub busy: bool,
    pub memory_usage: u64,
    pub peak_memory_usage: u64,
}

pub struct EngineStatusView {
    pub initialized: bool,
    pub ffmpeg_version: Seq<char>,
    pub libavcodec_version: Seq<char>,
    pub libavformat_version: Seq<char>,
    pub libavutil_version: Seq<char>,
    pub hw_accel_available: bool,
    pub hw_accel_type: Seq<char>,
    pub video_decoders_count: usize,
    pub video_encoders_count: usize,
    pub audio_decoders_count: usize,
    pub audio_encoders_count: usize,
    pub muxers_count: usize,
    pub demuxers_count: usize,
    pub video_filters_count: usize,
    pub audio_filters_count: usize,
    pub busy: bool,
    pub memory_usage: u64,
    pub peak_memory_usage: u64,
}

impl View for EngineStatus {
    type V = EngineStatusView;

    open spec fn view(&self) -> EngineStatusView {
        EngineStatusView {
            initialized: self.initialized,
            ffmpeg_version: self.ffmpeg_version@,
            libavcodec_version: self.libavcodec_version@,
            libavformat_version: self.libavformat_version@,
            libavutil_version: self.libavutil_version@,
            hw_accel_available: self.hw_accel_available,
            hw_accel_type: self.hw_accel_type@,
            video_decoders_count: self.video_decoders_count,
            video_encoders_count: self.video_encoders_count,
            audio_decoders_count: self.audio_decoders_count,
            audio_encoders_count: self.audio_encoders_count,
            muxers_count: self.muxers_count,
            demuxers_count: self.demuxers_count,
            video_filters_count: self.video_filters_count,
            audio_filters_count: self.audio_filters_count,
            busy: self.busy,
            memory_usage: self.memory_usage,
            peak_memory_usage: self.peak_memory_usage,
        }
    }
}

/// Facts about the host as the front end shows them.
pub struct SystemInfo {
    pub os_name: String,
    pub os_version: String,
    pub cpu_arch: String,
    pub cpu_cores: u32,
    pub total_ram: u64,
    pub available_ram: u64,
    pub gpu_model: Option<String>,
    pub gpu_driver_version: Option<String>,
    pub gpu_memory: Option<u64>,
    pub max_gpu_resolution: Option<String>,
    pub disk_space: u64,
    pub screen_resolution: String,
    pub display_count: u32,
}

pub struct SystemInfoView {
    pub os_name: Seq<char>,
    pub os_version: Seq<char>,
    pub cpu_arch: Seq<char>,
    pub cpu_cores: u32,
    pub total_ram: u64,
    pub available_ram: u64,
    pub gpu_model: Option<Seq<char>>,
    pub gpu_driver_version: Option<Seq<char>>,
    pub gpu_memory: Option<u64>,
    pub max_gpu_resolution: Option<Seq<char>>,
    pub disk_space: u64,
    pub screen_resolution: Seq<char>,
    pub display_count: u32,
}

impl View for SystemInfo {
    type V = SystemInfoView;

    open spec fn view(&self) -> SystemInfoView {
        SystemInfoView {
            os_name: self.os_name@,
            os_version: self.os_version@,
            cpu_arch: self.cpu_arch@,
            cpu_cores: self.cpu_cores,
            total_ram: self.total_ram,
            available_ram: self.available_ram,
            gpu_model: opt_string_view(self.gpu_model),
            gpu_driver_version: opt_string_view(self.gpu_driver_version),
            gpu_memory: self.gpu_memory,
            max_gpu_resolution: opt_string_view(self.max_gpu_resolution),
            disk_space: self.disk_space,
            screen_resolution: self.screen_resolution@,
            display_count: self.display_count,
        }
    }
}

/// Why an engine command failed: a category and a message.
pub struct EngineError {
    pub kind: String,
    pub message: String,
}

/// The formats that probing reports.
pub open spec fn probed_formats() -> Seq<Seq<char>> {
    seq!["mp4"@, "mkv"@, "mov"@, "avi"@, "webm"@, "flv"@, "ts"@, "gif"@]
}

pub open spec fn codec_view(name: Seq<char>, description: Seq<char>, encode: bool, decode: bool) -> CodecInfoView {
    CodecInfoView { name, description, encode_support: encode, decode_support: decode }
}

/// The codecs that probing reports.
pub open spec fn probed_codecs() -> Seq<CodecInfoView> {
    seq![
        codec_view("h264"@, "H.264 / AVC / MPEG-4 AVC / MPEG-4 part 10"@, true, true),
        codec_view("hevc"@, "H.265 / HEVC"@, true, true),
        codec_view("aac"@, "AAC (Advanced Audio Coding)"@, true, true),
        codec_view("vp9"@, "VP9"@, true, true),
        codec_view("av1"@, "AV1"@, false, true),
    ]
}

fn codec(name: &str, description: &str, encode: bool, decode: bool) -> (c: CodecInfo)
    ensures
        c@ == codec_view(name@, description@, encode, decode),
{
    CodecInfo {
        name: String::from_str(name),
        description: String::from_str(description),
        encode_support: encode,
        decode_support: decode,
    }
}

fn probe_formats() -> (v: Vec<String>)
    ensures
        views(v@) == probed_formats(),
{
    let mut v: Vec<String> = Vec::new();
    v.push(String::from_str("mp4"));
    v.push(String::from_str("mkv"));
    v.push(String::from_str("mov"));
    v.push(String::from_str("avi"));
    v.push(String::from_str("webm"));
    v.push(String::from_str("flv"));
    v.push(String::from_str("ts"));
    v.push(String::from_str("gif"));
    assert(views(v@) =~= probed_formats());
    v
}

fn probe_codecs() -> (v: Vec<CodecInfo>)
    ensures
        views(v@) == probed_codecs(),
{
    let mut v: Vec<CodecInfo> = Vec::new();
    v.push(codec("h264", "H.264 / AVC / MPEG-4 AVC / MPEG-4 part 10", true, true));
    v.push(codec("hevc", "H.265 / HEVC", true, true));
    v.push(codec("aac", "AAC (Advanced Audio Coding)", true, true));
    v.push(codec("vp9", "VP9", true, true));
    v.push(codec("av1", "AV1", false, true));
    assert(views(v@) =~= probed_codecs());
    v
}

/// Sets the engine up: FFmpeg available, no GPU, and the probed formats and
/// codecs. Calling it again probes again, with the same outcome.
pub fn initialize_engine(engine_state: &mut EngineState) -> (r: Result<bool, EngineError>)
    ensures
        r matches Ok(b) && b,
        final(engine_state)@ == initialized(true, false, probed_formats(), probed_codecs()),
{
    engine_state.initialize(true, false, probe_formats(), probe_codecs());
    Ok(true)
}

/// The status reported for an engine in state `s`: fixed library versions,
/// "cuda" acceleration exactly when a GPU is available, and codec and
/// format counts derived from the number `n` of supported formats (`n / 2`
/// video decoders, `n / 3` video encoders, `n` muxers and demuxers).
pub open spec fn engine_status_view(s: EngineStateView) -> EngineStatusView {
    let n = s.supported_formats.len() as usize;
    EngineStatusView {
        initialized: s.is_initialized,
        ffmpeg_version: "6.0"@,
        libavcodec_version: "60.3"@,
        libavformat_version: "60.3"@,
        libavutil_version: "58.2"@,
        hw_accel_available: s.gpu_available,
        hw_accel_type: if s.gpu_available {
            "cuda"@
        } else {
            "none"@
        },
        video_decoders_count: (n / 2) as usize,
        video_encoders_count: (n / 3) as usize,
        audio_decoders_count: 8,
        audio_encoders_count: 4,
        muxers_count: n,
        demuxers_count: n,
        video_filters_count: 50,
        audio_filters_count: 30,
        busy: false,
        memory_usage: 0,
        peak_memory_usage: 0,
    }
}

/// The engine's status.
pub fn get_engine_status(engine_state: &EngineState) -> (r: Result<EngineStatus, EngineError>)
    ensures
        r matches Ok(st) && st@ == engine_status_view(engine_state@),
{
    let internal = engine_state.get_status();
    let n = internal.supported_formats_count;
    let st = EngineStatus {
        initialized: internal.is_initialized,
        ffmpeg_version: String::from_str("6.0"),
        libavcodec_version: String::from_str("60.3"),
        libavformat_version: String::from_str("60.3"),
        libavutil_version: String::from_str("58.2"),
        hw_accel_available: internal.gpu_available,
        hw_accel_type: if internal.gpu_available {
            String::from_str("cuda")
        } else {
            String::from_str("none")
        },
        video_decoders_count: n / 2,
        video_encoders_count: n / 3,
        audio_decoders_count: 8,
        audio_encoders_count: 4,
        muxers_count: n,
        demuxers_count: n,
        video_filters_count: 50,
        audio_filters_count: 30,
        busy: false,
        memory_usage: 0,
        peak_memory_usage: 0,
    };
    Ok(st)
}

/// The host description for an engine whose GPU flag is `gpu_available`,
/// on the CPU architecture `cpu_arch`, with `threads` worker threads taken
/// as the number of cores (cut to 32 bits).
pub open spec fn system_info_view(gpu_available: bool, cpu_arch: Seq<char>, threads: usize) -> SystemInfoView {
    SystemInfoView {
        os_name: "Linux"@,
        os_version: "6.5.0"@,
        cpu_arch,
        cpu_cores: threads as u32,
        total_ram: 0,
        available_ram: 0,
        gpu_model: if gpu_available {
            Some("Unknown GPU"@)
        } else {
            None
        },
        gpu_driver_version: None,
        gpu_memory: None,
        max_gpu_resolution: None,
        disk_space: 0,
        screen_resolution: "1920x1080"@,
        display_count: 1,
    }
}

/// The host description, given the number of worker threads.
pub fn system_info_for(gpu_available: bool, cpu_arch: String, threads: usize) -> (info: SystemInfo)
    ensures
        info@ == system_info_view(gpu_available, cpu_arch@, threads),
{
    SystemInfo {
        os_name: String::from_str("Linux"),
        os_version: String::from_str("6.5.0"),
        cpu_arch,
        cpu_cores: threads as u32,
        total_ram: 0,
        available_ram: 0,
        gpu_model: if gpu_available {
            Some(String::from_str("Unknown GPU"))
        } else {
            None
        },
        gpu_driver_version: None,
        gpu_memory: None,
        max_gpu_resolution: None,
        disk_space: 0,
        screen_resolution: String::from_str("1920x1080"),
        display_count: 1,
    }
}

/// Calls `rayon::current_num_threads`: the number of threads of the pool
/// that the calling thread belongs to, or of the global pool. It depends on
/// the machine and on how the pool was built, so nothing is promised of it.
#[verifier::external_body]
fn worker_threads() -> usize {
    rayon::current_num_threads()
}

/// The host description; `cpu_arch` is the architecture the program was
/// built for, and the number of cores is taken from the worker pool.
pub fn get_system_info(engine_state: &EngineState, cpu_arch: String) -> (r: Result<SystemInfo, EngineError>)
    ensures
        r matches Ok(info) && exists|threads: usize| info@ == #[trigger] system_info_view(
            engine_state@.gpu_available,
            cpu_arch@,
            threads,
        ),
{
    let threads = worker_threads();
    let info = system_info_for(engine_state.gpu_available, cpu_arch, threads);
    assert(info@ == system_info_view(engine_state@.gpu_available, cpu_arch@, threads));
    Ok(info)
}

/// After `initialize_engine` the engine reports itself initialized, with
/// FFmpeg and without acceleration; its counts follow the eight probed
/// formats (as many muxers and demuxers, half as many video decoders, a
/// third as many video encoders); every format the export menu offers is one
/// it supports; and H.264 can be both encoded and decoded.
pub proof fn law_initialized_engine(k: int)
    requires
        0 <= k < crate::export::spec_export_formats().len(),
    ensures
        ({
            let e = initialized(true, false, probed_formats(), probed_codecs());
            let st = engine_status_view(e);
            &&& st.initialized
            &&& !st.hw_accel_available
            &&& st.hw_accel_type == "none"@
            &&& st.muxers_count == 8 && st.demuxers_count == 8
            &&& st.video_decoders_count == 4 && st.video_encoders_count == 2
            &&& e.ffmpeg_available
            &&& e.supported_formats.contains(crate::export::spec_export_formats()[k].extension)
            &&& e.codec_list[0].name == "h264"@ && e.codec_list[0].encode_support && e.codec_list[0].decode_support
        }),
{
    let fs = crate::export::spec_export_formats();
    let pf = probed_formats();
    if k == 0 {
        assert(fs[k] == crate::export::mp4_format_view());
        assert(pf[0] == "mp4"@);
    } else if k == 1 {
        assert(fs[k] == crate::export::mkv_format_view());
        assert(pf[1] == "mkv"@);
    } else if k == 2 {
        assert(fs[k] == crate::export::mov_format_view());
        assert(pf[2] == "mov"@);
    } else if k == 3 {
        assert(fs[k] == crate::export::webm_format_view());
        assert(pf[4] == "webm"@);
    } else if k == 4 {
        assert(fs[k] == crate::export::gif_format_view());
        assert(pf[7] == "gif"@);
    } else if k == 5 {
        assert(fs[k] == crate::export::avi_format_view());
        assert(pf[3] == "avi"@);
    } else {
        assert(fs[k] == crate::export::ts_format_view());
        assert(pf[6] == "ts"@);
    }
}

/// The status names CUDA acceleration exactly when a GPU is available, and
/// reports as many muxers and demuxers as the engine supports formats.
pub proof fn law_status_follows_engine(s: EngineStateView)
    requires
        s.supported_formats.len() <= usize::MAX,
    ensures
        engine_status_view(s).hw_accel_available == s.gpu_available,
        engine_status_view(s).hw_accel_type == "cuda"@ <==> s.gpu_available,
        engine_status_view(s).muxers_count == s.supported_formats.len(),
        engine_status_view(s).demuxers_count == s.supported_formats.len(),
        engine_status_view(s).initialized == s.is_initialized,
{
    reveal_strlit("cuda");
    reveal_strlit("none");
    assert("cuda"@[0] != "none"@[0]);
}

/// The host description gives the architecture asked for, as many cores
/// as there are worker threads, and a GPU model exactly when the engine has
/// a GPU.
pub proof fn law_system_info(gpu_available: bool, cpu_arch: Seq<char>, threads: usize)
    requires
        threads <= u32::MAX,
    ensures
        system_info_view(gpu_available, cpu_arch, threads).cpu_arch == cpu_arch,
        system_info_view(gpu_available, cpu_arch, threads).cpu_cores == threads,
        system_info_view(gpu_available, cpu_arch, threads).gpu_model is Some <==> gpu_available,
{
}

} // verus!
