//! The state of the video processing engine: whether it is ready, what it
//! found on the system, and the formats and codecs it can handle.

use vstd::prelude::*;

use crate::deep_copy::{copy_vec, views, DeepCopy};

verus! {

/// A codec found on the system.
pub struct CodecInfo {
    /// Canonical name, such as "h264".
    pub name: String,
    pub description: String,
    pub encode_support: bool,
    pub decode_support: bool,
}

pub struct CodecInfoView {
    pub name: Seq<char>,
    pub description: Seq<char>,
    pub encode_support: bool,
    pub decode_support: bool,
}

impl View for CodecInfo {
    type V = CodecInfoView;

    open spec fn view(&self) -> CodecInfoView {
        CodecInfoView {
            name: self.name@,
            description: self.description@,
            encode_support: self.encode_support,
            decode_support: self.decode_support,
        }
    }
}

impl DeepCopy for CodecInfo {
    fn deep_copy(&self) -> (r: CodecInfo) {
        CodecInfo {
            name: self.name.clone(),
            description: self.description.clone(),
            encode_support: self.encode_support,
            decode_support: self.decode_support,
        }
    }
}

/// A summary of the engine's state.
pub struct EngineStatus {
    pub is_initialized: bool,
    pub ffmpeg_available: bool,
    pub gpu_available: bool,
    pub supported_formats_count: usize,
    /// Background jobs running now; no job is tracked here, so always 0.
    pub active_jobs: usize,
}

pub struct EngineStatusView {
    pub is_initialized: bool,
    pub ffmpeg_available: bool,
    pub gpu_available: bool,
    pub supported_formats_count: nat,
    pub active_jobs: nat,
}

impl View for EngineStatus {
    type V = EngineStatusView;

    open spec fn view(&self) -> EngineStatusView {
        EngineStatusView {
            is_initialized: self.is_initialized,
            ffmpeg_available: self.ffmpeg_available,
            gpu_available: self.gpu_available,
            supported_formats_count: self.supported_formats_count as nat,
            active_jobs: self.active_jobs as nat,
        }
    }
}

/// Hardware and software facts about the host.
pub struct SystemInfo {
    pub os_name: String,
    pub cpu_cores: usize,
    pub total_memory_mb: u64,
    /// "N/A" when no GPU is found.
    pub gpu_name: String,
    /// "N/A" when FFmpeg is missing.
    pub ffmpeg_version: String,
}

/// The engine's state: set up by `initialize`, read by the other methods.
pub struct EngineState {
    pub is_initialized: bool,
    pub ffmpeg_available: bool,
    pub gpu_available: bool,
    pub supported_formats: Vec<String>,
    pub codec_list: Vec<CodecInfo>,
}

pub struct EngineStateView {
    pub is_initialized: bool,
    pub ffmpeg_available: bool,
    pub gpu_available: bool,
    pub supported_formats: Seq<Seq<char>>,
    pub codec_list: Seq<CodecInfoView>,
}

impl View for EngineState {
    type V = EngineStateView;

    open spec fn view(&self) -> EngineStateView {
        EngineStateView {
            is_initialized: self.is_initialized,
            ffmpeg_available: self.ffmpeg_available,
            gpu_available: self.gpu_available,
            supported_formats: views(self.supported_formats@),
            codec_list: views(self.codec_list@),
        }
    }
}

/// The status that an engine in state `s` reports.
pub open spec fn status_of(s: EngineStateView) -> EngineStatusView {
    EngineStatusView {
        is_initialized: s.is_initialized,
        ffmpeg_available: s.ffmpeg_available,
        gpu_available: s.gpu_available,
        supported_formats_count: s.supported_formats.len(),
        active_jobs: 0,
    }
}

/// The state once probing found FFmpeg and a GPU as given, these formats and
/// these codecs.
pub open spec fn initialized(
    ffmpeg_available: bool,
    gpu_available: bool,
    supported_formats: Seq<Seq<char>>,
    codec_list: Seq<CodecInfoView>,
) -> EngineStateView {
    EngineStateView { is_initialized: true, ffmpeg_available, gpu_available, supported_formats, codec_list }
}

impl EngineState {
    /// An engine that is not initialized, with nothing found.
    pub fn new() -> (s: EngineState)
        ensures
            !s@.is_initialized,
            !s@.ffmpeg_available,
            !s@.gpu_available,
            s@.supported_formats.len() == 0,
            s@.codec_list.len() == 0,
    {
        EngineState {
            is_initialized: false,
            ffmpeg_available: false,
            gpu_available: false,
            supported_formats: Vec::new(),
            codec_list: Vec::new(),
        }
    }

    /// The engine's flags and the number of supported formats.
    pub fn get_status(&self) -> (st: EngineStatus)
        ensures
            st@ == status_of(self@),
    {
        EngineStatus {
            is_initialized: self.is_initialized,
            ffmpeg_available: self.ffmpeg_available,
            gpu_available: self.gpu_available,
            supported_formats_count: self.supported_formats.len(),
            active_jobs: 0,
        }
    }

    /// A copy of the supported formats.
    pub fn get_supported_formats(&self) -> (r: Vec<String>)
        ensures
            views(r@) == self@.supported_formats,
    {
        copy_vec(&self.supported_formats)
    }

    /// A copy of the codec list.
    pub fn get_codec_list(&self) -> (r: Vec<CodecInfo>)
        ensures
            views(r@) == self@.codec_list,
    {
        copy_vec(&self.codec_list)
    }

    /// Marks the engine as initialized with what probing found.
    pub fn initialize(
        &mut self,
        ffmpeg_available: bool,
        gpu_available: bool,
        supported_formats: Vec<String>,
        codec_list: Vec<CodecInfo>,
    )
        ensures
            final(self)@ == initialized(ffmpeg_available, gpu_available, views(supported_formats@), views(codec_list@)),
    {
        self.is_initialized = true;
        self.ffmpeg_available = ffmpeg_available;
        self.gpu_available = gpu_available;
        self.supported_formats = supported_formats;
        self.codec_list = codec_list;
    }
}

impl Default for EngineState {
    fn default() -> (s: EngineState)
        ensures
            !s@.is_initialized,
            !s@.ffmpeg_available,
            !s@.gpu_available,
            s@.supported_formats.len() == 0,
            s@.codec_list.len() == 0,
    {
        EngineState::new()
    }
}

/// After `initialize`, the status reports an initialized engine with the
/// flags that were given, as many formats as were given and no job,
/// whatever the state was before.
pub proof fn law_status_after_initialize(
    ffmpeg_available: bool,
    gpu_available: bool,
    formats: Seq<Seq<char>>,
    codecs: Seq<CodecInfoView>,
)
    ensures
        status_of(initialized(ffmpeg_available, gpu_available, formats, codecs)) == (EngineStatusView {
            is_initialized: true,
            ffmpeg_available,
            gpu_available,
            supported_formats_count: formats.len(),
            active_jobs: 0,
        }),
{
}

/// A new engine reports that it is not initialized and has nothing.
pub proof fn law_new_engine_status(s: EngineStateView)
    requires
        !s.is_initialized,
        !s.ffmpeg_available,
        !s.gpu_available,
        s.supported_formats.len() == 0,
    ensures
        status_of(s) == (EngineStatusView {
            is_initialized: false,
            ffmpeg_available: false,
            gpu_available: false,
            supported_formats_count: 0,
            active_jobs: 0,
        }),
{
}

} // verus!
