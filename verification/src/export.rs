//! Export jobs: their configuration, progress and status, and the state
//! that tracks them from creation to completion, failure or cancellation.

use vstd::prelude::*;

use crate::deep_copy::{copy_vec, lemma_views_push, views, DeepCopy};
use crate::ids::uuid_new_v4;
use crate::search::{any, first, is_first, lemma_exists_first, lemma_first};
use crate::utils::strings_view;
use vstd::string::StringExecFns;

verus! {

/// Where an export job stands. A job is `Pending` or `Processing` while it
/// is active, and `Completed`, `Failed` or `Cancelled` once it is retired.
#[derive(PartialEq, Eq, Structural, Clone, Copy, Debug)]
pub enum ExportStatus {
    Pending,
    Processing,
    Completed,
    Failed,
    Cancelled,
}

/// Encoder presets, from fastest to best compression.
#[derive(PartialEq, Eq, Structural, Clone, Copy, Debug)]
pub enum QualityPreset {
    UltraFast,
    Fast,
    Medium,
    Slow,
    VerySlow,
}

/// The FFmpeg `-preset` name of a preset.
pub open spec fn preset_name(p: QualityPreset) -> Seq<char> {
    match p {
        QualityPreset::UltraFast => "ultrafast"@,
        QualityPreset::Fast => "fast"@,
        QualityPreset::Medium => "medium"@,
        QualityPreset::Slow => "slow"@,
        QualityPreset::VerySlow => "veryslow"@,
    }
}

/// What a preset is good for, as the export dialog shows it.
pub open spec fn preset_description(p: QualityPreset) -> Seq<char> {
    match p {
        QualityPreset::UltraFast => "Fastest encoding, lower quality \u{2014} ideal for quick previews"@,
        QualityPreset::Fast => "Fast encoding, good quality \u{2014} ideal for test exports"@,
        QualityPreset::Medium => "Balanced speed and quality \u{2014} recommended for most exports"@,
        QualityPreset::Slow => "Slower encoding, high quality \u{2014} ideal for production exports"@,
        QualityPreset::VerySlow => "Slowest encoding, best quality \u{2014} ideal for archival masters"@,
    }
}

impl QualityPreset {
    /// The name FFmpeg's `-preset` option takes for this preset.
    pub fn to_ffmpeg_string(&self) -> (s: &'static str)
        ensures
            s@ == preset_name(*self),
    {
        match self {
            QualityPreset::UltraFast => "ultrafast",
            QualityPreset::Fast => "fast",
            QualityPreset::Medium => "medium",
            QualityPreset::Slow => "slow",
            QualityPreset::VerySlow => "veryslow",
        }
    }

    /// A sentence that describes the preset.
    pub fn description(&self) -> (s: &'static str)
        ensures
            s@ == preset_description(*self),
    {
        match self {
            QualityPreset::UltraFast => "Fastest encoding, lower quality \u{2014} ideal for quick previews",
            QualityPreset::Fast => "Fast encoding, good quality \u{2014} ideal for test exports",
            QualityPreset::Medium => "Balanced speed and quality \u{2014} recommended for most exports",
            QualityPreset::Slow => "Slower encoding, high quality \u{2014} ideal for production exports",
            QualityPreset::VerySlow => "Slowest encoding, best quality \u{2014} ideal for archival masters",
        }
    }
}

/// What an export writes and how.
pub struct ExportConfig {
    /// Container format, such as "mp4".
    pub format: String,
    /// Video codec, such as "h264".
    pub codec: String,
    pub resolution_width: u32,
    pub resolution_height: u32,
    /// Frames per second, in thousandths.
    pub frame_rate: i64,
    /// Video bits per second.
    pub bitrate: u64,
    pub audio_codec: String,
    /// Audio bits per second.
    pub audio_bitrate: u64,
    pub output_path: String,
    pub quality_preset: QualityPreset,
}

pub struct ExportConfigView {
    pub format: Seq<char>,
    pub codec: Seq<char>,
    pub resolution_width: u32,
    pub resolution_height: u32,
    pub frame_rate: i64,
    pub bitrate: u64,
    pub audio_codec: Seq<char>,
    pub audio_bitrate: u64,
    pub output_path: Seq<char>,
    pub quality_preset: QualityPreset,
}

impl View for ExportConfig {
    type V = ExportConfigView;

    open spec fn view(&self) -> ExportConfigView {
        ExportConfigView {
            format: self.format@,
            codec: self.codec@,
            resolution_width: self.resolution_width,
            resolution_height: self.resolution_height,
            frame_rate: self.frame_rate,
            bitrate: self.bitrate,
            audio_codec: self.audio_codec@,
            audio_bitrate: self.audio_bitrate,
            output_path: self.output_path@,
            quality_preset: self.quality_preset,
        }
    }
}

impl DeepCopy for ExportConfig {
    fn deep_copy(&self) -> (r: ExportConfig) {
        ExportConfig {
            format: self.format.clone(),
            codec: self.codec.clone(),
            resolution_width: self.resolution_width,
            resolution_height: self.resolution_height,
            frame_rate: self.frame_rate,
            bitrate: self.bitrate,
            audio_codec: self.audio_codec.clone(),
            audio_bitrate: self.audio_bitrate,
            output_path: self.output_path.clone(),
            quality_preset: self.quality_preset,
        }
    }
}

/// The standard export: 1920x1080 MP4 with H.264 at 8 Mbit/s and 30 frames
/// per second, AAC audio at 192 kbit/s, the medium preset, no path yet.
pub open spec fn default_config() -> ExportConfigView {
    ExportConfigView {
        format: "mp4"@,
        codec: "h264"@,
        resolution_width: 1920,
        resolution_height: 1080,
        frame_rate: 30_000,
        bitrate: 8_000_000,
        audio_codec: "aac"@,
        audio_bitrate: 192_000,
        output_path: Seq::empty(),
        quality_preset: QualityPreset::Medium,
    }
}

impl Default for ExportConfig {
    fn default() -> (c: ExportConfig)
        ensures
            c@ == default_config(),
    {
        ExportConfig {
            format: String::from_str("mp4"),
            codec: String::from_str("h264"),
            resolution_width: 1920,
            resolution_height: 1080,
            frame_rate: 30_000,
            bitrate: 8_000_000,
            audio_codec: String::from_str("aac"),
            audio_bitrate: 192_000,
            output_path: String::new(),
            quality_preset: QualityPreset::Medium,
        }
    }
}

/// How far an export has come.
#[derive(PartialEq, Eq, Structural, Clone, Copy, Debug)]
pub struct ExportProgress {
    /// Completion in thousandths of a percent (100_000 is done).
    pub percent: i64,
    pub current_frame: u64,
    pub total_frames: u64,
    /// Time since the export started, in milliseconds.
    pub elapsed_ms: i64,
    /// Estimated time left, in milliseconds.
    pub estimated_remaining_ms: i64,
    /// Encoding speed in thousandths of a frame per second.
    pub current_fps: i64,
}

/// Progress at the start: everything zero.
pub open spec fn zero_progress() -> ExportProgress {
    ExportProgress {
        percent: 0,
        current_frame: 0,
        total_frames: 0,
        elapsed_ms: 0,
        estimated_remaining_ms: 0,
        current_fps: 0,
    }
}

impl Default for ExportProgress {
    fn default() -> (p: ExportProgress)
        ensures
            p == zero_progress(),
    {
        ExportProgress {
            percent: 0,
            current_frame: 0,
            total_frames: 0,
            elapsed_ms: 0,
            estimated_remaining_ms: 0,
            current_fps: 0,
        }
    }
}

/// An export job: its id (a UUID's 128-bit value), what it writes, how far
/// it has come and where it stands.
pub struct ExportJob {
    pub id: u128,
    pub config: ExportConfig,
    pub progress: ExportProgress,
    pub status: ExportStatus,
}

pub struct ExportJobView {
    pub id: u128,
    pub config: ExportConfigView,
    pub progress: ExportProgress,
    pub status: ExportStatus,
}

impl View for ExportJob {
    type V = ExportJobView;

    open spec fn view(&self) -> ExportJobView {
        ExportJobView {
            id: self.id,
            config: self.config@,
            progress: self.progress,
            status: self.status,
        }
    }
}

impl DeepCopy for ExportJob {
    fn deep_copy(&self) -> (r: ExportJob) {
        ExportJob {
            id: self.id,
            config: self.config.deep_copy(),
            progress: self.progress,
            status: self.status,
        }
    }
}

/// A container format that can be exported, with its video codecs and the
/// usual resolutions (width, height) in pixels.
pub struct ExportFormat {
    pub name: String,
    pub extension: String,
    pub description: String,
    pub codecs: Vec<String>,
    pub supported_resolutions: Vec<(u32, u32)>,
}

pub struct ExportFormatView {
    pub name: Seq<char>,
    pub extension: Seq<char>,
    pub description: Seq<char>,
    pub codecs: Seq<Seq<char>>,
    pub supported_resolutions: Seq<(u32, u32)>,
}

impl View for ExportFormat {
    type V = ExportFormatView;

    open spec fn view(&self) -> ExportFormatView {
        ExportFormatView {
            name: self.name@,
            extension: self.extension@,
            description: self.description@,
            codecs: strings_view(self.codecs@),
            supported_resolutions: self.supported_resolutions@,
        }
    }
}

// ---------------------------------------------------------------------------
// The job lists
// ---------------------------------------------------------------------------

/// Whether a job with this status is still active.
pub open spec fn is_active_status(s: ExportStatus) -> bool {
    s == ExportStatus::Pending || s == ExportStatus::Processing
}

/// The value of an `ExportState`: the active jobs and the retired ones, in
/// the order in which they were added.
pub struct ExportStateView {
    pub active: Seq<ExportJobView>,
    pub completed: Seq<ExportJobView>,
}

/// Every active job is pending or processing, and every retired job is
/// completed, failed or cancelled.
pub open spec fn jobs_well_formed(v: ExportStateView) -> bool {
    &&& forall|i: int| 0 <= i < v.active.len() ==> is_active_status(#[trigger] v.active[i].status)
    &&& forall|i: int| 0 <= i < v.completed.len() ==> !is_active_status(#[trigger] v.completed[i].status)
}

pub open spec fn job_has_id(id: u128) -> spec_fn(ExportJobView) -> bool {
    |j: ExportJobView| j.id == id
}

/// A new pending job at zero progress.
pub open spec fn new_job(id: u128, config: ExportConfigView) -> ExportJobView {
    ExportJobView { id, config, progress: zero_progress(), status: ExportStatus::Pending }
}

/// The state after creating the job `id`.
pub open spec fn spec_create(v: ExportStateView, id: u128, config: ExportConfigView) -> ExportStateView {
    ExportStateView { active: v.active.push(new_job(id, config)), ..v }
}

/// The first active job with id `id`, or else the first retired one.
pub open spec fn spec_get_job(v: ExportStateView, id: u128) -> Option<ExportJobView> {
    if any(v.active, job_has_id(id)) {
        Some(v.active[first(v.active, job_has_id(id))])
    } else if any(v.completed, job_has_id(id)) {
        Some(v.completed[first(v.completed, job_has_id(id))])
    } else {
        None
    }
}

/// The state after the first active job with id `id` is retired with
/// `status` (and `progress`, when given), and whether there was one.
pub open spec fn spec_retire(
    v: ExportStateView,
    id: u128,
    status: ExportStatus,
    progress: Option<ExportProgress>,
) -> (ExportStateView, bool) {
    if any(v.active, job_has_id(id)) {
        let i = first(v.active, job_has_id(id));
        let j = v.active[i];
        let p = match progress {
            Some(p) => p,
            None => j.progress,
        };
        (
            ExportStateView {
                active: v.active.remove(i),
                completed: v.completed.push(ExportJobView { status, progress: p, ..j }),
            },
            true,
        )
    } else {
        (v, false)
    }
}

/// The state after the first active job with id `id` is changed to `j2`,
/// and whether there was one.
pub open spec fn spec_change_active(
    v: ExportStateView,
    id: u128,
    f: spec_fn(ExportJobView) -> ExportJobView,
) -> (ExportStateView, bool) {
    if any(v.active, job_has_id(id)) {
        let i = first(v.active, job_has_id(id));
        (ExportStateView { active: v.active.update(i, f(v.active[i])), ..v }, true)
    } else {
        (v, false)
    }
}

/// A job with its progress replaced.
pub open spec fn with_progress(p: ExportProgress) -> spec_fn(ExportJobView) -> ExportJobView {
    |j: ExportJobView| ExportJobView { progress: p, ..j }
}

/// A job marked as processing.
pub open spec fn processing() -> spec_fn(ExportJobView) -> ExportJobView {
    |j: ExportJobView| ExportJobView { status: ExportStatus::Processing, ..j }
}

fn find_job(jobs: &Vec<ExportJob>, id: u128) -> (r: Option<usize>)
    ensures
        r matches Some(i) ==> is_first(views(jobs@), job_has_id(id), i as int),
        r is None ==> !any(views(jobs@), job_has_id(id)),
{
    let mut i: usize = 0;
    while i < jobs.len()
        invariant
            i <= jobs.len(),
            forall|j: int| 0 <= j < i ==> !job_has_id(id)(#[trigger] views(jobs@)[j]),
        decreases jobs.len() - i,
    {
        if jobs[i].id == id {
            return Some(i);
        }
        i = i + 1;
    }
    None
}

/// The export jobs: the active ones (pending or processing) and the
/// retired ones (completed, failed or cancelled).
pub struct ExportState {
    active_jobs: Vec<ExportJob>,
    completed_jobs: Vec<ExportJob>,
}

impl View for ExportState {
    type V = ExportStateView;

    closed spec fn view(&self) -> ExportStateView {
        ExportStateView { active: views(self.active_jobs@), completed: views(self.completed_jobs@) }
    }
}

impl ExportState {
    #[verifier::type_invariant]
    closed spec fn statuses_in_place(&self) -> bool {
        jobs_well_formed(self@)
    }

    /// Takes both job lists out, leaving this state empty.
    fn take_jobs(&mut self) -> (r: (Vec<ExportJob>, Vec<ExportJob>))
        ensures
            views(r.0@) == old(self)@.active,
            views(r.1@) == old(self)@.completed,
            jobs_well_formed(old(self)@),
    {
        proof {
            use_type_invariant(&*self);
        }
        let mut active: Vec<ExportJob> = Vec::new();
        let mut completed: Vec<ExportJob> = Vec::new();
        std::mem::swap(&mut active, &mut self.active_jobs);
        std::mem::swap(&mut completed, &mut self.completed_jobs);
        (active, completed)
    }

    /// Puts job lists in place.
    fn put_jobs(&mut self, active: Vec<ExportJob>, completed: Vec<ExportJob>)
        requires
            jobs_well_formed(ExportStateView { active: views(active@), completed: views(completed@) }),
        ensures
            final(self)@ == (ExportStateView { active: views(active@), completed: views(completed@) }),
    {
        *self = ExportState { active_jobs: active, completed_jobs: completed };
    }

    /// No job yet.
    pub fn new() -> (s: ExportState)
        ensures
            s@.active.len() == 0,
            s@.completed.len() == 0,
            jobs_well_formed(s@),
    {
        let s = ExportState { active_jobs: Vec::new(), completed_jobs: Vec::new() };
        assert(s@.active =~= Seq::empty());
        assert(s@.completed =~= Seq::empty());
        s
    }

    /// Adds a pending job for `config` with a fresh id, and gives the id.
    pub fn create_job(&mut self, config: ExportConfig) -> (id: u128)
        ensures
            final(self)@ == spec_create(old(self)@, id, config@),
            jobs_well_formed(final(self)@),
    {
        let (mut active, completed) = self.take_jobs();
        let id = uuid_new_v4();
        let job = ExportJob { id, config, progress: ExportProgress::default(), status: ExportStatus::Pending };
        proof {
            lemma_views_push(active@, job);
        }
        active.push(job);
        self.put_jobs(active, completed);
        id
    }

    /// A copy of the first active job with id `job_id`, or else of the first
    /// retired one.
    pub fn get_job(&self, job_id: u128) -> (r: Option<ExportJob>)
        ensures
            r is Some <==> spec_get_job(self@, job_id) is Some,
            r matches Some(j) ==> Some(j@) == spec_get_job(self@, job_id),
    {
        match find_job(&self.active_jobs, job_id) {
            Some(i) => {
                proof {
                    lemma_first(views(self.active_jobs@), job_has_id(job_id), i as int);
                }
                return Some(self.active_jobs[i].deep_copy());
            },
            None => {},
        }
        match find_job(&self.completed_jobs, job_id) {
            Some(i) => {
                proof {
                    lemma_first(views(self.completed_jobs@), job_has_id(job_id), i as int);
                }
                Some(self.completed_jobs[i].deep_copy())
            },
            None => None,
        }
    }

    /// Moves the first active job with id `job_id` to the retired jobs with
    /// `status`, and with `progress` when it is given.
    fn retire(&mut self, job_id: u128, status: ExportStatus, progress: Option<ExportProgress>) -> (found: bool)
        requires
            !is_active_status(status),
        ensures
            (final(self)@, found) == spec_retire(old(self)@, job_id, status, progress),
            jobs_well_formed(final(self)@),
    {
        let ghost before = self@;
        let (mut active, mut completed) = self.take_jobs();
        match find_job(&active, job_id) {
            Some(i) => {
                proof {
                    lemma_first(views(active@), job_has_id(job_id), i as int);
                }
                let mut job = active.remove(i);
                assert(views(active@) =~= before.active.remove(i as int));
                job.status = status;
                match progress {
                    Some(p) => {
                        job.progress = p;
                    },
                    None => {},
                }
                proof {
                    lemma_views_push(completed@, job);
                }
                completed.push(job);
                self.put_jobs(active, completed);
                true
            },
            None => {
                self.put_jobs(active, completed);
                false
            },
        }
    }

    /// Cancels the first active job with id `job_id`: it becomes a retired,
    /// cancelled job. Whether there was such a job.
    pub fn cancel_job(&mut self, job_id: u128) -> (found: bool)
        ensures
            (final(self)@, found) == spec_retire(old(self)@, job_id, ExportStatus::Cancelled, None),
            jobs_well_formed(final(self)@),
    {
        self.retire(job_id, ExportStatus::Cancelled, None)
    }

    /// Replaces the progress of the first active job with id `job_id`.
    /// Whether there was such a job.
    pub fn update_progress(&mut self, job_id: u128, progress: ExportProgress) -> (found: bool)
        ensures
            (final(self)@, found) == spec_change_active(old(self)@, job_id, with_progress(progress)),
            jobs_well_formed(final(self)@),
    {
        let ghost before = self@;
        let (mut active, completed) = self.take_jobs();
        match find_job(&active, job_id) {
            Some(i) => {
                proof {
                    lemma_first(views(active@), job_has_id(job_id), i as int);
                }
                let mut job = active.remove(i);
                job.progress = progress;
                active.insert(i, job);
                assert(views(active@) =~= before.active.update(i as int, with_progress(progress)(before.active[i as int])));
                self.put_jobs(active, completed);
                true
            },
            None => {
                self.put_jobs(active, completed);
                false
            },
        }
    }

    /// Retires the first active job with id `job_id` as completed, with its
    /// final progress. Whether there was such a job.
    pub fn complete_job(&mut self, job_id: u128, final_progress: ExportProgress) -> (found: bool)
        ensures
            (final(self)@, found) == spec_retire(old(self)@, job_id, ExportStatus::Completed, Some(final_progress)),
            jobs_well_formed(final(self)@),
    {
        self.retire(job_id, ExportStatus::Completed, Some(final_progress))
    }

    /// Retires the first active job with id `job_id` as failed. Whether there
    /// was such a job.
    pub fn fail_job(&mut self, job_id: u128) -> (found: bool)
        ensures
            (final(self)@, found) == spec_retire(old(self)@, job_id, ExportStatus::Failed, None),
            jobs_well_formed(final(self)@),
    {
        self.retire(job_id, ExportStatus::Failed, None)
    }

    /// Marks the first active job with id `job_id` as processing. Whether
    /// there was such a job.
    pub fn start_processing(&mut self, job_id: u128) -> (found: bool)
        ensures
            (final(self)@, found) == spec_change_active(old(self)@, job_id, processing()),
            jobs_well_formed(final(self)@),
    {
        let ghost before = self@;
        let (mut active, completed) = self.take_jobs();
        match find_job(&active, job_id) {
            Some(i) => {
                proof {
                    lemma_first(views(active@), job_has_id(job_id), i as int);
                }
                let mut job = active.remove(i);
                job.status = ExportStatus::Processing;
                active.insert(i, job);
                assert(views(active@) =~= before.active.update(i as int, processing()(before.active[i as int])));
                self.put_jobs(active, completed);
                true
            },
            None => {
                self.put_jobs(active, completed);
                false
            },
        }
    }

    /// A copy of the active jobs.
    pub fn get_active_jobs(&self) -> (r: Vec<ExportJob>)
        ensures
            views(r@) == self@.active,
    {
        copy_vec(&self.active_jobs)
    }

    /// A copy of the retired jobs.
    pub fn get_completed_jobs(&self) -> (r: Vec<ExportJob>)
        ensures
            views(r@) == self@.completed,
    {
        copy_vec(&self.completed_jobs)
    }

    /// The export formats offered.
    pub fn get_export_formats() -> (v: Vec<ExportFormat>)
        ensures
            views(v@) == spec_export_formats(),
    {
        let mut v: Vec<ExportFormat> = Vec::new();
        v.push(mp4_format());
        v.push(mkv_format());
        v.push(mov_format());
        v.push(webm_format());
        v.push(gif_format());
        v.push(avi_format());
        v.push(ts_format());
        assert(views(v@) =~= spec_export_formats());
        v
    }
}

impl Default for ExportState {
    fn default() -> (s: ExportState)
        ensures
            s@.active.len() == 0,
            s@.completed.len() == 0,
    {
        ExportState::new()
    }
}

/// The export formats offered, in the order in which they are listed.
pub open spec fn spec_export_formats() -> Seq<ExportFormatView> {
    seq![
        mp4_format_view(),
        mkv_format_view(),
        mov_format_view(),
        webm_format_view(),
        gif_format_view(),
        avi_format_view(),
        ts_format_view(),
    ]
}

pub open spec fn mp4_format_view() -> ExportFormatView {
    ExportFormatView {
        name: "MP4 (MPEG-4 Part 14)"@,
        extension: "mp4"@,
        description: "Universal format supported by most devices, browsers, and platforms. Ideal for web distribution and social media."@,
        codecs: seq!["h264"@, "hevc"@, "av1"@],
        supported_resolutions: seq![(3840u32, 2160u32), (2560u32, 1440u32), (1920u32, 1080u32), (1280u32, 720u32), (854u32, 480u32)],
    }
}

fn mp4_format() -> (f: ExportFormat)
    ensures
        f@ == mp4_format_view(),
{
    let mut codecs: Vec<String> = Vec::new();
    codecs.push(String::from_str("h264"));
    codecs.push(String::from_str("hevc"));
    codecs.push(String::from_str("av1"));
    let mut sizes: Vec<(u32, u32)> = Vec::new();
    sizes.push((3840, 2160));
    sizes.push((2560, 1440));
    sizes.push((1920, 1080));
    sizes.push((1280, 720));
    sizes.push((854, 480));
    let f = ExportFormat {
        name: String::from_str("MP4 (MPEG-4 Part 14)"),
        extension: String::from_str("mp4"),
        description: String::from_str("Universal format supported by most devices, browsers, and platforms. Ideal for web distribution and social media."),
        codecs,
        supported_resolutions: sizes,
    };
    assert(f@.codecs =~= seq!["h264"@, "hevc"@, "av1"@]);
    assert(f@.supported_resolutions =~= seq![(3840u32, 2160u32), (2560u32, 1440u32), (1920u32, 1080u32), (1280u32, 720u32), (854u32, 480u32)]);
    f
}

pub open spec fn mkv_format_view() -> ExportFormatView {
    ExportFormatView {
        name: "MKV (Matroska)"@,
        extension: "mkv"@,
        description: "Flexible container supporting virtually any codec. Ideal for archival and high-quality preservation with minimal compression loss."@,
        codecs: seq!["h264"@, "hevc"@, "vp9"@, "av1"@, "flac"@],
        supported_resolutions: seq![(3840u32, 2160u32), (2560u32, 1440u32), (1920u32, 1080u32), (1280u32, 720u32)],
    }
}

fn mkv_format() -> (f: ExportFormat)
    ensures
        f@ == mkv_format_view(),
{
    let mut codecs: Vec<String> = Vec::new();
    codecs.push(String::from_str("h264"));
    codecs.push(String::from_str("hevc"));
    codecs.push(String::from_str("vp9"));
    codecs.push(String::from_str("av1"));
    codecs.push(String::from_str("flac"));
    let mut sizes: Vec<(u32, u32)> = Vec::new();
    sizes.push((3840, 2160));
    sizes.push((2560, 1440));
    sizes.push((1920, 1080));
    sizes.push((1280, 720));
    let f = ExportFormat {
        name: String::from_str("MKV (Matroska)"),
        extension: String::from_str("mkv"),
        description: String::from_str("Flexible container supporting virtually any codec. Ideal for archival and high-quality preservation with minimal compression loss."),
        codecs,
        supported_resolutions: sizes,
    };
    assert(f@.codecs =~= seq!["h264"@, "hevc"@, "vp9"@, "av1"@, "flac"@]);
    assert(f@.supported_resolutions =~= seq![(3840u32, 2160u32), (2560u32, 1440u32), (1920u32, 1080u32), (1280u32, 720u32)]);
    f
}

pub open spec fn mov_format_view() -> ExportFormatView {
    ExportFormatView {
        name: "MOV (QuickTime)"@,
        extension: "mov"@,
        description: "Apple's native format, widely used in professional video production and post-production workflows. Ideal for macOS/iOS targets."@,
        codecs: seq!["h264"@, "hevc"@, "prores"@],
        supported_resolutions: seq![(3840u32, 2160u32), (1920u32, 1080u32), (1280u32, 720u32)],
    }
}

fn mov_format() -> (f: ExportFormat)
    ensures
        f@ == mov_format_view(),
{
    let mut codecs: Vec<String> = Vec::new();
    codecs.push(String::from_str("h264"));
    codecs.push(String::from_str("hevc"));
    codecs.push(String::from_str("prores"));
    let mut sizes: Vec<(u32, u32)> = Vec::new();
    sizes.push((3840, 2160));
    sizes.push((1920, 1080));
    sizes.push((1280, 720));
    let f = ExportFormat {
        name: String::from_str("MOV (QuickTime)"),
        extension: String::from_str("mov"),
        description: String::from_str("Apple's native format, widely used in professional video production and post-production workflows. Ideal for macOS/iOS targets."),
        codecs,
        supported_resolutions: sizes,
    };
    assert(f@.codecs =~= seq!["h264"@, "hevc"@, "prores"@]);
    assert(f@.supported_resolutions =~= seq![(3840u32, 2160u32), (1920u32, 1080u32), (1280u32, 720u32)]);
    f
}

pub open spec fn webm_format_view() -> ExportFormatView {
    ExportFormatView {
        name: "WebM"@,
        extension: "webm"@,
        description: "Open web format optimized for HTML5 video streaming. Uses VP9/AV1 video and Opus audio. Ideal for web embedding."@,
        codecs: seq!["vp9"@, "av1"@],
        supported_resolutions: seq![(1920u32, 1080u32), (1280u32, 720u32), (854u32, 480u32), (640u32, 360u32)],
    }
}

fn webm_format() -> (f: ExportFormat)
    ensures
        f@ == webm_format_view(),
{
    let mut codecs: Vec<String> = Vec::new();
    codecs.push(String::from_str("vp9"));
    codecs.push(String::from_str("av1"));
    let mut sizes: Vec<(u32, u32)> = Vec::new();
    sizes.push((1920, 1080));
    sizes.push((1280, 720));
    sizes.push((854, 480));
    sizes.push((640, 360));
    let f = ExportFormat {
        name: String::from_str("WebM"),
        extension: String::from_str("webm"),
        description: String::from_str("Open web format optimized for HTML5 video streaming. Uses VP9/AV1 video and Opus audio. Ideal for web embedding."),
        codecs,
        supported_resolutions: sizes,
    };
    assert(f@.codecs =~= seq!["vp9"@, "av1"@]);
    assert(f@.supported_resolutions =~= seq![(1920u32, 1080u32), (1280u32, 720u32), (854u32, 480u32), (640u32, 360u32)]);
    f
}

pub open spec fn gif_format_view() -> ExportFormatView {
    ExportFormatView {
        name: "GIF (Animated)"@,
        extension: "gif"@,
        description: "Animated image format with no audio support. Limited color palette (256 colors). Ideal for short looping clips and social media previews."@,
        codecs: seq!["gif"@],
        supported_resolutions: seq![(640u32, 480u32), (480u32, 360u32), (320u32, 240u32)],
    }
}

fn gif_format() -> (f: ExportFormat)
    ensures
        f@ == gif_format_view(),
{
    let mut codecs: Vec<String> = Vec::new();
    codecs.push(String::from_str("gif"));
    let mut sizes: Vec<(u32, u32)> = Vec::new();
    sizes.push((640, 480));
    sizes.push((480, 360));
    sizes.push((320, 240));
    let f = ExportFormat {
        name: String::from_str("GIF (Animated)"),
        extension: String::from_str("gif"),
        description: String::from_str("Animated image format with no audio support. Limited color palette (256 colors). Ideal for short looping clips and social media previews."),
        codecs,
        supported_resolutions: sizes,
    };
    assert(f@.codecs =~= seq!["gif"@]);
    assert(f@.supported_resolutions =~= seq![(640u32, 480u32), (480u32, 360u32), (320u32, 240u32)]);
    f
}

pub open spec fn avi_format_view() -> ExportFormatView {
    ExportFormatView {
        name: "AVI (Audio Video Interleave)"@,
        extension: "avi"@,
        description: "Legacy Microsoft format with broad compatibility on Windows. Limited modern codec support. Suitable for older software integrations."@,
        codecs: seq!["h264"@, "mpeg4"@],
        supported_resolutions: seq![(1920u32, 1080u32), (1280u32, 720u32)],
    }
}

fn avi_format() -> (f: ExportFormat)
    ensures
        f@ == avi_format_view(),
{
    let mut codecs: Vec<String> = Vec::new();
    codecs.push(String::from_str("h264"));
    codecs.push(String::from_str("mpeg4"));
    let mut sizes: Vec<(u32, u32)> = Vec::new();
    sizes.push((1920, 1080));
    sizes.push((1280, 720));
    let f = ExportFormat {
        name: String::from_str("AVI (Audio Video Interleave)"),
        extension: String::from_str("avi"),
        description: String::from_str("Legacy Microsoft format with broad compatibility on Windows. Limited modern codec support. Suitable for older software integrations."),
        codecs,
        supported_resolutions: sizes,
    };
    assert(f@.codecs =~= seq!["h264"@, "mpeg4"@]);
    assert(f@.supported_resolutions =~= seq![(1920u32, 1080u32), (1280u32, 720u32)]);
    f
}

pub open spec fn ts_format_view() -> ExportFormatView {
    ExportFormatView {
        name: "TS (MPEG-TS)"@,
        extension: "ts"@,
        description: "Transport stream format used for broadcast and streaming. Robust error recovery. Ideal for IPTV, satellite, and live streaming workflows."@,
        codecs: seq!["h264"@, "hevc"@],
        supported_resolutions: seq![(1920u32, 1080u32), (1280u32, 720u32)],
    }
}

fn ts_format() -> (f: ExportFormat)
    ensures
        f@ == ts_format_view(),
{
    let mut codecs: Vec<String> = Vec::new();
    codecs.push(String::from_str("h264"));
    codecs.push(String::from_str("hevc"));
    let mut sizes: Vec<(u32, u32)> = Vec::new();
    sizes.push((1920, 1080));
    sizes.push((1280, 720));
    let f = ExportFormat {
        name: String::from_str("TS (MPEG-TS)"),
        extension: String::from_str("ts"),
        description: String::from_str("Transport stream format used for broadcast and streaming. Robust error recovery. Ideal for IPTV, satellite, and live streaming workflows."),
        codecs,
        supported_resolutions: sizes,
    };
    assert(f@.codecs =~= seq!["h264"@, "hevc"@]);
    assert(f@.supported_resolutions =~= seq![(1920u32, 1080u32), (1280u32, 720u32)]);
    f
}


// ---------------------------------------------------------------------------
// Laws of the job lists
// ---------------------------------------------------------------------------

/// At most one job of `s` has id `id`.
pub open spec fn at_most_one(s: Seq<ExportJobView>, id: u128) -> bool {
    forall|i: int, j: int|
        0 <= i < s.len() && 0 <= j < s.len() && #[trigger] s[i].id == id && #[trigger] s[j].id == id ==> i == j
}

/// A job just created is the one found under its id, when no active job had
/// that id before.
pub proof fn law_created_job_is_found(v: ExportStateView, id: u128, config: ExportConfigView)
    requires
        !any(v.active, job_has_id(id)),
    ensures
        spec_get_job(spec_create(v, id, config), id) == Some(new_job(id, config)),
{
    let a = spec_create(v, id, config).active;
    let n = v.active.len() as int;
    assert(a[n] == new_job(id, config));
    assert forall|j: int| 0 <= j < n implies !job_has_id(id)(#[trigger] a[j]) by {
        assert(a[j] == v.active[j]);
        if job_has_id(id)(v.active[j]) {
            assert(any(v.active, job_has_id(id)));
        }
    }
    lemma_first(a, job_has_id(id), n);
}

/// Retiring a job (cancelling, completing or failing it) moves exactly one
/// job from the active list to the end of the retired list, with the new
/// status, when an active job has the id; otherwise nothing changes.
pub proof fn law_retire_moves_one_job(
    v: ExportStateView,
    id: u128,
    status: ExportStatus,
    progress: Option<ExportProgress>,
)
    ensures
        ({
            let (v2, found) = spec_retire(v, id, status, progress);
            &&& found == any(v.active, job_has_id(id))
            &&& found ==> v2.active.len() == v.active.len() - 1
            &&& found ==> v2.completed.len() == v.completed.len() + 1
            &&& found ==> v2.completed.last().id == id
            &&& found ==> v2.completed.last().status == status
            &&& found ==> v2.completed.drop_last() == v.completed
            &&& !found ==> v2 == v
        }),
{
    if any(v.active, job_has_id(id)) {
        let i = choose|i: int| 0 <= i < v.active.len() && job_has_id(id)(#[trigger] v.active[i]);
        lemma_exists_first(v.active, job_has_id(id), i);
        let v2 = spec_retire(v, id, status, progress).0;
        assert(v2.completed.drop_last() =~= v.completed);
    }
}

/// Every operation keeps active jobs pending or processing and retired jobs
/// completed, failed or cancelled.
pub proof fn law_operations_keep_statuses(
    v: ExportStateView,
    id: u128,
    config: ExportConfigView,
    p: ExportProgress,
    status: ExportStatus,
    progress: Option<ExportProgress>,
)
    requires
        jobs_well_formed(v),
        !is_active_status(status),
    ensures
        jobs_well_formed(spec_create(v, id, config)),
        jobs_well_formed(spec_retire(v, id, status, progress).0),
        jobs_well_formed(spec_change_active(v, id, with_progress(p)).0),
        jobs_well_formed(spec_change_active(v, id, processing()).0),
{
    let c = spec_create(v, id, config);
    assert forall|i: int| 0 <= i < c.active.len() implies is_active_status(#[trigger] c.active[i].status) by {
        if i < v.active.len() {
            assert(c.active[i] == v.active[i]);
        }
    }
    if any(v.active, job_has_id(id)) {
        let w = choose|w: int| 0 <= w < v.active.len() && job_has_id(id)(#[trigger] v.active[w]);
        lemma_exists_first(v.active, job_has_id(id), w);
        let i = first(v.active, job_has_id(id));
        let r = spec_retire(v, id, status, progress).0;
        assert forall|k: int| 0 <= k < r.active.len() implies is_active_status(#[trigger] r.active[k].status) by {
            if k < i {
                assert(r.active[k] == v.active[k]);
            } else {
                assert(r.active[k] == v.active[k + 1]);
            }
        }
        assert forall|k: int| 0 <= k < r.completed.len() implies !is_active_status(#[trigger] r.completed[k].status) by {
            if k < v.completed.len() {
                assert(r.completed[k] == v.completed[k]);
            }
        }
        let u = spec_change_active(v, id, with_progress(p)).0;
        assert forall|k: int| 0 <= k < u.active.len() implies is_active_status(#[trigger] u.active[k].status) by {
            if k != i {
                assert(u.active[k] == v.active[k]);
            } else {
                assert(u.active[k].status == v.active[k].status);
            }
        }
        let q = spec_change_active(v, id, processing()).0;
        assert forall|k: int| 0 <= k < q.active.len() implies is_active_status(#[trigger] q.active[k].status) by {
            if k != i {
                assert(q.active[k] == v.active[k]);
            }
        }
    }
}

/// Once the only active job with an id is retired, that id finds the
/// retired job, with its new status, when no retired job had the id before;
/// and retiring under the same id again finds nothing.
pub proof fn law_retired_job_stays_retired(
    v: ExportStateView,
    id: u128,
    status: ExportStatus,
    progress: Option<ExportProgress>,
)
    requires
        any(v.active, job_has_id(id)),
        at_most_one(v.active, id),
        !any(v.completed, job_has_id(id)),
    ensures
        ({
            let v2 = spec_retire(v, id, status, progress).0;
            &&& spec_get_job(v2, id) == Some(v2.completed.last())
            &&& v2.completed.last().status == status
            &&& spec_retire(v2, id, status, progress) == (v2, false)
        }),
{
    let w = choose|w: int| 0 <= w < v.active.len() && job_has_id(id)(#[trigger] v.active[w]);
    lemma_exists_first(v.active, job_has_id(id), w);
    let i = first(v.active, job_has_id(id));
    let v2 = spec_retire(v, id, status, progress).0;
    assert(!any(v2.active, job_has_id(id))) by {
        assert forall|k: int| 0 <= k < v2.active.len() implies !job_has_id(id)(#[trigger] v2.active[k]) by {
            if k < i {
                assert(v2.active[k] == v.active[k]);
                if v.active[k].id == id {
                    assert(v.active[i].id == id);
                }
            } else {
                assert(v2.active[k] == v.active[k + 1]);
                if v.active[k + 1].id == id {
                    assert(v.active[i].id == id);
                }
            }
        }
    }
    let n = v.completed.len() as int;
    assert forall|k: int| 0 <= k < n implies !job_has_id(id)(#[trigger] v2.completed[k]) by {
        assert(v2.completed[k] == v.completed[k]);
        if job_has_id(id)(v.completed[k]) {
            assert(any(v.completed, job_has_id(id)));
        }
    }
    lemma_first(v2.completed, job_has_id(id), n);
}

} // verus!
