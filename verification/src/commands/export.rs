//! Export commands: start an export job, report its progress, cancel it and
//! list the formats that can be exported.

use vstd::prelude::*;

use crate::deep_copy::{copy_vec, views};
use crate::engine::EngineState;
use crate::export::{
    job_has_id, spec_create, spec_export_formats, spec_get_job, spec_retire, ExportConfig as JobConfig,
    ExportConfigView as JobConfigView, ExportFormat as FormatEntry, ExportFormatView as FormatEntryView,
    ExportJobView, ExportState, ExportStateView, ExportStatus, QualityPreset,
};
use crate::ids::{hyphenated, spec_uuid_parse, uuid_parse, uuid_text};
use crate::project::{opt_string_view, ProjectState};
use crate::search::{any, first, lemma_first};
use crate::text::{blank, cat, cat3, decimal_nat, is_blank, nat_text};
use crate::utils::strings_view;
use vstd::string::StringExecFns;

verus! {

/// The settings of an export as the export dialog gives them.
pub struct ExportConfig {
    pub output_path: String,
    pub format: String,
    pub video_codec: String,
    pub audio_codec: String,
    pub width: u32,
    pub height: u32,
    /// Frames per second, in thousandths.
    pub frame_rate: i64,
    /// Kilobits per second; 0 for the codec's default.
    pub video_bitrate: u32,
    /// Kilobits per second; 0 for the codec's default.
    pub audio_bitrate: u32,
    /// "ultrafast", "fast", "medium", "slow" or "veryslow".
    pub preset: String,
    pub profile: String,
    pub audio_channels: u32,
    pub audio_sample_rate: u32,
    pub metadata_title: Option<String>,
    pub metadata_comment: Option<String>,
    pub embed_creation_date: bool,
    pub custom_flags: Option<String>,
}

pub struct ExportConfigView {
    pub output_path: Seq<char>,
    pub format: Seq<char>,
    pub video_codec: Seq<char>,
    pub audio_codec: Seq<char>,
    pub width: u32,
    pub height: u32,
    pub frame_rate: i64,
    pub video_bitrate: u32,
    pub audio_bitrate: u32,
    pub preset: Seq<char>,
    pub profile: Seq<char>,
    pub audio_channels: u32,
    pub audio_sample_rate: u32,
    pub metadata_title: Option<Seq<char>>,
    pub metadata_comment: Option<Seq<char>>,
    pub embed_creation_date: bool,
    pub custom_flags: Option<Seq<char>>,
}

impl View for ExportConfig {
    type V = ExportConfigView;

    open spec fn view(&self) -> ExportConfigView {
        ExportConfigView {
            output_path: self.output_path@,
            format: self.format@,
            video_codec: self.video_codec@,
            audio_codec: self.audio_codec@,
            width: self.width,
            height: self.height,
            frame_rate: self.frame_rate,
            video_bitrate: self.video_bitrate,
            audio_bitrate: self.audio_bitrate,
            preset: self.preset@,
            profile: self.profile@,
            audio_channels: self.audio_channels,
            audio_sample_rate: self.audio_sample_rate,
            metadata_title: opt_string_view(self.metadata_title),
            metadata_comment: opt_string_view(self.metadata_comment),
            embed_creation_date: self.embed_creation_date,
            custom_flags: opt_string_view(self.custom_flags),
        }
    }
}

/// The progress of an export job as the front end polls it.
pub struct ExportProgress {
    pub job_id: String,
    /// "pending", "processing", "completed", "failed" or "cancelled".
    pub phase: String,
    /// Completion in thousandths of a percent.
    pub progress: i64,
    pub frames_processed: u64,
    pub total_frames: u64,
    /// Estimated time left, in milliseconds.
    pub estimated_time_remaining: i64,
    /// Thousandths of a frame per second.
    pub current_speed_fps: i64,
    pub output_file_size: u64,
    /// Whether the job has finished, successfully or not.
    pub completed: bool,
    pub cancelled: bool,
    pub error: Option<String>,
}

pub struct ExportProgressView {
    pub job_id: Seq<char>,
    pub phase: Seq<char>,
    pub progress: i64,
    pub frames_processed: u64,
    pub total_frames: u64,
    pub estimated_time_remaining: i64,
    pub current_speed_fps: i64,
    pub output_file_size: u64,
    pub completed: bool,
    pub cancelled: bool,
    pub error: Option<Seq<char>>,
}

impl View for ExportProgress {
    type V = ExportProgressView;

    open spec fn view(&self) -> ExportProgressView {
        ExportProgressView {
            job_id: self.job_id@,
            phase: self.phase@,
            progress: self.progress,
            frames_processed: self.frames_processed,
            total_frames: self.total_frames,
            estimated_time_remaining: self.estimated_time_remaining,
            current_speed_fps: self.current_speed_fps,
            output_file_size: self.output_file_size,
            completed: self.completed,
            cancelled: self.cancelled,
            error: opt_string_view(self.error),
        }
    }
}

/// An export format as the format menu shows it.
pub struct ExportFormat {
    pub format: String,
    pub name: String,
    pub description: String,
    pub video_codecs: Vec<String>,
    pub audio_codecs: Vec<String>,
    /// The largest listed resolution, "WIDTHxHEIGHT".
    pub max_resolution: String,
    /// The file extension with its dot, such as ".mp4".
    pub extension: String,
}

pub struct ExportFormatView {
    pub format: Seq<char>,
    pub name: Seq<char>,
    pub description: Seq<char>,
    pub video_codecs: Seq<Seq<char>>,
    pub audio_codecs: Seq<Seq<char>>,
    pub max_resolution: Seq<char>,
    pub extension: Seq<char>,
}

impl View for ExportFormat {
    type V = ExportFormatView;

    open spec fn view(&self) -> ExportFormatView {
        ExportFormatView {
            format: self.format@,
            name: self.name@,
            description: self.description@,
            video_codecs: strings_view(self.video_codecs@),
            audio_codecs: strings_view(self.audio_codecs@),
            max_resolution: self.max_resolution@,
            extension: self.extension@,
        }
    }
}

/// Why an export command failed: a category and a message.
pub struct ExportError {
    pub kind: String,
    pub message: String,
}

pub struct ExportErrorView {
    pub kind: Seq<char>,
    pub message: Seq<char>,
}

impl View for ExportError {
    type V = ExportErrorView;

    open spec fn view(&self) -> ExportErrorView {
        ExportErrorView { kind: self.kind@, message: self.message@ }
    }
}

pub open spec fn export_error(kind: Seq<char>, message: Seq<char>) -> ExportErrorView {
    ExportErrorView { kind, message }
}

fn error_of(kind: &str, message: String) -> (e: ExportError)
    ensures
        e@ == export_error(kind@, message@),
{
    ExportError { kind: String::from_str(kind), message }
}

fn error_text(kind: &str, message: &str) -> (e: ExportError)
    ensures
        e@ == export_error(kind@, message@),
{
    error_of(kind, String::from_str(message))
}

// ---------------------------------------------------------------------------
// start_export
// ---------------------------------------------------------------------------

pub open spec fn format_has_extension(ext: Seq<char>) -> spec_fn(FormatEntryView) -> bool {
    |f: FormatEntryView| f.extension == ext
}

/// Why `format` with `video_codec` cannot be exported, if it cannot: the
/// format must be one of the export formats and the codec one of its codecs.
pub open spec fn format_problem(format: Seq<char>, video_codec: Seq<char>) -> Option<Seq<char>> {
    let formats = spec_export_formats();
    if !any(formats, format_has_extension(format)) {
        Some("format '"@ + format + "' is not offered"@)
    } else if !formats[first(formats, format_has_extension(format))].codecs.contains(video_codec) {
        Some("video codec '"@ + video_codec + "' is not offered for format '"@ + format + "'"@)
    } else {
        None
    }
}

/// Why starting an export fails, if it does.
pub open spec fn start_export_check(
    c: ExportConfigView,
    exports: ExportStateView,
    project_open: bool,
    engine_ready: bool,
) -> Option<ExportErrorView> {
    if blank(c.output_path) {
        Some(export_error("validation"@, "Output path must not be empty."@))
    } else if blank(c.format) {
        Some(export_error("validation"@, "Export format must not be empty."@))
    } else if blank(c.video_codec) {
        Some(export_error("validation"@, "Video codec must not be empty."@))
    } else if c.width == 0 || c.height == 0 {
        Some(export_error("validation"@, "Output resolution must not be zero."@))
    } else if c.frame_rate <= 0 {
        Some(export_error("validation"@, "Frame rate must be positive."@))
    } else if !project_open {
        Some(export_error("no_active_project"@, "No active project. Open a project before exporting."@))
    } else if !engine_ready {
        Some(
            export_error(
                "engine_not_initialized"@,
                "The video engine has not been initialized. Call initialize_engine first."@,
            ),
        )
    } else if format_problem(c.format, c.video_codec) is Some {
        Some(
            export_error(
                "invalid_config"@,
                "Unsupported export configuration: "@ + format_problem(c.format, c.video_codec)->0,
            ),
        )
    } else if exports.active.len() > 0 {
        Some(
            export_error(
                "job_already_active"@,
                "An export job is already running. Cancel it before starting a new one."@,
            ),
        )
    } else {
        None
    }
}

/// The preset a preset name stands for; unknown names give the medium
/// preset.
pub open spec fn preset_named(name: Seq<char>) -> QualityPreset {
    if name == "ultrafast"@ {
        QualityPreset::UltraFast
    } else if name == "fast"@ {
        QualityPreset::Fast
    } else if name == "slow"@ {
        QualityPreset::Slow
    } else if name == "veryslow"@ {
        QualityPreset::VerySlow
    } else {
        QualityPreset::Medium
    }
}

/// The job configuration for dialog settings: bit rates go from kilobits to
/// bits per second.
pub open spec fn job_config_of(c: ExportConfigView) -> JobConfigView {
    JobConfigView {
        format: c.format,
        codec: c.video_codec,
        resolution_width: c.width,
        resolution_height: c.height,
        frame_rate: c.frame_rate,
        bitrate: (c.video_bitrate * 1000) as u64,
        audio_codec: c.audio_codec,
        audio_bitrate: (c.audio_bitrate * 1000) as u64,
        output_path: c.output_path,
        quality_preset: preset_named(c.preset),
    }
}

fn same(a: &String, b: &str) -> (r: bool)
    ensures
        r == (a@ == b@),
{
    a.eq(&String::from_str(b))
}

fn preset_of(name: &String) -> (p: QualityPreset)
    ensures
        p == preset_named(name@),
{
    if same(name, "ultrafast") {
        QualityPreset::UltraFast
    } else if same(name, "fast") {
        QualityPreset::Fast
    } else if same(name, "slow") {
        QualityPreset::Slow
    } else if same(name, "veryslow") {
        QualityPreset::VerySlow
    } else {
        QualityPreset::Medium
    }
}

fn has_text(v: &Vec<String>, t: &String) -> (b: bool)
    ensures
        b == strings_view(v@).contains(t@),
{
    let mut i: usize = 0;
    while i < v.len()
        invariant
            i <= v.len(),
            forall|k: int| 0 <= k < i ==> strings_view(v@)[k] != t@,
        decreases v.len() - i,
    {
        if v[i].eq(t) {
            assert(strings_view(v@)[i as int] == t@);
            return true;
        }
        i = i + 1;
    }
    false
}

fn check_format(format: &String, video_codec: &String) -> (r: Result<(), String>)
    ensures
        r is Ok <==> format_problem(format@, video_codec@) is None,
        r matches Err(m) ==> Some(m@) == format_problem(format@, video_codec@),
{
    let formats = ExportState::get_export_formats();
    let ghost fv = views(formats@);
    let mut i: usize = 0;
    while i < formats.len()
        invariant
            i <= formats.len(),
            fv == views(formats@),
            fv == spec_export_formats(),
            forall|k: int| 0 <= k < i ==> !format_has_extension(format@)(#[trigger] fv[k]),
        decreases formats.len() - i,
    {
        assert(fv[i as int] == formats@[i as int]@);
        if formats[i].extension.eq(format) {
            proof {
                lemma_first(fv, format_has_extension(format@), i as int);
            }
            if has_text(&formats[i].codecs, video_codec) {
                return Ok(());
            } else {
                return Err(
                    cat(
                        cat3("video codec '", video_codec.as_str(), "' is not offered for format '").as_str(),
                        cat(format.as_str(), "'").as_str(),
                    ),
                );
            }
        }
        i = i + 1;
    }
    Err(cat3("format '", format.as_str(), "' is not offered"))
}

/// Starts an export job for the open project with the dialog's settings,
/// once they are checked; gives the job's id. Only one job may be active.
pub fn start_export(
    config: ExportConfig,
    export_state: &mut ExportState,
    project_state: &ProjectState,
    engine_state: &EngineState,
) -> (r: Result<String, ExportError>)
    ensures
        r is Ok <==> start_export_check(
            config@,
            old(export_state)@,
            project_state@.current is Some,
            engine_state@.is_initialized,
        ) is None,
        r matches Err(e) ==> Some(e@) == start_export_check(
            config@,
            old(export_state)@,
            project_state@.current is Some,
            engine_state@.is_initialized,
        ) && final(export_state)@ == old(export_state)@,
        r matches Ok(id) ==> exists|jid: u128| #[trigger] hyphenated(jid) == id@ && final(export_state)@
            == spec_create(old(export_state)@, jid, job_config_of(config@)),
{
    if is_blank(config.output_path.as_str()) {
        return Err(error_text("validation", "Output path must not be empty."));
    }
    if is_blank(config.format.as_str()) {
        return Err(error_text("validation", "Export format must not be empty."));
    }
    if is_blank(config.video_codec.as_str()) {
        return Err(error_text("validation", "Video codec must not be empty."));
    }
    if config.width == 0 || config.height == 0 {
        return Err(error_text("validation", "Output resolution must not be zero."));
    }
    if config.frame_rate <= 0 {
        return Err(error_text("validation", "Frame rate must be positive."));
    }
    if project_state.current_project.is_none() {
        return Err(error_text("no_active_project", "No active project. Open a project before exporting."));
    }
    if !engine_state.is_initialized {
        return Err(
            error_text(
                "engine_not_initialized",
                "The video engine has not been initialized. Call initialize_engine first.",
            ),
        );
    }
    match check_format(&config.format, &config.video_codec) {
        Ok(()) => {},
        Err(problem) => {
            return Err(error_of("invalid_config", cat("Unsupported export configuration: ", problem.as_str())));
        },
    }
    if export_state.get_active_jobs().len() > 0 {
        return Err(
            error_text(
                "job_already_active",
                "An export job is already running. Cancel it before starting a new one.",
            ),
        );
    }
    let job_config = JobConfig {
        format: config.format.clone(),
        codec: config.video_codec.clone(),
        resolution_width: config.width,
        resolution_height: config.height,
        frame_rate: config.frame_rate,
        bitrate: config.video_bitrate as u64 * 1000,
        audio_codec: config.audio_codec.clone(),
        audio_bitrate: config.audio_bitrate as u64 * 1000,
        output_path: config.output_path.clone(),
        quality_preset: preset_of(&config.preset),
    };
    assert(job_config@ == job_config_of(config@));
    let jid = export_state.create_job(job_config);
    let text = uuid_text(jid);
    assert(hyphenated(jid) == text@);
    Ok(text)
}

// ---------------------------------------------------------------------------
// get_export_progress, cancel_export
// ---------------------------------------------------------------------------

pub open spec fn phase_name(s: ExportStatus) -> Seq<char> {
    match s {
        ExportStatus::Pending => "pending"@,
        ExportStatus::Processing => "processing"@,
        ExportStatus::Completed => "completed"@,
        ExportStatus::Failed => "failed"@,
        ExportStatus::Cancelled => "cancelled"@,
    }
}

/// The progress report of job `j`, asked for under `job_id`.
pub open spec fn progress_of(job_id: Seq<char>, j: ExportJobView) -> ExportProgressView {
    ExportProgressView {
        job_id,
        phase: phase_name(j.status),
        progress: j.progress.percent,
        frames_processed: j.progress.current_frame,
        total_frames: j.progress.total_frames,
        estimated_time_remaining: j.progress.estimated_remaining_ms,
        current_speed_fps: j.progress.current_fps,
        output_file_size: 0,
        completed: j.status == ExportStatus::Completed || j.status == ExportStatus::Failed,
        cancelled: j.status == ExportStatus::Cancelled,
        error: if j.status == ExportStatus::Failed {
            Some("The export failed."@)
        } else {
            None
        },
    }
}

/// Why reporting the progress of `job_id` fails, if it does.
pub open spec fn progress_check(job_id: Seq<char>, v: ExportStateView) -> Option<ExportErrorView> {
    if blank(job_id) {
        Some(export_error("validation"@, "Job ID must not be empty."@))
    } else {
        match spec_uuid_parse(job_id) {
            Err(e) => Some(export_error("job_not_found"@, "Export job '"@ + job_id + "' not found: "@ + e)),
            Ok(id) => {
                if spec_get_job(v, id) is None {
                    Some(
                        export_error(
                            "job_not_found"@,
                            "Export job '"@ + job_id + "' not found: no job has this id."@,
                        ),
                    )
                } else {
                    None
                }
            },
        }
    }
}

fn phase_text(s: ExportStatus) -> (t: String)
    ensures
        t@ == phase_name(s),
{
    match s {
        ExportStatus::Pending => String::from_str("pending"),
        ExportStatus::Processing => String::from_str("processing"),
        ExportStatus::Completed => String::from_str("completed"),
        ExportStatus::Failed => String::from_str("failed"),
        ExportStatus::Cancelled => String::from_str("cancelled"),
    }
}

/// The progress of the export job `job_id`, active or retired.
pub fn get_export_progress(job_id: String, export_state: &ExportState) -> (r: Result<ExportProgress, ExportError>)
    ensures
        r is Ok <==> progress_check(job_id@, export_state@) is None,
        r matches Err(e) ==> Some(e@) == progress_check(job_id@, export_state@),
        r matches Ok(p) ==> p@ == progress_of(job_id@, spec_get_job(export_state@, spec_uuid_parse(job_id@)->Ok_0)->0),
{
    if is_blank(job_id.as_str()) {
        return Err(error_text("validation", "Job ID must not be empty."));
    }
    let id = match uuid_parse(job_id.as_str()) {
        Ok(v) => v,
        Err(e) => {
            return Err(error_of("job_not_found", cat3("Export job '", job_id.as_str(), "' not found: ").concat(e.as_str())));
        },
    };
    let job = match export_state.get_job(id) {
        Some(j) => j,
        None => {
            return Err(error_of("job_not_found", cat3("Export job '", job_id.as_str(), "' not found: no job has this id.")));
        },
    };
    let failed = match job.status {
        ExportStatus::Failed => true,
        _ => false,
    };
    let p = ExportProgress {
        job_id: job_id.clone(),
        phase: phase_text(job.status),
        progress: job.progress.percent,
        frames_processed: job.progress.current_frame,
        total_frames: job.progress.total_frames,
        estimated_time_remaining: job.progress.estimated_remaining_ms,
        current_speed_fps: job.progress.current_fps,
        output_file_size: 0,
        completed: match job.status {
            ExportStatus::Completed | ExportStatus::Failed => true,
            _ => false,
        },
        cancelled: match job.status {
            ExportStatus::Cancelled => true,
            _ => false,
        },
        error: if failed {
            Some(String::from_str("The export failed."))
        } else {
            None
        },
    };
    let ghost pv = p@;
    let r: Result<ExportProgress, ExportError> = Ok(p);
    assert(r->Ok_0@ == pv);
    r
}

/// Why cancelling `job_id` fails, if it does.
pub open spec fn cancel_check(job_id: Seq<char>, v: ExportStateView) -> Option<ExportErrorView> {
    if blank(job_id) {
        Some(export_error("validation"@, "Job ID must not be empty."@))
    } else {
        match spec_uuid_parse(job_id) {
            Err(e) => Some(export_error("cancel_failed"@, "Failed to cancel export job '"@ + job_id + "': "@ + e)),
            Ok(id) => {
                if !any(v.active, job_has_id(id)) {
                    Some(
                        export_error(
                            "cancel_failed"@,
                            "Failed to cancel export job '"@ + job_id + "': no active job has this id."@,
                        ),
                    )
                } else {
                    None
                }
            },
        }
    }
}

/// Cancels the active export job `job_id`.
pub fn cancel_export(job_id: String, export_state: &mut ExportState) -> (r: Result<bool, ExportError>)
    ensures
        r is Ok <==> cancel_check(job_id@, old(export_state)@) is None,
        r matches Ok(b) ==> b,
        r matches Err(e) ==> Some(e@) == cancel_check(job_id@, old(export_state)@)
            && final(export_state)@ == old(export_state)@,
        r is Ok ==> final(export_state)@ == spec_retire(
            old(export_state)@,
            spec_uuid_parse(job_id@)->Ok_0,
            ExportStatus::Cancelled,
            None,
        ).0,
{
    if is_blank(job_id.as_str()) {
        return Err(error_text("validation", "Job ID must not be empty."));
    }
    let id = match uuid_parse(job_id.as_str()) {
        Ok(v) => v,
        Err(e) => {
            return Err(error_of("cancel_failed", cat3("Failed to cancel export job '", job_id.as_str(), "': ").concat(e.as_str())));
        },
    };
    if export_state.cancel_job(id) {
        Ok(true)
    } else {
        Err(
            error_of(
                "cancel_failed",
                cat3("Failed to cancel export job '", job_id.as_str(), "': no active job has this id."),
            ),
        )
    }
}

// ---------------------------------------------------------------------------
// get_export_formats
// ---------------------------------------------------------------------------

/// "WIDTHxHEIGHT" of the first listed resolution ("" when none is listed).
pub open spec fn max_resolution_of(f: FormatEntryView) -> Seq<char> {
    if f.supported_resolutions.len() == 0 {
        Seq::empty()
    } else {
        decimal_nat(f.supported_resolutions[0].0 as nat) + "x"@ + decimal_nat(f.supported_resolutions[0].1 as nat)
    }
}

/// The menu entry of an export format; the formats name no audio codecs.
pub open spec fn menu_entry_of(f: FormatEntryView) -> ExportFormatView {
    ExportFormatView {
        format: f.extension,
        name: f.name,
        description: f.description,
        video_codecs: f.codecs,
        audio_codecs: Seq::empty(),
        max_resolution: max_resolution_of(f),
        extension: "."@ + f.extension,
    }
}

fn menu_entry(f: &FormatEntry) -> (e: ExportFormat)
    ensures
        e@ == menu_entry_of(f@),
{
    let max_resolution = if f.supported_resolutions.len() == 0 {
        String::new()
    } else {
        let (w, h) = f.supported_resolutions[0];
        cat3(nat_text(w as u128).as_str(), "x", nat_text(h as u128).as_str())
    };
    let video_codecs = copy_vec(&f.codecs);
    let e = ExportFormat {
        format: f.extension.clone(),
        name: f.name.clone(),
        description: f.description.clone(),
        video_codecs,
        audio_codecs: Vec::new(),
        max_resolution,
        extension: cat(".", f.extension.as_str()),
    };
    assert(strings_view(e.video_codecs@) =~= views(e.video_codecs@));
    assert(strings_view(f.codecs@) =~= views(f.codecs@));
    assert(e@.audio_codecs =~= Seq::empty());
    e
}

/// The export formats for the format menu; the engine must be initialized.
pub fn get_export_formats(engine_state: &EngineState) -> (r: Result<Vec<ExportFormat>, ExportError>)
    ensures
        r is Err <==> !engine_state@.is_initialized,
        r matches Err(e) ==> e@ == export_error("engine_not_initialized"@, "The video engine has not been initialized."@),
        r matches Ok(v) ==> v@.len() == spec_export_formats().len() && forall|k: int|
            0 <= k < v@.len() ==> (#[trigger] v@[k])@ == menu_entry_of(spec_export_formats()[k]),
{
    if !engine_state.is_initialized {
        return Err(error_text("engine_not_initialized", "The video engine has not been initialized."));
    }
    let formats = ExportState::get_export_formats();
    let ghost fv = views(formats@);
    let mut out: Vec<ExportFormat> = Vec::new();
    let mut i: usize = 0;
    while i < formats.len()
        invariant
            i <= formats.len(),
            fv == views(formats@),
            fv == spec_export_formats(),
            out@.len() == i,
            forall|k: int| 0 <= k < i ==> (#[trigger] out@[k])@ == menu_entry_of(fv[k]),
        decreases formats.len() - i,
    {
        let e = menu_entry(&formats[i]);
        assert(fv[i as int] == formats@[i as int]@);
        out.push(e);
        i = i + 1;
    }
    Ok(out)
}

/// A progress report says the job has completed exactly when it is in the
/// completed or the failed phase, says it was cancelled exactly when it is in
/// the cancelled phase, and carries an error exactly when it failed: a
/// finished job is reported as completed whichever way it ended.
pub proof fn law_progress_flags_follow_phase(job_id: Seq<char>, j: ExportJobView)
    ensures
        ({
            let r = progress_of(job_id, j);
            &&& r.completed <==> (r.phase == "completed"@ || r.phase == "failed"@)
            &&& r.cancelled <==> r.phase == "cancelled"@
            &&& r.error is Some <==> r.phase == "failed"@
            &&& (j.status == ExportStatus::Completed ==> r.completed && r.phase == "completed"@ && !r.cancelled)
            &&& (j.status == ExportStatus::Failed ==> r.completed && r.phase == "failed"@)
            &&& (j.status == ExportStatus::Pending || j.status == ExportStatus::Processing ==> !r.completed)
            &&& r.job_id == job_id
            &&& r.progress == j.progress.percent
        }),
{
    reveal_strlit("pending");
    reveal_strlit("processing");
    reveal_strlit("completed");
    reveal_strlit("failed");
    reveal_strlit("cancelled");
    assert("pending"@.len() != "completed"@.len() && "pending"@.len() != "failed"@.len()
        && "pending"@.len() != "cancelled"@.len());
    assert("processing"@.len() != "completed"@.len() && "processing"@.len() != "failed"@.len()
        && "processing"@.len() != "cancelled"@.len());
    assert("completed"@.len() != "failed"@.len() && "failed"@.len() != "cancelled"@.len());
    assert("completed"@[0] != "cancelled"@[0] || "completed"@[2] != "cancelled"@[2]);
}

/// Starting an export adds one pending job with no progress after the
/// jobs there were, under the new id, set up from the dialog: the same
/// format, video and audio codecs, resolution, frame rate and output file,
/// the bit rates taken from kilobits to bits per second, and the preset the
/// preset name stands for (medium for a name it does not know).
pub proof fn law_started_job_follows_dialog(c: ExportConfigView, v: ExportStateView, jid: u128)
    ensures
        ({
            let v2 = spec_create(v, jid, job_config_of(c));
            let j = v2.active[v.active.len() as int];
            &&& v2.active.len() == v.active.len() + 1
            &&& v2.active.take(v.active.len() as int) == v.active
            &&& v2.completed == v.completed
            &&& j.id == jid
            &&& j.status == ExportStatus::Pending
            &&& j.progress.percent == 0 && j.progress.current_frame == 0
            &&& j.config.format == c.format
            &&& j.config.codec == c.video_codec
            &&& j.config.audio_codec == c.audio_codec
            &&& j.config.resolution_width == c.width
            &&& j.config.resolution_height == c.height
            &&& j.config.frame_rate == c.frame_rate
            &&& j.config.output_path == c.output_path
            &&& j.config.bitrate == c.video_bitrate * 1000
            &&& j.config.audio_bitrate == c.audio_bitrate * 1000
            &&& (c.preset == "ultrafast"@ ==> j.config.quality_preset == QualityPreset::UltraFast)
            &&& (c.preset == "fast"@ ==> j.config.quality_preset == QualityPreset::Fast)
            &&& (c.preset == "medium"@ ==> j.config.quality_preset == QualityPreset::Medium)
            &&& (c.preset == "slow"@ ==> j.config.quality_preset == QualityPreset::Slow)
            &&& (c.preset == "veryslow"@ ==> j.config.quality_preset == QualityPreset::VerySlow)
        }),
{
    reveal_strlit("ultrafast");
    reveal_strlit("fast");
    reveal_strlit("medium");
    reveal_strlit("slow");
    reveal_strlit("veryslow");
    assert("fast"@ != "ultrafast"@) by { assert("fast"@.len() != "ultrafast"@.len()); }
    assert("slow"@ != "ultrafast"@) by { assert("slow"@.len() != "ultrafast"@.len()); }
    assert("slow"@ != "fast"@) by { assert("slow"@[0] != "fast"@[0]); }
    assert("veryslow"@ != "ultrafast"@) by { assert("veryslow"@.len() != "ultrafast"@.len()); }
    assert("veryslow"@ != "fast"@) by { assert("veryslow"@.len() != "fast"@.len()); }
    assert("veryslow"@ != "slow"@) by { assert("veryslow"@.len() != "slow"@.len()); }
    assert("medium"@ != "ultrafast"@) by { assert("medium"@.len() != "ultrafast"@.len()); }
    assert("medium"@ != "fast"@) by { assert("medium"@.len() != "fast"@.len()); }
    assert("medium"@ != "slow"@) by { assert("medium"@.len() != "slow"@.len()); }
    assert("medium"@ != "veryslow"@) by { assert("medium"@.len() != "veryslow"@.len()); }
    let v2 = spec_create(v, jid, job_config_of(c));
    assert(v2.active.take(v.active.len() as int) =~= v.active);
    assert(c.video_bitrate * 1000 <= u64::MAX);
    assert(c.audio_bitrate * 1000 <= u64::MAX);
}

/// Whether every size in `sizes` fits within the first one.
pub open spec fn first_is_largest(sizes: Seq<(u32, u32)>) -> bool {
    forall|i: int| 0 <= i < sizes.len() ==> (#[trigger] sizes[i]).0 <= sizes[0].0 && sizes[i].1 <= sizes[0].1
}

/// The export menu offers, in order, MP4, MKV, MOV, WebM, GIF, AVI and
/// MPEG-TS, each under its extension with a dot in front; the maximum
/// resolution it gives for a format is a size the format supports, and no
/// supported size is wider or taller.
pub proof fn law_export_menu(k: int)
    requires
        0 <= k < spec_export_formats().len(),
    ensures
        spec_export_formats().len() == 7,
        spec_export_formats()[0].extension == "mp4"@,
        spec_export_formats()[1].extension == "mkv"@,
        spec_export_formats()[2].extension == "mov"@,
        spec_export_formats()[3].extension == "webm"@,
        spec_export_formats()[4].extension == "gif"@,
        spec_export_formats()[5].extension == "avi"@,
        spec_export_formats()[6].extension == "ts"@,
        ({
            let f = spec_export_formats()[k];
            let m = menu_entry_of(f);
            &&& m.format == f.extension
            &&& m.extension == "."@ + f.extension
            &&& m.video_codecs == f.codecs
            &&& f.supported_resolutions.len() > 0
            &&& first_is_largest(f.supported_resolutions)
            &&& m.max_resolution == decimal_nat(f.supported_resolutions[0].0 as nat) + "x"@ + decimal_nat(
                f.supported_resolutions[0].1 as nat,
            )
        }),
{
    let fs = spec_export_formats();
    if k == 0 {
        assert(fs[k] == crate::export::mp4_format_view());
    } else if k == 1 {
        assert(fs[k] == crate::export::mkv_format_view());
    } else if k == 2 {
        assert(fs[k] == crate::export::mov_format_view());
    } else if k == 3 {
        assert(fs[k] == crate::export::webm_format_view());
    } else if k == 4 {
        assert(fs[k] == crate::export::gif_format_view());
    } else if k == 5 {
        assert(fs[k] == crate::export::avi_format_view());
    } else if k == 6 {
        assert(fs[k] == crate::export::ts_format_view());
    }
}

/// Once an active export job is finished, its progress report says so:
/// completed successfully gives the "completed" phase, marked completed and
/// not cancelled, with the final progress; a failure gives the "failed"
/// phase, marked completed, with an error; a cancellation gives the
/// "cancelled" phase, marked cancelled and not completed.
pub proof fn law_finished_job_reports(
    v: ExportStateView,
    id: u128,
    job_id: Seq<char>,
    final_progress: crate::export::ExportProgress,
)
    requires
        any(v.active, job_has_id(id)),
        crate::export::at_most_one(v.active, id),
        !any(v.completed, job_has_id(id)),
    ensures
        ({
            let done = spec_retire(v, id, ExportStatus::Completed, Some(final_progress)).0;
            let r = progress_of(job_id, spec_get_job(done, id)->0);
            &&& spec_get_job(done, id) is Some
            &&& r.phase == "completed"@ && r.completed && !r.cancelled && r.error is None
            &&& r.progress == final_progress.percent
        }),
        ({
            let failed = spec_retire(v, id, ExportStatus::Failed, None).0;
            let r = progress_of(job_id, spec_get_job(failed, id)->0);
            &&& spec_get_job(failed, id) is Some
            &&& r.phase == "failed"@ && r.completed && !r.cancelled && r.error is Some
        }),
        ({
            let cancelled = spec_retire(v, id, ExportStatus::Cancelled, None).0;
            let r = progress_of(job_id, spec_get_job(cancelled, id)->0);
            &&& spec_get_job(cancelled, id) is Some
            &&& r.phase == "cancelled"@ && r.cancelled && !r.completed && r.error is None
        }),
{
    crate::export::law_retired_job_stays_retired(v, id, ExportStatus::Completed, Some(final_progress));
    crate::export::law_retired_job_stays_retired(v, id, ExportStatus::Failed, None);
    crate::export::law_retired_job_stays_retired(v, id, ExportStatus::Cancelled, None);
    let i = choose|i: int| 0 <= i < v.active.len() && job_has_id(id)(#[trigger] v.active[i]);
    crate::search::lemma_exists_first(v.active, job_has_id(id), i);
}

} // verus!
