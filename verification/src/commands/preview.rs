//! Preview commands: render a frame, describe a media item for the viewer
//! and move the playback cursor.

use vstd::prelude::*;

use crate::deep_copy::views;
use crate::engine::EngineState;
use crate::ids::{spec_uuid_parse, uuid_parse};
use crate::project::{MediaItem, MediaItemView, ProjectState, ProjectStateView};
use crate::search::{any, first, is_first, lemma_first};
use crate::text::{blank, cat, cat3, decimal_nat, is_blank, nat_text, seconds, seconds_text};
use crate::utils::strings_view;
use vstd::string::StringExecFns;

verus! {

/// What the viewer needs to know of a media item.
pub struct PreviewInfo {
    pub media_id: String,
    pub width: u32,
    pub height: u32,
    /// Width over height in thousandths, rounded down (1777 when the height
    /// is 0, for 16:9).
    pub aspect_ratio: i64,
    /// Frames per second, in thousandths.
    pub frame_rate: i64,
    /// Length in microseconds.
    pub duration: i64,
    pub total_frames: u64,
    pub available_resolutions: Vec<String>,
    pub supports_scrubbing: bool,
    pub codec: String,
}

pub struct PreviewInfoView {
    pub media_id: Seq<char>,
    pub width: u32,
    pub height: u32,
    pub aspect_ratio: i64,
    pub frame_rate: i64,
    pub duration: i64,
    pub total_frames: u64,
    pub available_resolutions: Seq<Seq<char>>,
    pub supports_scrubbing: bool,
    pub codec: Seq<char>,
}

impl View for PreviewInfo {
    type V = PreviewInfoView;

    open spec fn view(&self) -> PreviewInfoView {
        PreviewInfoView {
            media_id: self.media_id@,
            width: self.width,
            height: self.height,
            aspect_ratio: self.aspect_ratio,
            frame_rate: self.frame_rate,
            duration: self.duration,
            total_frames: self.total_frames,
            available_resolutions: strings_view(self.available_resolutions@),
            supports_scrubbing: self.supports_scrubbing,
            codec: self.codec@,
        }
    }
}

/// Why a preview command failed: a category and a message.
pub struct PreviewError {
    pub kind: String,
    pub message: String,
}

pub struct PreviewErrorView {
    pub kind: Seq<char>,
    pub message: Seq<char>,
}

impl View for PreviewError {
    type V = PreviewErrorView;

    open spec fn view(&self) -> PreviewErrorView {
        PreviewErrorView { kind: self.kind@, message: self.message@ }
    }
}

pub open spec fn preview_error(kind: Seq<char>, message: Seq<char>) -> PreviewErrorView {
    PreviewErrorView { kind, message }
}

fn error_of(kind: &str, message: String) -> (e: PreviewError)
    ensures
        e@ == preview_error(kind@, message@),
{
    PreviewError { kind: String::from_str(kind), message }
}

fn error_text(kind: &str, message: &str) -> (e: PreviewError)
    ensures
        e@ == preview_error(kind@, message@),
{
    error_of(kind, String::from_str(message))
}

/// A transparent 1x1 PNG, base64-encoded: the frame shown until a renderer
/// is attached.
pub const PLACEHOLDER_FRAME: &'static str =
    "iVBORw0KGgoAAAANSUhEUgAAAAEAAAABCAYAAAAfFcSJAAAADUlEQVR42mNkYPj/HwAFcAJN2e0zAAAAAElFTkSuQmCC";

/// Why positioning the preview at `timestamp` (microseconds) fails, if it
/// does. `not_ready`, `no_project` and `what` are the wordings of the
/// command that asks.
pub open spec fn timestamp_check(
    timestamp: i64,
    initialized: bool,
    s: ProjectStateView,
    not_ready: Seq<char>,
    no_project: Seq<char>,
    what: Seq<char>,
) -> Option<PreviewErrorView> {
    if timestamp < 0 {
        Some(preview_error("validation"@, "Timestamp must not be negative."@))
    } else if !initialized {
        Some(preview_error("engine_not_initialized"@, not_ready))
    } else if s.current is None {
        Some(preview_error("no_active_project"@, no_project))
    } else {
        let d = s.current->0.timeline.duration;
        if d > 0 && timestamp > d {
            Some(
                preview_error(
                    "validation"@,
                    what + " "@ + seconds(timestamp as nat) + "s exceeds timeline duration "@ + seconds(
                        d as nat,
                    ) + "s."@,
                ),
            )
        } else {
            None
        }
    }
}

fn check_timestamp(
    timestamp: i64,
    engine_state: &EngineState,
    project_state: &ProjectState,
    not_ready: &str,
    no_project: &str,
    what: &str,
) -> (r: Result<(), PreviewError>)
    ensures
        r is Ok <==> timestamp_check(timestamp, engine_state@.is_initialized, project_state@, not_ready@, no_project@, what@) is None,
        r matches Err(e) ==> Some(e@) == timestamp_check(timestamp, engine_state@.is_initialized, project_state@, not_ready@, no_project@, what@),
{
    if timestamp < 0 {
        return Err(error_text("validation", "Timestamp must not be negative."));
    }
    if !engine_state.is_initialized {
        return Err(error_text("engine_not_initialized", not_ready));
    }
    let d = match &project_state.current_project {
        Some(p) => p.timeline.duration,
        None => {
            return Err(error_text("no_active_project", no_project));
        },
    };
    if d > 0 && timestamp > d {
        let message = cat(
            cat3(what, " ", seconds_text(timestamp as u64).as_str()).as_str(),
            cat3("s exceeds timeline duration ", seconds_text(d as u64).as_str(), "s.").as_str(),
        );
        assert(message@ =~= what@ + " "@ + seconds(timestamp as nat) + "s exceeds timeline duration "@
            + seconds(d as nat) + "s."@);
        return Err(error_of("validation", message));
    }
    Ok(())
}

/// Renders the frame of the timeline at `timestamp` microseconds, as a
/// base64-encoded PNG. No renderer is attached, so a transparent 1x1 frame
/// is given.
pub fn render_preview_frame(timestamp: i64, engine_state: &EngineState, project_state: &ProjectState) -> (r:
    Result<String, PreviewError>)
    ensures
        r is Ok <==> timestamp_check(
            timestamp,
            engine_state@.is_initialized,
            project_state@,
            "The video engine has not been initialized. Call initialize_engine first."@,
            "No active project. Open a project before rendering previews."@,
            "Timestamp"@,
        ) is None,
        r matches Ok(frame) ==> frame@ == PLACEHOLDER_FRAME@,
        r matches Err(e) ==> Some(e@) == timestamp_check(
            timestamp,
            engine_state@.is_initialized,
            project_state@,
            "The video engine has not been initialized. Call initialize_engine first."@,
            "No active project. Open a project before rendering previews."@,
            "Timestamp"@,
        ),
{
    match check_timestamp(
        timestamp,
        engine_state,
        project_state,
        "The video engine has not been initialized. Call initialize_engine first.",
        "No active project. Open a project before rendering previews.",
        "Timestamp",
    ) {
        Ok(()) => Ok(String::from_str(PLACEHOLDER_FRAME)),
        Err(e) => Err(e),
    }
}

/// Moves the playback cursor to `timestamp` microseconds. No decoder is
/// attached, so only the checks are made.
pub fn seek_preview(timestamp: i64, engine_state: &EngineState, project_state: &ProjectState) -> (r: Result<
    bool,
    PreviewError,
>)
    ensures
        r is Ok <==> timestamp_check(
            timestamp,
            engine_state@.is_initialized,
            project_state@,
            "The video engine has not been initialized."@,
            "No active project."@,
            "Seek timestamp"@,
        ) is None,
        r matches Ok(b) ==> b,
        r matches Err(e) ==> Some(e@) == timestamp_check(
            timestamp,
            engine_state@.is_initialized,
            project_state@,
            "The video engine has not been initialized."@,
            "No active project."@,
            "Seek timestamp"@,
        ),
{
    match check_timestamp(
        timestamp,
        engine_state,
        project_state,
        "The video engine has not been initialized.",
        "No active project.",
        "Seek timestamp",
    ) {
        Ok(()) => Ok(true),
        Err(e) => Err(e),
    }
}

pub open spec fn media_has_id(id: u128) -> spec_fn(MediaItemView) -> bool {
    |m: MediaItemView| m.id == id
}

/// Why describing the media item `media_id` fails, if it does.
pub open spec fn preview_info_check(media_id: Seq<char>, initialized: bool, s: ProjectStateView) -> Option<
    PreviewErrorView,
> {
    if blank(media_id) {
        Some(preview_error("validation"@, "Media ID must not be empty."@))
    } else if !initialized {
        Some(preview_error("engine_not_initialized"@, "The video engine has not been initialized."@))
    } else if s.current is None {
        Some(preview_error("no_active_project"@, "No active project."@))
    } else {
        match spec_uuid_parse(media_id) {
            Err(e) => Some(preview_error("invalid_media_id"@, "Invalid media ID format: "@ + e)),
            Ok(id) => {
                if !any(s.current->0.media_pool, media_has_id(id)) {
                    Some(preview_error("media_not_found"@, "Media item '"@ + media_id + "' not found."@))
                } else {
                    None
                }
            },
        }
    }
}

/// `x / y` rounded toward zero.
pub open spec fn toward_zero(x: int, y: int) -> int {
    if x >= 0 {
        x / y
    } else {
        -((-x) / y)
    }
}

/// The frames in `duration` microseconds at `frame_rate` thousandths of a
/// frame per second, rounded toward zero and held to `0..=u64::MAX`; 0 when
/// the frame rate is not positive.
pub open spec fn frame_count(duration: i64, frame_rate: i64) -> u64 {
    if frame_rate <= 0 {
        0
    } else {
        let q = toward_zero(duration * frame_rate, 1_000_000_000);
        if q < 0 {
            0
        } else if q > u64::MAX {
            u64::MAX
        } else {
            q as u64
        }
    }
}

/// Width over height in thousandths, rounded down; 16:9 when the height is 0.
pub open spec fn aspect_of(width: u32, height: u32) -> i64 {
    if height > 0 {
        ((width as int * 1000) / (height as int)) as i64
    } else {
        1777
    }
}

/// "WIDTHxHEIGHT".
pub open spec fn size_text(width: u32, height: u32) -> Seq<char> {
    decimal_nat(width as nat) + "x"@ + decimal_nat(height as nat)
}

/// The viewer's description of `m`, asked for under `media_id`.
pub open spec fn preview_info_of(media_id: Seq<char>, m: MediaItemView) -> PreviewInfoView {
    PreviewInfoView {
        media_id,
        width: m.width,
        height: m.height,
        aspect_ratio: aspect_of(m.width, m.height),
        frame_rate: m.frame_rate,
        duration: m.duration,
        total_frames: frame_count(m.duration, m.frame_rate),
        available_resolutions: seq![size_text(m.width, m.height), "1280x720"@, "640x360"@],
        supports_scrubbing: true,
        codec: m.codec,
    }
}

/// The frames in `duration` microseconds at `frame_rate` thousandths.
pub fn frames_in(duration: i64, frame_rate: i64) -> (n: u64)
    ensures
        n == frame_count(duration, frame_rate),
{
    if frame_rate <= 0 {
        return 0;
    }
    let d = duration as i128;
    let f = frame_rate as i128;
    assert(-0x4000_0000_0000_0000_0000_0000_0000_0000int <= d * f <= 0x4000_0000_0000_0000_0000_0000_0000_0000int) by (nonlinear_arith)
        requires
            -0x8000_0000_0000_0000int <= d <= 0x7fff_ffff_ffff_ffffint,
            0 < f <= 0x7fff_ffff_ffff_ffffint,
    ;
    let q = (d * f) / 1_000_000_000;
    assert(q == toward_zero((d * f) as int, 1_000_000_000));
    if q < 0 {
        0
    } else if q > u64::MAX as i128 {
        u64::MAX
    } else {
        q as u64
    }
}

fn find_media(pool: &Vec<MediaItem>, id: u128) -> (r: Option<usize>)
    ensures
        r matches Some(i) ==> is_first(views(pool@), media_has_id(id), i as int),
        r is None ==> !any(views(pool@), media_has_id(id)),
{
    let mut i: usize = 0;
    while i < pool.len()
        invariant
            i <= pool.len(),
            forall|j: int| 0 <= j < i ==> !media_has_id(id)(#[trigger] views(pool@)[j]),
        decreases pool.len() - i,
    {
        if pool[i].id == id {
            return Some(i);
        }
        i = i + 1;
    }
    None
}

/// Describes the media item `media_id` of the open project for the viewer.
pub fn get_preview_info(media_id: String, engine_state: &EngineState, project_state: &ProjectState) -> (r:
    Result<PreviewInfo, PreviewError>)
    ensures
        r is Ok <==> preview_info_check(media_id@, engine_state@.is_initialized, project_state@) is None,
        r matches Err(e) ==> Some(e@) == preview_info_check(media_id@, engine_state@.is_initialized, project_state@),
        r matches Ok(info) ==> {
            let pool = project_state@.current->0.media_pool;
            info@ == preview_info_of(media_id@, pool[first(pool, media_has_id(parsed_media_id(media_id@)))])
        },
{
    if is_blank(media_id.as_str()) {
        return Err(error_text("validation", "Media ID must not be empty."));
    }
    if !engine_state.is_initialized {
        return Err(error_text("engine_not_initialized", "The video engine has not been initialized."));
    }
    let project = match &project_state.current_project {
        Some(p) => p,
        None => {
            return Err(error_text("no_active_project", "No active project."));
        },
    };
    let id = match uuid_parse(media_id.as_str()) {
        Ok(v) => v,
        Err(e) => {
            return Err(error_of("invalid_media_id", cat("Invalid media ID format: ", e.as_str())));
        },
    };
    let i = match find_media(&project.media_pool, id) {
        Some(i) => i,
        None => {
            return Err(error_of("media_not_found", cat3("Media item '", media_id.as_str(), "' not found.")));
        },
    };
    proof {
        lemma_first(views(project.media_pool@), media_has_id(id), i as int);
    }
    let m = &project.media_pool[i];
    let aspect: i64 = if m.height > 0 {
        ((m.width as u64 * 1000) / (m.height as u64)) as i64
    } else {
        1777
    };
    let mut sizes: Vec<String> = Vec::new();
    sizes.push(cat3(nat_text(m.width as u128).as_str(), "x", nat_text(m.height as u128).as_str()));
    sizes.push(String::from_str("1280x720"));
    sizes.push(String::from_str("640x360"));
    let info = PreviewInfo {
        media_id: media_id.clone(),
        width: m.width,
        height: m.height,
        aspect_ratio: aspect,
        frame_rate: m.frame_rate,
        duration: m.duration,
        total_frames: frames_in(m.duration, m.frame_rate),
        available_resolutions: sizes,
        supports_scrubbing: true,
        codec: m.codec.clone(),
    };
    assert(info@.available_resolutions =~= seq![size_text(m.width, m.height), "1280x720"@, "640x360"@]);
    assert(info@ == preview_info_of(media_id@, views(project.media_pool@)[i as int]));
    let ghost iv = info@;
    let r: Result<PreviewInfo, PreviewError> = Ok(info);
    assert(r->Ok_0@ == iv);
    r
}

/// The UUID that a media id text parses to.
pub open spec fn parsed_media_id(s: Seq<char>) -> u128 {
    spec_uuid_parse(s)->Ok_0
}

/// The frame count of `duration` microseconds at `frame_rate` thousandths
/// of a frame per second is the number of whole frames that fit: `n`
/// frames take no longer than the duration and `n + 1` would take longer
/// (for a non-negative duration, a positive rate and a count within
/// `u64`); no time or no rate gives no frames.
pub proof fn law_frame_count_is_whole_frames(duration: i64, frame_rate: i64)
    ensures
        frame_rate <= 0 ==> frame_count(duration, frame_rate) == 0,
        duration <= 0 ==> frame_count(duration, frame_rate) == 0,
        duration >= 0 && frame_rate > 0 && duration * frame_rate / 1_000_000_000 <= u64::MAX ==> {
            let n = frame_count(duration, frame_rate) as int;
            &&& n * 1_000_000_000 <= duration * frame_rate
            &&& duration * frame_rate < (n + 1) * 1_000_000_000
        },
{
    if frame_rate > 0 {
        let x = duration as int * frame_rate as int;
        if duration <= 0 {
            assert(x <= 0) by (nonlinear_arith)
                requires
                    duration <= 0,
                    frame_rate > 0,
                    x == duration as int * frame_rate as int,
            ;
        }
        if duration >= 0 {
            assert(x >= 0) by (nonlinear_arith)
                requires
                    duration >= 0,
                    frame_rate > 0,
                    x == duration as int * frame_rate as int,
            ;
        }
    }
}

/// The aspect ratio of a picture with a height is its width over its
/// height in thousandths, rounded down; without a height it is 16:9.
pub proof fn law_aspect_ratio(width: u32, height: u32)
    ensures
        height > 0 ==> {
            let a = aspect_of(width, height) as int;
            &&& a * height <= width * 1000
            &&& width * 1000 < (a + 1) * height
        },
        height == 0 ==> aspect_of(width, height) == 1777,
{
    if height > 0 {
        let q = (width as int * 1000) / (height as int);
        assert(q * height <= width * 1000 < (q + 1) * height) by (nonlinear_arith)
            requires
                height > 0,
                q == (width as int * 1000) / (height as int),
        ;
        assert(0 <= q <= 4_294_967_295_000) by (nonlinear_arith)
            requires
                height > 0,
                q == (width as int * 1000) / (height as int),
                width <= 4_294_967_295,
        ;
    }
}

/// The viewer's description of a media item gives the item's own size,
/// rate, length and codec, its size as the first resolution on offer, and
/// its frame count.
pub proof fn law_preview_describes_item(media_id: Seq<char>, m: MediaItemView)
    ensures
        ({
            let i = preview_info_of(media_id, m);
            &&& i.media_id == media_id
            &&& i.width == m.width && i.height == m.height
            &&& i.frame_rate == m.frame_rate && i.duration == m.duration
            &&& i.codec == m.codec
            &&& i.available_resolutions.len() == 3
            &&& i.available_resolutions[0] == decimal_nat(m.width as nat) + "x"@ + decimal_nat(m.height as nat)
            &&& i.total_frames == frame_count(m.duration, m.frame_rate)
        }),
{
}

/// A preview position is accepted exactly when it is not negative, the
/// engine is ready, a project is open, and the position lies within the
/// timeline (its end included); an empty timeline accepts any position.
pub proof fn law_timestamp_accepted_within_timeline(
    timestamp: i64,
    initialized: bool,
    s: ProjectStateView,
    not_ready: Seq<char>,
    no_project: Seq<char>,
    what: Seq<char>,
)
    ensures
        timestamp_check(timestamp, initialized, s, not_ready, no_project, what) is None <==> {
            &&& 0 <= timestamp
            &&& initialized
            &&& s.current is Some
            &&& (s.current->0.timeline.duration <= 0 || timestamp <= s.current->0.timeline.duration)
        },
{
}

} // verus!
