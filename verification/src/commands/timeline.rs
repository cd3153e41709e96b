//! Timeline editing commands: clips, tracks and transitions.

use vstd::prelude::*;

use crate::deep_copy::{lemma_views_push, views, DeepCopy};
use crate::ids::{hyphenated, now_millis, spec_uuid_parse, uuid_new_v4, uuid_parse, uuid_text};
use crate::json::{int_member, json_object, str_member, Json, JsonValue};
use crate::project::{
    info_of, spec_recent_after_update, Clip, ClipTransition, ClipTransitionView, ClipView, Project, ProjectState,
    ProjectStateView,
    ProjectView, Track, TrackType, TrackView,
};
use crate::search::{any, first, is_first, lemma_exists_first, lemma_first};
use crate::text::{blank, cat, cat3, is_blank};
use crate::utils::{record_edit, spec_push, with_change, ActionRecord, ActionRecordView, UndoManager, UndoView};
use vstd::string::StringExecFns;
use vstd::pervasive::VecAdditionalExecFns;

verus! {

/// A clip as the timeline view shows it.
pub struct ClipInfo {
    pub id: String,
    pub track_id: String,
    pub media_id: String,
    pub start_time: i64,
    pub duration: i64,
    pub in_point: i64,
    pub out_point: i64,
    pub label: Option<String>,
    pub locked: bool,
    pub muted: bool,
    /// Volume in thousandths.
    pub volume: i64,
    /// Opacity in thousandths.
    pub opacity: i64,
}

pub struct ClipInfoView {
    pub id: Seq<char>,
    pub track_id: Seq<char>,
    pub media_id: Seq<char>,
    pub start_time: i64,
    pub duration: i64,
    pub in_point: i64,
    pub out_point: i64,
    pub label: Option<Seq<char>>,
    pub locked: bool,
    pub muted: bool,
    pub volume: i64,
    pub opacity: i64,
}

impl View for ClipInfo {
    type V = ClipInfoView;

    open spec fn view(&self) -> ClipInfoView {
        ClipInfoView {
            id: self.id@,
            track_id: self.track_id@,
            media_id: self.media_id@,
            start_time: self.start_time,
            duration: self.duration,
            in_point: self.in_point,
            out_point: self.out_point,
            label: crate::project::opt_string_view(self.label),
            locked: self.locked,
            muted: self.muted,
            volume: self.volume,
            opacity: self.opacity,
        }
    }
}

/// A track as the timeline view shows it.
pub struct TrackInfo {
    pub id: String,
    /// "video", "audio" or "text".
    pub track_type: String,
    pub name: String,
    pub locked: bool,
    pub visible: bool,
    /// Volume in thousandths.
    pub volume: i64,
    /// Opacity in thousandths.
    pub opacity: i64,
    pub order: u32,
    pub clip_count: usize,
}

pub struct TrackInfoView {
    pub id: Seq<char>,
    pub track_type: Seq<char>,
    pub name: Seq<char>,
    pub locked: bool,
    pub visible: bool,
    pub volume: i64,
    pub opacity: i64,
    pub order: u32,
    pub clip_count: usize,
}

impl View for TrackInfo {
    type V = TrackInfoView;

    open spec fn view(&self) -> TrackInfoView {
        TrackInfoView {
            id: self.id@,
            track_type: self.track_type@,
            name: self.name@,
            locked: self.locked,
            visible: self.visible,
            volume: self.volume,
            opacity: self.opacity,
            order: self.order,
            clip_count: self.clip_count,
        }
    }
}

/// A transition between two clips.
pub struct TransitionInfo {
    pub id: String,
    pub from_clip_id: String,
    pub to_clip_id: String,
    pub transition_type: String,
    /// Overlap in microseconds.
    pub duration: i64,
}

pub struct TransitionInfoView {
    pub id: Seq<char>,
    pub from_clip_id: Seq<char>,
    pub to_clip_id: Seq<char>,
    pub transition_type: Seq<char>,
    pub duration: i64,
}

impl View for TransitionInfo {
    type V = TransitionInfoView;

    open spec fn view(&self) -> TransitionInfoView {
        TransitionInfoView {
            id: self.id@,
            from_clip_id: self.from_clip_id@,
            to_clip_id: self.to_clip_id@,
            transition_type: self.transition_type@,
            duration: self.duration,
        }
    }
}

/// The whole timeline as the timeline view shows it.
pub struct TimelineState {
    pub tracks: Vec<TrackInfo>,
    pub clips: Vec<ClipInfo>,
    pub transitions: Vec<TransitionInfo>,
    pub duration: i64,
    pub cursor_position: i64,
}

/// Why a timeline command failed: a category and a message.
pub struct TimelineError {
    pub kind: String,
    pub message: String,
}

pub struct ErrorView {
    pub kind: Seq<char>,
    pub message: Seq<char>,
}

impl View for TimelineError {
    type V = ErrorView;

    open spec fn view(&self) -> ErrorView {
        ErrorView { kind: self.kind@, message: self.message@ }
    }
}

pub open spec fn error_view(kind: Seq<char>, message: Seq<char>) -> ErrorView {
    ErrorView { kind, message }
}

fn timeline_error(kind: &str, message: String) -> (e: TimelineError)
    ensures
        e@ == error_view(kind@, message@),
{
    TimelineError { kind: String::from_str(kind), message }
}

fn error_text(kind: &str, message: &str) -> (e: TimelineError)
    ensures
        e@ == error_view(kind@, message@),
{
    timeline_error(kind, String::from_str(message))
}

// ---------------------------------------------------------------------------
// Views of clips and tracks, and the timeline length
// ---------------------------------------------------------------------------

/// `x` held to the range of `i64`.
pub open spec fn clamp64(x: int) -> i64 {
    if x > i64::MAX {
        i64::MAX
    } else if x < i64::MIN {
        i64::MIN
    } else {
        x as i64
    }
}

/// The largest end (`start_time + duration`) of the clips, and 0 when that
/// is larger.
pub open spec fn clips_end(clips: Seq<ClipView>) -> int
    decreases clips.len(),
{
    if clips.len() == 0 {
        0
    } else {
        let e = clips.last().start_time + clips.last().duration;
        let m = clips_end(clips.drop_last());
        if e > m {
            e
        } else {
            m
        }
    }
}

/// The largest clip end over all tracks, and 0 when that is larger.
pub open spec fn tracks_end(tracks: Seq<TrackView>) -> int
    decreases tracks.len(),
{
    if tracks.len() == 0 {
        0
    } else {
        let e = clips_end(tracks.last().clips);
        let m = tracks_end(tracks.drop_last());
        if e > m {
            e
        } else {
            m
        }
    }
}

/// `p` with its timeline length recomputed from its clips.
pub open spec fn with_recalculated_duration(p: ProjectView) -> ProjectView {
    ProjectView {
        timeline: crate::project::TimelineView {
            duration: clamp64(tracks_end(p.timeline.tracks)),
            ..p.timeline
        },
        ..p
    }
}

/// The view of a clip in the timeline state.
pub open spec fn clip_info_of(c: ClipView) -> ClipInfoView {
    ClipInfoView {
        id: hyphenated(c.id),
        track_id: c.track_id,
        media_id: c.media_id,
        start_time: c.start_time,
        duration: c.duration,
        in_point: c.in_point,
        out_point: c.out_point,
        label: None,
        locked: false,
        muted: false,
        volume: 1000,
        opacity: 1000,
    }
}

/// The name of a track type.
pub open spec fn track_type_name(t: TrackType) -> Seq<char> {
    match t {
        TrackType::Video => "video"@,
        TrackType::Audio => "audio"@,
        TrackType::Text => "text"@,
    }
}

/// The view of a track in the timeline state, at position `order`.
pub open spec fn track_info_of(t: TrackView, order: u32) -> TrackInfoView {
    TrackInfoView {
        id: hyphenated(t.id),
        track_type: track_type_name(t.track_type),
        name: t.name,
        locked: t.locked,
        visible: t.visible,
        volume: t.volume,
        opacity: 1000,
        order,
        clip_count: t.clips.len() as usize,
    }
}

fn clip_to_info(c: &Clip) -> (info: ClipInfo)
    ensures
        info@ == clip_info_of(c@),
{
    ClipInfo {
        id: uuid_text(c.id),
        track_id: c.track_id.clone(),
        media_id: c.media_id.clone(),
        start_time: c.start_time,
        duration: c.duration,
        in_point: c.in_point,
        out_point: c.out_point,
        label: None,
        locked: false,
        muted: false,
        volume: 1000,
        opacity: 1000,
    }
}

fn track_type_text(t: TrackType) -> (s: String)
    ensures
        s@ == track_type_name(t),
{
    match t {
        TrackType::Video => String::from_str("video"),
        TrackType::Audio => String::from_str("audio"),
        TrackType::Text => String::from_str("text"),
    }
}

fn track_to_info(t: &Track, order: u32) -> (info: TrackInfo)
    ensures
        info@ == track_info_of(t@, order),
{
    TrackInfo {
        id: uuid_text(t.id),
        track_type: track_type_text(t.track_type),
        name: t.name.clone(),
        locked: t.locked,
        visible: t.visible,
        volume: t.volume,
        opacity: 1000,
        order,
        clip_count: t.clips.len(),
    }
}

fn end_of_clips(clips: &Vec<Clip>) -> (m: i128)
    ensures
        m == clips_end(views(clips@)),
        0 <= m <= 2 * (i64::MAX as int),
{
    let mut m: i128 = 0;
    let mut i: usize = 0;
    while i < clips.len()
        invariant
            i <= clips.len(),
            m == clips_end(views(clips@).take(i as int)),
            0 <= m <= 2 * (i64::MAX as int),
        decreases clips.len() - i,
    {
        assert(views(clips@).take(i + 1).drop_last() =~= views(clips@).take(i as int));
        let e = clips[i].start_time as i128 + clips[i].duration as i128;
        if e > m {
            m = e;
        }
        i = i + 1;
    }
    assert(views(clips@).take(clips.len() as int) =~= views(clips@));
    m
}

fn end_of_tracks(tracks: &Vec<Track>) -> (m: i128)
    ensures
        m == tracks_end(views(tracks@)),
        0 <= m <= 2 * (i64::MAX as int),
{
    let mut m: i128 = 0;
    let mut i: usize = 0;
    while i < tracks.len()
        invariant
            i <= tracks.len(),
            m == tracks_end(views(tracks@).take(i as int)),
            0 <= m <= 2 * (i64::MAX as int),
        decreases tracks.len() - i,
    {
        assert(views(tracks@).take(i + 1).drop_last() =~= views(tracks@).take(i as int));
        let e = end_of_clips(&tracks[i].clips);
        if e > m {
            m = e;
        }
        i = i + 1;
    }
    assert(views(tracks@).take(tracks.len() as int) =~= views(tracks@));
    m
}

/// Sets the timeline length to the largest clip end over all tracks (0 when
/// there is no clip).
pub fn recalculate_timeline_duration(project: &mut Project)
    ensures
        final(project)@ == with_recalculated_duration(old(project)@),
{
    let m = end_of_tracks(&project.timeline.tracks);
    let d: i64 = if m > i64::MAX as i128 {
        i64::MAX
    } else {
        m as i64
    };
    project.timeline.duration = d;
}

// ---------------------------------------------------------------------------
// Finding tracks and clips
// ---------------------------------------------------------------------------

pub open spec fn track_has_id(id: u128) -> spec_fn(TrackView) -> bool {
    |t: TrackView| t.id == id
}

pub open spec fn clip_has_id(id: u128) -> spec_fn(ClipView) -> bool {
    |c: ClipView| c.id == id
}

fn find_track(tracks: &Vec<Track>, id: u128) -> (r: Option<usize>)
    ensures
        r matches Some(i) ==> is_first(views(tracks@), track_has_id(id), i as int),
        r is None ==> !any(views(tracks@), track_has_id(id)),
{
    let mut i: usize = 0;
    while i < tracks.len()
        invariant
            i <= tracks.len(),
            forall|j: int| 0 <= j < i ==> !track_has_id(id)(#[trigger] views(tracks@)[j]),
        decreases tracks.len() - i,
    {
        if tracks[i].id == id {
            return Some(i);
        }
        i = i + 1;
    }
    None
}

fn find_clip(clips: &Vec<Clip>, id: u128) -> (r: Option<usize>)
    ensures
        r matches Some(i) ==> is_first(views(clips@), clip_has_id(id), i as int),
        r is None ==> !any(views(clips@), clip_has_id(id)),
{
    let mut i: usize = 0;
    while i < clips.len()
        invariant
            i <= clips.len(),
            forall|j: int| 0 <= j < i ==> !clip_has_id(id)(#[trigger] views(clips@)[j]),
        decreases clips.len() - i,
    {
        if clips[i].id == id {
            return Some(i);
        }
        i = i + 1;
    }
    None
}

// ---------------------------------------------------------------------------
// Edits of the open project
// ---------------------------------------------------------------------------

/// `p` with the track at position `i` replaced by `t`.
pub open spec fn with_track(p: ProjectView, i: int, t: TrackView) -> ProjectView {
    ProjectView {
        timeline: crate::project::TimelineView {
            tracks: p.timeline.tracks.update(i, t),
            ..p.timeline
        },
        ..p
    }
}

/// The state once `p2` replaces the open project.
pub open spec fn state_after(s: ProjectStateView, p2: ProjectView) -> ProjectStateView {
    ProjectStateView { current: Some(p2), recent: spec_recent_after_update(s.recent, info_of(p2)) }
}

/// The UUID that a text parses to.
pub open spec fn parsed_id(s: Seq<char>) -> u128 {
    spec_uuid_parse(s)->Ok_0
}

/// The position of the first track with id `id`.
pub open spec fn track_pos(p: ProjectView, id: u128) -> int {
    first(p.timeline.tracks, track_has_id(id))
}

/// An undo record.
pub open spec fn record_view(
    id: u128,
    action_type: Seq<char>,
    description: Seq<char>,
    timestamp: i64,
    data: Json,
) -> ActionRecordView {
    ActionRecordView { id, action_type, description, timestamp, data, change: None }
}

// ---------------------------------------------------------------------------
// add_clip_to_track
// ---------------------------------------------------------------------------

/// Why adding a clip fails, if it does.
pub open spec fn add_clip_check(
    track_id: Seq<char>,
    media_id: Seq<char>,
    start_time: i64,
    duration: i64,
    s: ProjectStateView,
) -> Option<ErrorView> {
    if blank(track_id) {
        Some(error_view("validation"@, "Track ID must not be empty."@))
    } else if blank(media_id) {
        Some(error_view("validation"@, "Media ID must not be empty."@))
    } else if start_time < 0 {
        Some(error_view("validation"@, "Start time must not be negative."@))
    } else if duration <= 0 {
        Some(error_view("validation"@, "Clip duration must be positive."@))
    } else if s.current is None {
        Some(error_view("no_active_project"@, "No active project."@))
    } else {
        match spec_uuid_parse(track_id) {
            Err(e) => Some(error_view("invalid_track_id"@, "Invalid track ID format: "@ + e)),
            Ok(tid) => {
                let tracks = s.current->0.timeline.tracks;
                if !any(tracks, track_has_id(tid)) {
                    Some(error_view("track_not_found"@, "Track '"@ + track_id + "' not found."@))
                } else if tracks[first(tracks, track_has_id(tid))].locked {
                    Some(
                        error_view(
                            "track_locked"@,
                            "Track '"@ + track_id + "' is locked and cannot be modified."@,
                        ),
                    )
                } else {
                    None
                }
            },
        }
    }
}

/// A new clip showing `0..duration` of a media item.
pub open spec fn new_clip_view(
    id: u128,
    media_id: Seq<char>,
    track_id: Seq<char>,
    start_time: i64,
    duration: i64,
) -> ClipView {
    ClipView {
        id,
        media_id,
        track_id,
        start_time,
        duration,
        in_point: 0,
        out_point: duration,
        filters: Seq::empty(),
        transitions: Seq::empty(),
        speed: 1000,
    }
}

pub open spec fn starts_after(t: i64) -> spec_fn(ClipView) -> bool {
    |c: ClipView| c.start_time > t
}

/// Where a clip starting at `t` goes among `clips`: before the first clip
/// that starts later, or at the end when none does. Clips that start at the
/// same time keep the order in which they were added.
pub open spec fn insert_pos(clips: Seq<ClipView>, t: i64) -> int {
    if any(clips, starts_after(t)) {
        first(clips, starts_after(t))
    } else {
        clips.len() as int
    }
}

/// `clips` with `c` put before the first clip that starts later than it.
pub open spec fn place(clips: Seq<ClipView>, c: ClipView) -> Seq<ClipView> {
    clips.insert(insert_pos(clips, c.start_time), c)
}

/// Whether `clips` are ordered by start time.
pub open spec fn sorted_by_start(clips: Seq<ClipView>) -> bool {
    forall|i: int, j: int| 0 <= i < j < clips.len() ==> #[trigger] clips[i].start_time <= #[trigger] clips[j].start_time
}

/// `p` with `clip` placed among the clips of the first track with id `tid`
/// by its start time, and the timeline length recomputed.
pub open spec fn project_after_add_clip(p: ProjectView, tid: u128, clip: ClipView) -> ProjectView {
    let ti = track_pos(p, tid);
    let t = p.timeline.tracks[ti];
    with_recalculated_duration(
        with_track(p, ti, TrackView { clips: place(t.clips, clip), ..t }),
    )
}

fn insert_position(clips: &Vec<Clip>, t: i64) -> (k: usize)
    ensures
        k == insert_pos(views(clips@), t),
        k <= clips@.len(),
{
    let ghost cv = views(clips@);
    let mut k: usize = 0;
    while k < clips.len()
        invariant
            k <= clips.len(),
            cv == views(clips@),
            forall|j: int| 0 <= j < k ==> !starts_after(t)(#[trigger] cv[j]),
        decreases clips.len() - k,
    {
        assert(cv[k as int] == clips@[k as int]@);
        if clips[k].start_time > t {
            proof {
                lemma_first(cv, starts_after(t), k as int);
            }
            return k;
        }
        k = k + 1;
    }
    assert(!any(cv, starts_after(t)));
    k
}

/// The undo record of an added clip.
pub open spec fn add_clip_record(
    rid: u128,
    ts: i64,
    cid: u128,
    track_id: Seq<char>,
    media_id: Seq<char>,
    start_time: i64,
    duration: i64,
) -> ActionRecordView {
    record_view(
        rid,
        "add_clip_to_track"@,
        "Added clip to track '"@ + track_id + "'"@,
        ts,
        Json::Object(
            seq![
                ("clip_id"@, Json::Str(hyphenated(cid))),
                ("track_id"@, Json::Str(track_id)),
                ("media_id"@, Json::Str(media_id)),
                ("start_time"@, Json::Int(start_time)),
                ("duration"@, Json::Int(duration)),
            ],
        ),
    )
}

/// What a successful `add_clip_to_track` leaves, for the new clip's id
/// `cid`, the record's id `rid` and its timestamp `ts`.
pub open spec fn add_clip_outcome(
    track_id: Seq<char>,
    media_id: Seq<char>,
    start_time: i64,
    duration: i64,
    s: ProjectStateView,
    u: UndoView,
    s2: ProjectStateView,
    u2: UndoView,
    info: ClipInfoView,
    cid: u128,
    rid: u128,
    ts: i64,
) -> bool {
    let clip = new_clip_view(cid, media_id, track_id, start_time, duration);
    &&& info == clip_info_of(clip)
    &&& s2 == state_after(s, project_after_add_clip(s.current->0, parsed_id(track_id), clip))
    &&& u2 == spec_push(
        u, with_change(add_clip_record(rid, ts, cid, track_id, media_id, start_time, duration), s.current, s2.current))
}

/// Adds a new clip of `media_id` to the track `track_id`, placed at
/// `start_time` for `duration` microseconds, and records the action. The
/// track keeps its clips ordered by start time: the clip goes before the
/// first one that starts later.
pub fn add_clip_to_track(
    track_id: String,
    media_id: String,
    start_time: i64,
    duration: i64,
    project_state: &mut ProjectState,
    undo_manager: &mut UndoManager,
) -> (r: Result<ClipInfo, TimelineError>)
    ensures
        r is Ok <==> add_clip_check(track_id@, media_id@, start_time, duration, old(project_state)@) is None,
        r matches Err(e) ==> Some(e@) == add_clip_check(track_id@, media_id@, start_time, duration, old(project_state)@)
            && final(project_state)@ == old(project_state)@ && final(undo_manager)@ == old(undo_manager)@,
        r matches Ok(info) ==> exists|cid: u128, rid: u128, ts: i64| #[trigger] add_clip_outcome(
            track_id@, media_id@, start_time, duration, old(project_state)@, old(undo_manager)@,
            final(project_state)@, final(undo_manager)@, info@, cid, rid, ts),
{
    if is_blank(track_id.as_str()) {
        return Err(error_text("validation", "Track ID must not be empty."));
    }
    if is_blank(media_id.as_str()) {
        return Err(error_text("validation", "Media ID must not be empty."));
    }
    if start_time < 0 {
        return Err(error_text("validation", "Start time must not be negative."));
    }
    if duration <= 0 {
        return Err(error_text("validation", "Clip duration must be positive."));
    }
    let mut project = match project_state.get_current_project() {
        Some(p) => p,
        None => {
            return Err(error_text("no_active_project", "No active project."));
        },
    };
    let tid = match uuid_parse(track_id.as_str()) {
        Ok(v) => v,
        Err(e) => {
            return Err(timeline_error("invalid_track_id", cat("Invalid track ID format: ", e.as_str())));
        },
    };
    let ti = match find_track(&project.timeline.tracks, tid) {
        Some(i) => i,
        None => {
            return Err(timeline_error("track_not_found", cat3("Track '", track_id.as_str(), "' not found.")));
        },
    };
    proof {
        lemma_first(views(project.timeline.tracks@), track_has_id(tid), ti as int);
    }
    if project.timeline.tracks[ti].locked {
        return Err(
            timeline_error(
                "track_locked",
                cat3("Track '", track_id.as_str(), "' is locked and cannot be modified."),
            ),
        );
    }
    let ghost p0 = project@;
    let cid = uuid_new_v4();
    let clip = Clip {
        id: cid,
        media_id: media_id.clone(),
        track_id: track_id.clone(),
        start_time,
        duration,
        in_point: 0,
        out_point: duration,
        filters: Vec::new(),
        transitions: Vec::new(),
        speed: 1000,
    };
    let ghost clip_v = clip@;
    assert(clip_v.filters =~= Seq::empty());
    assert(clip_v.transitions =~= Seq::empty());
    assert(clip_v == new_clip_view(cid, media_id@, track_id@, start_time, duration));
    let info = clip_to_info(&clip);
    let k = insert_position(&project.timeline.tracks[ti].clips, start_time);
    let ghost new_clips = p0.timeline.tracks[ti as int].clips.insert(k as int, clip_v);
    let mut track = project.timeline.tracks.remove(ti);
    track.clips.insert(k, clip);
    assert(views(track.clips@) =~= new_clips);
    project.timeline.tracks.insert(ti, track);
    assert(project@ == with_track(p0, ti as int, TrackView { clips: new_clips, ..p0.timeline.tracks[ti as int] })) by {
        assert(views(project.timeline.tracks@) =~= p0.timeline.tracks.update(ti as int, TrackView { clips: new_clips, ..p0.timeline.tracks[ti as int] }));
    }
    recalculate_timeline_duration(&mut project);
    let rid = uuid_new_v4();
    let ts = now_millis();
    let mut members: Vec<(String, JsonValue)> = Vec::new();
    members.push(str_member("clip_id", info.id.clone()));
    members.push(str_member("track_id", track_id.clone()));
    members.push(str_member("media_id", media_id.clone()));
    members.push(int_member("start_time", start_time));
    members.push(int_member("duration", duration));
    let ghost mv = crate::json::members_view(members@);
    let data = json_object(members);
    let record = ActionRecord {
        id: rid,
        action_type: String::from_str("add_clip_to_track"),
        description: cat3("Added clip to track '", track_id.as_str(), "'"),
        timestamp: ts,
        data,
        change: None,
    };
    assert(record@ == add_clip_record(rid, ts, cid, track_id@, media_id@, start_time, duration)) by {
        assert(mv =~= seq![
            ("clip_id"@, Json::Str(hyphenated(cid))),
            ("track_id"@, Json::Str(track_id@)),
            ("media_id"@, Json::Str(media_id@)),
            ("start_time"@, Json::Int(start_time)),
            ("duration"@, Json::Int(duration)),
        ]);
    }
    record_edit(project_state, undo_manager, record, project);
    assert(add_clip_outcome(track_id@, media_id@, start_time, duration, old(project_state)@, old(undo_manager)@,
        project_state@, undo_manager@, info@, cid, rid, ts));
    Ok(info)
}

// ---------------------------------------------------------------------------
// Locating a clip on a track
// ---------------------------------------------------------------------------

/// Why the clip `clip_id` on the track `track_id` of `p` cannot be found or
/// changed, if it cannot; `missing` is the message when the track lacks the
/// clip. A locked track refuses every change to its clips.
pub open spec fn locate_error(
    track_id: Seq<char>,
    clip_id: Seq<char>,
    p: ProjectView,
    missing: Seq<char>,
) -> Option<ErrorView> {
    match spec_uuid_parse(track_id) {
        Err(e) => Some(error_view("invalid_track_id"@, "Invalid track ID format: "@ + e)),
        Ok(tid) => match spec_uuid_parse(clip_id) {
            Err(e) => Some(error_view("invalid_clip_id"@, "Invalid clip ID format: "@ + e)),
            Ok(cid) => {
                if !any(p.timeline.tracks, track_has_id(tid)) {
                    Some(error_view("track_not_found"@, "Track '"@ + track_id + "' not found."@))
                } else if !any(p.timeline.tracks[track_pos(p, tid)].clips, clip_has_id(cid)) {
                    Some(error_view("clip_not_found"@, missing))
                } else if p.timeline.tracks[track_pos(p, tid)].locked {
                    Some(error_view("track_locked"@, "Track '"@ + track_id + "' is locked and cannot be modified."@))
                } else {
                    None
                }
            },
        },
    }
}

/// The position, on its track, of the first clip with id `cid` of the first
/// track with id `tid`.
pub open spec fn clip_pos(p: ProjectView, tid: u128, cid: u128) -> int {
    first(p.timeline.tracks[track_pos(p, tid)].clips, clip_has_id(cid))
}

/// The first clip with id `cid` on the first track with id `tid`.
pub open spec fn located_clip(p: ProjectView, tid: u128, cid: u128) -> ClipView {
    p.timeline.tracks[track_pos(p, tid)].clips[clip_pos(p, tid, cid)]
}

fn locate(track_id: &str, clip_id: &str, project: &Project, missing: String) -> (r: Result<
    (usize, usize),
    TimelineError,
>)
    ensures
        r is Ok <==> locate_error(track_id@, clip_id@, project@, missing@) is None,
        r matches Err(e) ==> Some(e@) == locate_error(track_id@, clip_id@, project@, missing@),
        r matches Ok((ti, ci)) ==> {
            &&& spec_uuid_parse(track_id@) is Ok
            &&& spec_uuid_parse(clip_id@) is Ok
            &&& ti == track_pos(project@, parsed_id(track_id@))
            &&& ci == clip_pos(project@, parsed_id(track_id@), parsed_id(clip_id@))
            &&& ti < project@.timeline.tracks.len()
            &&& ci < project@.timeline.tracks[ti as int].clips.len()
        },
{
    let tid = match uuid_parse(track_id) {
        Ok(v) => v,
        Err(e) => {
            return Err(timeline_error("invalid_track_id", cat("Invalid track ID format: ", e.as_str())));
        },
    };
    let cid = match uuid_parse(clip_id) {
        Ok(v) => v,
        Err(e) => {
            return Err(timeline_error("invalid_clip_id", cat("Invalid clip ID format: ", e.as_str())));
        },
    };
    let ti = match find_track(&project.timeline.tracks, tid) {
        Some(i) => i,
        None => {
            return Err(timeline_error("track_not_found", cat3("Track '", track_id, "' not found.")));
        },
    };
    proof {
        lemma_first(views(project.timeline.tracks@), track_has_id(tid), ti as int);
    }
    let ci = match find_clip(&project.timeline.tracks[ti].clips, cid) {
        Some(i) => i,
        None => {
            return Err(timeline_error("clip_not_found", missing));
        },
    };
    proof {
        lemma_first(views(project.timeline.tracks[ti as int].clips@), clip_has_id(cid), ci as int);
    }
    if project.timeline.tracks[ti].locked {
        return Err(
            timeline_error("track_locked", cat3("Track '", track_id, "' is locked and cannot be modified.")),
        );
    }
    Ok((ti, ci))
}

/// `p` with the clip at position `ci` of track `ti` replaced by `c`.
pub open spec fn with_clip(p: ProjectView, ti: int, ci: int, c: ClipView) -> ProjectView {
    let t = p.timeline.tracks[ti];
    with_track(p, ti, TrackView { clips: t.clips.update(ci, c), ..t })
}

/// `p` with the clip at position `ci` of track `ti` removed.
pub open spec fn without_clip(p: ProjectView, ti: int, ci: int) -> ProjectView {
    let t = p.timeline.tracks[ti];
    with_track(p, ti, TrackView { clips: t.clips.remove(ci), ..t })
}

/// `p` with the clip at position `ci` of track `ti` taken out and `c` put
/// among the remaining clips by its start time.
pub open spec fn with_clip_placed(p: ProjectView, ti: int, ci: int, c: ClipView) -> ProjectView {
    let t = p.timeline.tracks[ti];
    with_track(p, ti, TrackView { clips: place(t.clips.remove(ci), c), ..t })
}

/// Puts `c` among `clips` by its start time.
fn place_clip(clips: &mut Vec<Clip>, c: Clip)
    ensures
        views(final(clips)@) == place(views(old(clips)@), c@),
{
    let ghost before = views(clips@);
    let ghost cv = c@;
    let k = insert_position(clips, c.start_time);
    clips.insert(k, c);
    assert(views(clips@) =~= before.insert(k as int, cv));
}

/// Takes out the clip at `ci` on the track at `ti` of `project` and puts
/// `c` among the remaining clips by its start time.
fn replace_clip_placed(project: &mut Project, ti: usize, ci: usize, c: Clip)
    requires
        ti < old(project)@.timeline.tracks.len(),
        ci < old(project)@.timeline.tracks[ti as int].clips.len(),
    ensures
        final(project)@ == with_clip_placed(old(project)@, ti as int, ci as int, c@),
{
    let ghost p0 = project@;
    let ghost cv = c@;
    let mut track = project.timeline.tracks.remove(ti);
    let _ = track.clips.remove(ci);
    assert(views(track.clips@) =~= p0.timeline.tracks[ti as int].clips.remove(ci as int));
    place_clip(&mut track.clips, c);
    project.timeline.tracks.insert(ti, track);
    assert(views(project.timeline.tracks@) =~= with_clip_placed(p0, ti as int, ci as int, cv).timeline.tracks);
}

// ---------------------------------------------------------------------------
// remove_clip_from_track
// ---------------------------------------------------------------------------

pub open spec fn remove_clip_check(
    track_id: Seq<char>,
    clip_id: Seq<char>,
    s: ProjectStateView,
) -> Option<ErrorView> {
    if blank(track_id) || blank(clip_id) {
        Some(error_view("validation"@, "Track ID and Clip ID must not be empty."@))
    } else if s.current is None {
        Some(error_view("no_active_project"@, "No active project."@))
    } else {
        locate_error(
            track_id,
            clip_id,
            s.current->0,
            "Clip '"@ + clip_id + "' not found on track '"@ + track_id + "'."@,
        )
    }
}

/// The undo record of a removed clip.
pub open spec fn remove_clip_record(
    rid: u128,
    ts: i64,
    track_id: Seq<char>,
    clip_id: Seq<char>,
    c: ClipView,
) -> ActionRecordView {
    record_view(
        rid,
        "remove_clip_from_track"@,
        "Removed clip from track '"@ + track_id + "'"@,
        ts,
        Json::Object(
            seq![
                ("clip_id"@, Json::Str(clip_id)),
                ("track_id"@, Json::Str(track_id)),
                ("media_id"@, Json::Str(c.media_id)),
                ("start_time"@, Json::Int(c.start_time)),
                ("duration"@, Json::Int(c.duration)),
                ("in_point"@, Json::Int(c.in_point)),
                ("out_point"@, Json::Int(c.out_point)),
            ],
        ),
    )
}

pub open spec fn remove_clip_outcome(
    track_id: Seq<char>,
    clip_id: Seq<char>,
    s: ProjectStateView,
    u: UndoView,
    s2: ProjectStateView,
    u2: UndoView,
    rid: u128,
    ts: i64,
) -> bool {
    let p = s.current->0;
    let tid = parsed_id(track_id);
    let cid = parsed_id(clip_id);
    &&& s2 == state_after(
        s,
        with_recalculated_duration(without_clip(p, track_pos(p, tid), clip_pos(p, tid, cid))),
    )
    &&& u2 == spec_push(u, with_change(remove_clip_record(rid, ts, track_id, clip_id, located_clip(p, tid, cid)), s.current, s2.current))
}

/// Removes the clip `clip_id` from the track `track_id` and records the
/// action; gives `true` on success.
pub fn remove_clip_from_track(
    track_id: String,
    clip_id: String,
    project_state: &mut ProjectState,
    undo_manager: &mut UndoManager,
) -> (r: Result<bool, TimelineError>)
    ensures
        r is Ok <==> remove_clip_check(track_id@, clip_id@, old(project_state)@) is None,
        r matches Err(e) ==> Some(e@) == remove_clip_check(track_id@, clip_id@, old(project_state)@)
            && final(project_state)@ == old(project_state)@ && final(undo_manager)@ == old(undo_manager)@,
        r matches Ok(b) ==> b && exists|rid: u128, ts: i64| #[trigger] remove_clip_outcome(
            track_id@, clip_id@, old(project_state)@, old(undo_manager)@,
            final(project_state)@, final(undo_manager)@, rid, ts),
{
    if is_blank(track_id.as_str()) || is_blank(clip_id.as_str()) {
        return Err(error_text("validation", "Track ID and Clip ID must not be empty."));
    }
    let mut project = match project_state.get_current_project() {
        Some(p) => p,
        None => {
            return Err(error_text("no_active_project", "No active project."));
        },
    };
    let missing = cat(
        cat3("Clip '", clip_id.as_str(), "' not found on track '").as_str(),
        cat(track_id.as_str(), "'.").as_str(),
    );
    assert(missing@ =~= "Clip '"@ + clip_id@ + "' not found on track '"@ + track_id@ + "'."@);
    let (ti, ci) = match locate(track_id.as_str(), clip_id.as_str(), &project, missing) {
        Ok(pos) => pos,
        Err(e) => {
            return Err(e);
        },
    };
    let ghost p0 = project@;
    let mut track = project.timeline.tracks.remove(ti);
    let removed = track.clips.remove(ci);
    assert(views(track.clips@) =~= p0.timeline.tracks[ti as int].clips.remove(ci as int));
    project.timeline.tracks.insert(ti, track);
    assert(views(project.timeline.tracks@) =~= without_clip(p0, ti as int, ci as int).timeline.tracks);
    let rid = uuid_new_v4();
    let ts = now_millis();
    let mut members: Vec<(String, JsonValue)> = Vec::new();
    members.push(str_member("clip_id", clip_id.clone()));
    members.push(str_member("track_id", track_id.clone()));
    members.push(str_member("media_id", removed.media_id.clone()));
    members.push(int_member("start_time", removed.start_time));
    members.push(int_member("duration", removed.duration));
    members.push(int_member("in_point", removed.in_point));
    members.push(int_member("out_point", removed.out_point));
    let ghost mv = crate::json::members_view(members@);
    let record = ActionRecord {
        id: rid,
        action_type: String::from_str("remove_clip_from_track"),
        description: cat3("Removed clip from track '", track_id.as_str(), "'"),
        timestamp: ts,
        data: json_object(members),
        change: None,
    };
    assert(record@ == remove_clip_record(rid, ts, track_id@, clip_id@, removed@)) by {
        assert(mv =~= seq![
            ("clip_id"@, Json::Str(clip_id@)),
            ("track_id"@, Json::Str(track_id@)),
            ("media_id"@, Json::Str(removed@.media_id)),
            ("start_time"@, Json::Int(removed@.start_time)),
            ("duration"@, Json::Int(removed@.duration)),
            ("in_point"@, Json::Int(removed@.in_point)),
            ("out_point"@, Json::Int(removed@.out_point)),
        ]);
    }
    recalculate_timeline_duration(&mut project);
    record_edit(project_state, undo_manager, record, project);
    assert(remove_clip_outcome(track_id@, clip_id@, old(project_state)@, old(undo_manager)@,
        project_state@, undo_manager@, rid, ts));
    Ok(true)
}

// ---------------------------------------------------------------------------
// move_clip
// ---------------------------------------------------------------------------

pub open spec fn move_clip_check(
    track_id: Seq<char>,
    clip_id: Seq<char>,
    new_start_time: i64,
    s: ProjectStateView,
) -> Option<ErrorView> {
    if blank(track_id) || blank(clip_id) {
        Some(error_view("validation"@, "Track ID and Clip ID must not be empty."@))
    } else if new_start_time < 0 {
        Some(error_view("validation"@, "New start time must not be negative."@))
    } else if s.current is None {
        Some(error_view("no_active_project"@, "No active project."@))
    } else {
        locate_error(track_id, clip_id, s.current->0, "Clip '"@ + clip_id + "' not found."@)
    }
}

pub open spec fn move_clip_record(
    rid: u128,
    ts: i64,
    track_id: Seq<char>,
    clip_id: Seq<char>,
    original_start_time: i64,
    new_start_time: i64,
) -> ActionRecordView {
    record_view(
        rid,
        "move_clip"@,
        "Moved clip '"@ + clip_id + "' to start_time="@ + crate::text::decimal(new_start_time as int),
        ts,
        Json::Object(
            seq![
                ("clip_id"@, Json::Str(clip_id)),
                ("track_id"@, Json::Str(track_id)),
                ("original_start_time"@, Json::Int(original_start_time)),
                ("new_start_time"@, Json::Int(new_start_time)),
            ],
        ),
    )
}

pub open spec fn move_clip_outcome(
    track_id: Seq<char>,
    clip_id: Seq<char>,
    new_start_time: i64,
    s: ProjectStateView,
    u: UndoView,
    s2: ProjectStateView,
    u2: UndoView,
    rid: u128,
    ts: i64,
) -> bool {
    let p = s.current->0;
    let tid = parsed_id(track_id);
    let cid = parsed_id(clip_id);
    let c = located_clip(p, tid, cid);
    &&& s2 == state_after(
        s,
        with_recalculated_duration(
            with_clip_placed(p, track_pos(p, tid), clip_pos(p, tid, cid), ClipView { start_time: new_start_time, ..c }),
        ),
    )
    &&& u2 == spec_push(u, with_change(move_clip_record(rid, ts, track_id, clip_id, c.start_time, new_start_time), s.current, s2.current))
}

/// Moves the clip `clip_id` of the track `track_id` to start at
/// `new_start_time`, in its place among the track's clips by start time,
/// and records the action; gives `true` on success.
pub fn move_clip(
    track_id: String,
    clip_id: String,
    new_start_time: i64,
    project_state: &mut ProjectState,
    undo_manager: &mut UndoManager,
) -> (r: Result<bool, TimelineError>)
    ensures
        r is Ok <==> move_clip_check(track_id@, clip_id@, new_start_time, old(project_state)@) is None,
        r matches Err(e) ==> Some(e@) == move_clip_check(track_id@, clip_id@, new_start_time, old(project_state)@)
            && final(project_state)@ == old(project_state)@ && final(undo_manager)@ == old(undo_manager)@,
        r matches Ok(b) ==> b && exists|rid: u128, ts: i64| #[trigger] move_clip_outcome(
            track_id@, clip_id@, new_start_time, old(project_state)@, old(undo_manager)@,
            final(project_state)@, final(undo_manager)@, rid, ts),
{
    if is_blank(track_id.as_str()) || is_blank(clip_id.as_str()) {
        return Err(error_text("validation", "Track ID and Clip ID must not be empty."));
    }
    if new_start_time < 0 {
        return Err(error_text("validation", "New start time must not be negative."));
    }
    let mut project = match project_state.get_current_project() {
        Some(p) => p,
        None => {
            return Err(error_text("no_active_project", "No active project."));
        },
    };
    let missing = cat3("Clip '", clip_id.as_str(), "' not found.");
    let (ti, ci) = match locate(track_id.as_str(), clip_id.as_str(), &project, missing) {
        Ok(pos) => pos,
        Err(e) => {
            return Err(e);
        },
    };
    let mut clip = project.timeline.tracks[ti].clips[ci].deep_copy();
    let original_start_time = clip.start_time;
    clip.start_time = new_start_time;
    replace_clip_placed(&mut project, ti, ci, clip);
    let rid = uuid_new_v4();
    let ts = now_millis();
    let mut members: Vec<(String, JsonValue)> = Vec::new();
    members.push(str_member("clip_id", clip_id.clone()));
    members.push(str_member("track_id", track_id.clone()));
    members.push(int_member("original_start_time", original_start_time));
    members.push(int_member("new_start_time", new_start_time));
    let ghost mv = crate::json::members_view(members@);
    let record = ActionRecord {
        id: rid,
        action_type: String::from_str("move_clip"),
        description: cat(
            cat3("Moved clip '", clip_id.as_str(), "' to start_time=").as_str(),
            crate::text::int_text(new_start_time).as_str(),
        ),
        timestamp: ts,
        data: json_object(members),
        change: None,
    };
    assert(record@ == move_clip_record(rid, ts, track_id@, clip_id@, original_start_time, new_start_time)) by {
        assert(mv =~= seq![
            ("clip_id"@, Json::Str(clip_id@)),
            ("track_id"@, Json::Str(track_id@)),
            ("original_start_time"@, Json::Int(original_start_time)),
            ("new_start_time"@, Json::Int(new_start_time)),
        ]);
    }
    recalculate_timeline_duration(&mut project);
    record_edit(project_state, undo_manager, record, project);
    assert(move_clip_outcome(track_id@, clip_id@, new_start_time, old(project_state)@, old(undo_manager)@,
        project_state@, undo_manager@, rid, ts));
    Ok(true)
}

// ---------------------------------------------------------------------------
// Speed scaling
// ---------------------------------------------------------------------------

/// `a / b` rounded toward zero, as integer division does.
pub open spec fn trunc_div(a: int, b: int) -> int {
    if a >= 0 {
        a / b
    } else {
        -((-a) / b)
    }
}

/// The source time covered by `t` microseconds of timeline at `speed`
/// thousandths, rounded toward zero.
pub open spec fn scaled(t: int, speed: i64) -> int {
    trunc_div(t * speed, 1000)
}

fn clamp_i128(x: i128) -> (r: i64)
    ensures
        r == clamp64(x as int),
{
    if x > i64::MAX as i128 {
        i64::MAX
    } else if x < i64::MIN as i128 {
        i64::MIN
    } else {
        x as i64
    }
}

/// `base + scaled(t, speed)` (or minus, when `subtract`), held to `i64`.
fn shifted(base: i64, t: i64, speed: i64, subtract: bool) -> (r: i64)
    ensures
        r == clamp64(if subtract { base - scaled(t as int, speed) } else { base + scaled(t as int, speed) }),
{
    let tw = t as i128;
    let sw = speed as i128;
    assert(-0x4000_0000_0000_0000_0000_0000_0000_0000int <= tw * sw <= 0x4000_0000_0000_0000_0000_0000_0000_0000int) by (nonlinear_arith)
        requires
            -0x8000_0000_0000_0000int <= tw <= 0x7fff_ffff_ffff_ffffint,
            -0x8000_0000_0000_0000int <= sw <= 0x7fff_ffff_ffff_ffffint,
    ;
    let prod = tw * sw;
    let q = prod / 1000;
    assert(q == trunc_div(prod as int, 1000));
    let x = if subtract {
        base as i128 - q
    } else {
        base as i128 + q
    };
    clamp_i128(x)
}

// ---------------------------------------------------------------------------
// split_clip
// ---------------------------------------------------------------------------

pub open spec fn split_clip_check(
    track_id: Seq<char>,
    clip_id: Seq<char>,
    split_time: i64,
    s: ProjectStateView,
) -> Option<ErrorView> {
    if blank(track_id) || blank(clip_id) {
        Some(error_view("validation"@, "Track ID and Clip ID must not be empty."@))
    } else if split_time < 0 {
        Some(error_view("validation"@, "Split time must not be negative."@))
    } else if s.current is None {
        Some(error_view("no_active_project"@, "No active project."@))
    } else if locate_error(track_id, clip_id, s.current->0, "Clip '"@ + clip_id + "' not found."@) is Some {
        locate_error(track_id, clip_id, s.current->0, "Clip '"@ + clip_id + "' not found."@)
    } else {
        let c = located_clip(s.current->0, parsed_id(track_id), parsed_id(clip_id));
        if split_time <= c.start_time || split_time >= c.start_time + c.duration {
            Some(
                error_view(
                    "validation"@,
                    "Split time "@ + crate::text::decimal(split_time as int)
                        + " must be within the clip range ["@ + crate::text::decimal(
                        c.start_time as int,
                    ) + ", "@ + crate::text::decimal(c.start_time + c.duration) + ")."@,
                ),
            )
        } else {
            None
        }
    }
}

/// The source position at which `c` is cut when split at `split_time`.
pub open spec fn split_point(c: ClipView, split_time: i64) -> i64 {
    clamp64(c.in_point + scaled(split_time - c.start_time, c.speed))
}

/// The part of `c` before `split_time`, with id `id`; it keeps the filters.
pub open spec fn left_part(c: ClipView, split_time: i64, id: u128) -> ClipView {
    ClipView {
        id,
        duration: (split_time - c.start_time) as i64,
        out_point: split_point(c, split_time),
        transitions: Seq::empty(),
        ..c
    }
}

/// The part of `c` from `split_time` on, with id `id`; it has no filters.
pub open spec fn right_part(c: ClipView, split_time: i64, id: u128) -> ClipView {
    ClipView {
        id,
        start_time: split_time,
        duration: (c.duration - (split_time - c.start_time)) as i64,
        in_point: split_point(c, split_time),
        filters: Seq::empty(),
        transitions: Seq::empty(),
        ..c
    }
}

pub open spec fn split_clip_record(
    rec_id: u128,
    ts: i64,
    track_id: Seq<char>,
    clip_id: Seq<char>,
    split_time: i64,
    left_id: u128,
    right_id: u128,
) -> ActionRecordView {
    record_view(
        rec_id,
        "split_clip"@,
        "Split clip '"@ + clip_id + "' at time "@ + crate::text::decimal(split_time as int),
        ts,
        Json::Object(
            seq![
                ("original_clip_id"@, Json::Str(clip_id)),
                ("track_id"@, Json::Str(track_id)),
                ("split_time"@, Json::Int(split_time)),
                ("new_clip_ids"@, Json::Array(seq![Json::Str(hyphenated(left_id)), Json::Str(hyphenated(right_id))])),
            ],
        ),
    )
}

/// `clips` with the clip at `ci` replaced by its parts `left` and `right`,
/// each put in its place by start time.
pub open spec fn split_clips(clips: Seq<ClipView>, ci: int, left: ClipView, right: ClipView) -> Seq<ClipView> {
    place(place(clips.remove(ci), left), right)
}

pub open spec fn split_clip_outcome(
    track_id: Seq<char>,
    clip_id: Seq<char>,
    split_time: i64,
    s: ProjectStateView,
    u: UndoView,
    s2: ProjectStateView,
    u2: UndoView,
    infos: Seq<ClipInfoView>,
    left_id: u128,
    right_id: u128,
    rec_id: u128,
    ts: i64,
) -> bool {
    let p = s.current->0;
    let tid = parsed_id(track_id);
    let cid = parsed_id(clip_id);
    let c = located_clip(p, tid, cid);
    let ti = track_pos(p, tid);
    let t = p.timeline.tracks[ti];
    let left = left_part(c, split_time, left_id);
    let right = right_part(c, split_time, right_id);
    &&& infos == seq![clip_info_of(left), clip_info_of(right)]
    &&& s2 == state_after(
        s,
        with_track(p, ti, TrackView { clips: split_clips(t.clips, clip_pos(p, tid, cid), left, right), ..t }),
    )
    &&& u2 == spec_push(u, with_change(split_clip_record(rec_id, ts, track_id, clip_id, split_time, left_id, right_id), s.current, s2.current))
}

/// Splits the clip `clip_id` of the track `track_id` at `split_time`: the
/// clip is removed and its two parts take their places among the track's
/// clips by start time. The first part keeps the clip's filters. Records
/// the action and gives the two parts.
#[verifier::spinoff_prover]
pub fn split_clip(
    track_id: String,
    clip_id: String,
    split_time: i64,
    project_state: &mut ProjectState,
    undo_manager: &mut UndoManager,
) -> (r: Result<Vec<ClipInfo>, TimelineError>)
    ensures
        r is Ok <==> split_clip_check(track_id@, clip_id@, split_time, old(project_state)@) is None,
        r matches Err(e) ==> Some(e@) == split_clip_check(track_id@, clip_id@, split_time, old(project_state)@)
            && final(project_state)@ == old(project_state)@ && final(undo_manager)@ == old(undo_manager)@,
        r matches Ok(infos) ==> exists|left_id: u128, right_id: u128, rec_id: u128, ts: i64| #[trigger] split_clip_outcome(
            track_id@, clip_id@, split_time, old(project_state)@, old(undo_manager)@,
            final(project_state)@, final(undo_manager)@, views(infos@), left_id, right_id, rec_id, ts),
{
    if is_blank(track_id.as_str()) || is_blank(clip_id.as_str()) {
        return Err(error_text("validation", "Track ID and Clip ID must not be empty."));
    }
    if split_time < 0 {
        return Err(error_text("validation", "Split time must not be negative."));
    }
    let mut project = match project_state.get_current_project() {
        Some(p) => p,
        None => {
            return Err(error_text("no_active_project", "No active project."));
        },
    };
    let missing = cat3("Clip '", clip_id.as_str(), "' not found.");
    let (ti, ci) = match locate(track_id.as_str(), clip_id.as_str(), &project, missing) {
        Ok(pos) => pos,
        Err(e) => {
            return Err(e);
        },
    };
    let ghost p0 = project@;
    let start = project.timeline.tracks[ti].clips[ci].start_time;
    let duration = project.timeline.tracks[ti].clips[ci].duration;
    let end = start as i128 + duration as i128;
    if (split_time as i128) <= (start as i128) || (split_time as i128) >= end {
        let message = cat(
            cat3("Split time ", crate::text::int_text(split_time).as_str(), " must be within the clip range [").as_str(),
            cat(
                cat3(crate::text::int_text(start).as_str(), ", ", crate::text::wide_text(end).as_str()).as_str(),
                ").",
            ).as_str(),
        );
        assert(message@ =~= "Split time "@ + crate::text::decimal(split_time as int)
            + " must be within the clip range ["@ + crate::text::decimal(start as int) + ", "@
            + crate::text::decimal(start + duration) + ")."@);
        return Err(timeline_error("validation", message));
    }
    let original = project.timeline.tracks[ti].clips[ci].deep_copy();
    let left_duration = split_time - start;
    let right_duration = duration - left_duration;
    let mid = shifted(original.in_point, left_duration, original.speed, false);
    let left_id = uuid_new_v4();
    let left = Clip {
        id: left_id,
        media_id: original.media_id.clone(),
        track_id: original.track_id.clone(),
        start_time: original.start_time,
        duration: left_duration,
        in_point: original.in_point,
        out_point: mid,
        filters: crate::deep_copy::copy_vec(&original.filters),
        transitions: Vec::new(),
        speed: original.speed,
    };
    let right_id = uuid_new_v4();
    let right = Clip {
        id: right_id,
        media_id: original.media_id.clone(),
        track_id: original.track_id.clone(),
        start_time: split_time,
        duration: right_duration,
        in_point: mid,
        out_point: original.out_point,
        filters: Vec::new(),
        transitions: Vec::new(),
        speed: original.speed,
    };
    let ghost c = original@;
    assert(left@.transitions =~= Seq::empty());
    assert(right@.transitions =~= Seq::empty());
    assert(right@.filters =~= Seq::empty());
    assert(left@ == left_part(c, split_time, left_id));
    assert(right@ == right_part(c, split_time, right_id));
    let left_info = clip_to_info(&left);
    let right_info = clip_to_info(&right);
    let mut track = project.timeline.tracks.remove(ti);
    let _ = track.clips.remove(ci);
    let ghost t0 = p0.timeline.tracks[ti as int];
    assert(views(track.clips@) =~= t0.clips.remove(ci as int));
    place_clip(&mut track.clips, left);
    place_clip(&mut track.clips, right);
    project.timeline.tracks.insert(ti, track);
    assert(views(project.timeline.tracks@) =~= p0.timeline.tracks.update(ti as int, TrackView {
        clips: split_clips(t0.clips, ci as int, left_part(c, split_time, left_id), right_part(c, split_time, right_id)),
        ..t0
    }));
    let mut ids: Vec<JsonValue> = Vec::new();
    ids.push(JsonValue::Str(left_info.id.clone()));
    ids.push(JsonValue::Str(right_info.id.clone()));
    let ghost idv = views(ids@);
    assert(idv =~= seq![Json::Str(hyphenated(left_id)), Json::Str(hyphenated(right_id))]);
    let mut infos: Vec<ClipInfo> = Vec::new();
    infos.push(left_info);
    infos.push(right_info);
    let rec_id = uuid_new_v4();
    let ts = now_millis();
    let mut members: Vec<(String, JsonValue)> = Vec::new();
    members.push(str_member("original_clip_id", clip_id.clone()));
    members.push(str_member("track_id", track_id.clone()));
    members.push(int_member("split_time", split_time));
    members.push((String::from_str("new_clip_ids"), crate::json::json_array(ids)));
    let ghost mv = crate::json::members_view(members@);
    let record = ActionRecord {
        id: rec_id,
        action_type: String::from_str("split_clip"),
        description: cat(
            cat3("Split clip '", clip_id.as_str(), "' at time ").as_str(),
            crate::text::int_text(split_time).as_str(),
        ),
        timestamp: ts,
        data: json_object(members),
        change: None,
    };
    assert(record@ == split_clip_record(rec_id, ts, track_id@, clip_id@, split_time, left_id, right_id)) by {
        assert(mv =~= seq![
            ("original_clip_id"@, Json::Str(clip_id@)),
            ("track_id"@, Json::Str(track_id@)),
            ("split_time"@, Json::Int(split_time)),
            ("new_clip_ids"@, Json::Array(seq![Json::Str(hyphenated(left_id)), Json::Str(hyphenated(right_id))])),
        ]);
    }
    record_edit(project_state, undo_manager, record, project);
    assert(views(infos@) =~= seq![clip_info_of(left_part(c, split_time, left_id)), clip_info_of(right_part(c, split_time, right_id))]);
    assert(split_clip_outcome(track_id@, clip_id@, split_time, old(project_state)@, old(undo_manager)@,
        project_state@, undo_manager@, views(infos@), left_id, right_id, rec_id, ts));
    let ghost iv = infos@;
    let r: Result<Vec<ClipInfo>, TimelineError> = Ok(infos);
    assert(views(r->Ok_0@) == views(iv));
    r
}

// ---------------------------------------------------------------------------
// trim_clip
// ---------------------------------------------------------------------------

pub open spec fn trim_clip_check(
    track_id: Seq<char>,
    clip_id: Seq<char>,
    start_trim: i64,
    end_trim: i64,
    s: ProjectStateView,
) -> Option<ErrorView> {
    if blank(track_id) || blank(clip_id) {
        Some(error_view("validation"@, "Track ID and Clip ID must not be empty."@))
    } else if start_trim < 0 {
        Some(error_view("validation"@, "Start trim must not be negative."@))
    } else if end_trim < 0 {
        Some(error_view("validation"@, "End trim must not be negative."@))
    } else if s.current is None {
        Some(error_view("no_active_project"@, "No active project."@))
    } else if locate_error(track_id, clip_id, s.current->0, "Clip '"@ + clip_id + "' not found."@) is Some {
        locate_error(track_id, clip_id, s.current->0, "Clip '"@ + clip_id + "' not found."@)
    } else {
        let c = located_clip(s.current->0, parsed_id(track_id), parsed_id(clip_id));
        let remaining = c.duration - start_trim - end_trim;
        if remaining <= 0 {
            Some(
                error_view(
                    "validation"@,
                    "Trim values would result in zero or negative duration (remaining: "@
                        + crate::text::decimal(remaining) + " microseconds)."@,
                ),
            )
        } else {
            None
        }
    }
}

/// `c` with `start_trim` cut from its start and `end_trim` from its end.
pub open spec fn trimmed(c: ClipView, start_trim: i64, end_trim: i64) -> ClipView {
    ClipView {
        start_time: clamp64(c.start_time + start_trim),
        duration: (c.duration - start_trim - end_trim) as i64,
        in_point: clamp64(c.in_point + scaled(start_trim as int, c.speed)),
        out_point: clamp64(c.out_point - scaled(end_trim as int, c.speed)),
        ..c
    }
}

pub open spec fn trim_clip_record(
    rid: u128,
    ts: i64,
    track_id: Seq<char>,
    clip_id: Seq<char>,
    c: ClipView,
    start_trim: i64,
    end_trim: i64,
) -> ActionRecordView {
    record_view(
        rid,
        "trim_clip"@,
        "Trimmed clip '"@ + clip_id + "'"@,
        ts,
        Json::Object(
            seq![
                ("clip_id"@, Json::Str(clip_id)),
                ("track_id"@, Json::Str(track_id)),
                ("original_duration"@, Json::Int(c.duration)),
                ("original_in_point"@, Json::Int(c.in_point)),
                ("original_out_point"@, Json::Int(c.out_point)),
                ("start_trim"@, Json::Int(start_trim)),
                ("end_trim"@, Json::Int(end_trim)),
            ],
        ),
    )
}

pub open spec fn trim_clip_outcome(
    track_id: Seq<char>,
    clip_id: Seq<char>,
    start_trim: i64,
    end_trim: i64,
    s: ProjectStateView,
    u: UndoView,
    s2: ProjectStateView,
    u2: UndoView,
    info: ClipInfoView,
    rid: u128,
    ts: i64,
) -> bool {
    let p = s.current->0;
    let tid = parsed_id(track_id);
    let cid = parsed_id(clip_id);
    let c = located_clip(p, tid, cid);
    &&& info == clip_info_of(trimmed(c, start_trim, end_trim))
    &&& s2 == state_after(
        s,
        with_recalculated_duration(
            with_clip_placed(p, track_pos(p, tid), clip_pos(p, tid, cid), trimmed(c, start_trim, end_trim)),
        ),
    )
    &&& u2 == spec_push(u, with_change(trim_clip_record(rid, ts, track_id, clip_id, c, start_trim, end_trim), s.current, s2.current))
}

/// Cuts `start_trim` microseconds from the start and `end_trim` from the
/// end of the clip `clip_id` of the track `track_id`, moving its in and out
/// points by the same timeline amounts at the clip's speed; the trimmed
/// clip takes its place among the track's clips by its new start time.
/// Records the action and gives the trimmed clip.
pub fn trim_clip(
    track_id: String,
    clip_id: String,
    start_trim: i64,
    end_trim: i64,
    project_state: &mut ProjectState,
    undo_manager: &mut UndoManager,
) -> (r: Result<ClipInfo, TimelineError>)
    ensures
        r is Ok <==> trim_clip_check(track_id@, clip_id@, start_trim, end_trim, old(project_state)@) is None,
        r matches Err(e) ==> Some(e@) == trim_clip_check(track_id@, clip_id@, start_trim, end_trim, old(project_state)@)
            && final(project_state)@ == old(project_state)@ && final(undo_manager)@ == old(undo_manager)@,
        r matches Ok(info) ==> exists|rid: u128, ts: i64| #[trigger] trim_clip_outcome(
            track_id@, clip_id@, start_trim, end_trim, old(project_state)@, old(undo_manager)@,
            final(project_state)@, final(undo_manager)@, info@, rid, ts),
{
    if is_blank(track_id.as_str()) || is_blank(clip_id.as_str()) {
        return Err(error_text("validation", "Track ID and Clip ID must not be empty."));
    }
    if start_trim < 0 {
        return Err(error_text("validation", "Start trim must not be negative."));
    }
    if end_trim < 0 {
        return Err(error_text("validation", "End trim must not be negative."));
    }
    let mut project = match project_state.get_current_project() {
        Some(p) => p,
        None => {
            return Err(error_text("no_active_project", "No active project."));
        },
    };
    let missing = cat3("Clip '", clip_id.as_str(), "' not found.");
    let (ti, ci) = match locate(track_id.as_str(), clip_id.as_str(), &project, missing) {
        Ok(pos) => pos,
        Err(e) => {
            return Err(e);
        },
    };
    let mut clip = project.timeline.tracks[ti].clips[ci].deep_copy();
    let ghost c = clip@;
    let remaining = clip.duration as i128 - start_trim as i128 - end_trim as i128;
    if remaining <= 0 {
        let message = cat3(
            "Trim values would result in zero or negative duration (remaining: ",
            crate::text::wide_text(remaining).as_str(),
            " microseconds).",
        );
        return Err(timeline_error("validation", message));
    }
    let original_duration = clip.duration;
    let original_in_point = clip.in_point;
    let original_out_point = clip.out_point;
    clip.start_time = clamp_i128(clip.start_time as i128 + start_trim as i128);
    clip.duration = remaining as i64;
    clip.in_point = shifted(clip.in_point, start_trim, clip.speed, false);
    clip.out_point = shifted(clip.out_point, end_trim, clip.speed, true);
    assert(clip@ == trimmed(c, start_trim, end_trim));
    let result = clip_to_info(&clip);
    replace_clip_placed(&mut project, ti, ci, clip);
    let rid = uuid_new_v4();
    let ts = now_millis();
    let mut members: Vec<(String, JsonValue)> = Vec::new();
    members.push(str_member("clip_id", clip_id.clone()));
    members.push(str_member("track_id", track_id.clone()));
    members.push(int_member("original_duration", original_duration));
    members.push(int_member("original_in_point", original_in_point));
    members.push(int_member("original_out_point", original_out_point));
    members.push(int_member("start_trim", start_trim));
    members.push(int_member("end_trim", end_trim));
    let ghost mv = crate::json::members_view(members@);
    let record = ActionRecord {
        id: rid,
        action_type: String::from_str("trim_clip"),
        description: cat3("Trimmed clip '", clip_id.as_str(), "'"),
        timestamp: ts,
        data: json_object(members),
        change: None,
    };
    assert(record@ == trim_clip_record(rid, ts, track_id@, clip_id@, c, start_trim, end_trim)) by {
        assert(mv =~= seq![
            ("clip_id"@, Json::Str(clip_id@)),
            ("track_id"@, Json::Str(track_id@)),
            ("original_duration"@, Json::Int(c.duration)),
            ("original_in_point"@, Json::Int(c.in_point)),
            ("original_out_point"@, Json::Int(c.out_point)),
            ("start_trim"@, Json::Int(start_trim)),
            ("end_trim"@, Json::Int(end_trim)),
        ]);
    }
    recalculate_timeline_duration(&mut project);
    record_edit(project_state, undo_manager, record, project);
    assert(trim_clip_outcome(track_id@, clip_id@, start_trim, end_trim, old(project_state)@, old(undo_manager)@,
        project_state@, undo_manager@, result@, rid, ts));
    Ok(result)
}


// ---------------------------------------------------------------------------
// get_timeline_state
// ---------------------------------------------------------------------------

/// How long a transition listed in the timeline state lasts, in
/// microseconds (half a second).
pub const DEFAULT_TRANSITION_DURATION: i64 = 500_000;

pub struct TimelineStateView {
    pub tracks: Seq<TrackInfoView>,
    pub clips: Seq<ClipInfoView>,
    pub transitions: Seq<TransitionInfoView>,
    pub duration: i64,
    pub cursor_position: i64,
}

impl View for TimelineState {
    type V = TimelineStateView;

    open spec fn view(&self) -> TimelineStateView {
        TimelineStateView {
            tracks: views(self.tracks@),
            clips: views(self.clips@),
            transitions: views(self.transitions@),
            duration: self.duration,
            cursor_position: self.cursor_position,
        }
    }
}

/// The views of the tracks, each with its position as its order.
pub open spec fn track_infos(tracks: Seq<TrackView>) -> Seq<TrackInfoView> {
    Seq::new(tracks.len(), |i: int| track_info_of(tracks[i], i as u32))
}

/// The clips of all tracks, track after track.
pub open spec fn flat_clips(tracks: Seq<TrackView>) -> Seq<ClipView>
    decreases tracks.len(),
{
    if tracks.len() == 0 {
        Seq::empty()
    } else {
        flat_clips(tracks.drop_last()) + tracks.last().clips
    }
}

/// The views of clips in the timeline state.
pub open spec fn clip_infos(clips: Seq<ClipView>) -> Seq<ClipInfoView> {
    clips.map_values(|c: ClipView| clip_info_of(c))
}

/// How the timeline state lists the transition `e` of the clip `c`: by its
/// own id, from `c`, with no target clip and the default length.
pub open spec fn transition_listing(c: ClipView, e: ClipTransitionView) -> TransitionInfoView {
    TransitionInfoView {
        id: hyphenated(e.id),
        from_clip_id: hyphenated(c.id),
        to_clip_id: Seq::empty(),
        transition_type: e.name,
        duration: DEFAULT_TRANSITION_DURATION,
    }
}

/// The listings of the transitions of `c`, in its order.
pub open spec fn clip_listings(c: ClipView) -> Seq<TransitionInfoView> {
    c.transitions.map_values(|e: ClipTransitionView| transition_listing(c, e))
}

/// The listings of the transitions of the clips, clip after clip.
pub open spec fn listed_transitions(clips: Seq<ClipView>) -> Seq<TransitionInfoView>
    decreases clips.len(),
{
    if clips.len() == 0 {
        Seq::empty()
    } else {
        listed_transitions(clips.drop_last()) + clip_listings(clips.last())
    }
}

fn track_infos_of(tracks: &Vec<Track>) -> (r: Vec<TrackInfo>)
    ensures
        views(r@) == track_infos(views(tracks@)),
{
    let mut out: Vec<TrackInfo> = Vec::new();
    let mut i: usize = 0;
    while i < tracks.len()
        invariant
            i <= tracks.len(),
            views(out@) == track_infos(views(tracks@)).take(i as int),
        decreases tracks.len() - i,
    {
        let info = track_to_info(&tracks[i], i as u32);
        proof {
            lemma_views_push(out@, info);
        }
        out.push(info);
        assert(track_infos(views(tracks@)).take(i + 1) =~= track_infos(views(tracks@)).take(i as int).push(
            track_info_of(views(tracks@)[i as int], i as u32),
        ));
        i = i + 1;
    }
    assert(track_infos(views(tracks@)).take(i as int) =~= track_infos(views(tracks@)));
    out
}

fn clip_infos_of(tracks: &Vec<Track>) -> (r: Vec<ClipInfo>)
    ensures
        views(r@) == clip_infos(flat_clips(views(tracks@))),
{
    let ghost tv = views(tracks@);
    let mut out: Vec<ClipInfo> = Vec::new();
    let mut i: usize = 0;
    while i < tracks.len()
        invariant
            i <= tracks.len(),
            tv == views(tracks@),
            views(out@) == clip_infos(flat_clips(tv.take(i as int))),
        decreases tracks.len() - i,
    {
        let clips = &tracks[i].clips;
        let ghost before = flat_clips(tv.take(i as int));
        let mut j: usize = 0;
        while j < clips.len()
            invariant
                j <= clips.len(),
                views(clips@) == tv[i as int].clips,
                views(out@) == clip_infos(before + tv[i as int].clips.take(j as int)),
            decreases clips.len() - j,
        {
            let info = clip_to_info(&clips[j]);
            proof {
                lemma_views_push(out@, info);
                assert(before + tv[i as int].clips.take(j + 1) =~= (before + tv[i as int].clips.take(
                    j as int,
                )).push(tv[i as int].clips[j as int]));
                assert(clip_infos((before + tv[i as int].clips.take(j as int)).push(tv[i as int].clips[j as int]))
                    =~= clip_infos(before + tv[i as int].clips.take(j as int)).push(info@));
            }
            out.push(info);
            j = j + 1;
        }
        assert(tv.take(i + 1).drop_last() =~= tv.take(i as int));
        assert(tv[i as int].clips.take(j as int) =~= tv[i as int].clips);
        i = i + 1;
    }
    assert(tv.take(i as int) =~= tv);
    out
}

/// Lists the transitions of `c` after those already in `out`.
fn list_clip_transitions(c: &Clip, out: &mut Vec<TransitionInfo>)
    ensures
        views(final(out)@) == views(old(out)@) + clip_listings(c@),
{
    let ghost start = views(out@);
    let ghost listed = clip_listings(c@);
    let from = uuid_text(c.id);
    let mut k: usize = 0;
    while k < c.transitions.len()
        invariant
            k <= c.transitions.len(),
            from@ == hyphenated(c.id),
            listed == clip_listings(c@),
            views(out@) == start + listed.take(k as int),
        decreases c.transitions.len() - k,
    {
        let e = &c.transitions[k];
        let t = TransitionInfo {
            id: uuid_text(e.id),
            from_clip_id: from.clone(),
            to_clip_id: String::new(),
            transition_type: e.name.clone(),
            duration: DEFAULT_TRANSITION_DURATION,
        };
        assert(t@ == listed[k as int]);
        proof {
            lemma_views_push(out@, t);
            assert(listed.take(k + 1) =~= listed.take(k as int).push(listed[k as int]));
        }
        out.push(t);
        k = k + 1;
    }
    assert(listed.take(k as int) =~= listed);
}

fn transitions_of(tracks: &Vec<Track>) -> (r: Vec<TransitionInfo>)
    ensures
        views(r@) == listed_transitions(flat_clips(views(tracks@))),
{
    let ghost tv = views(tracks@);
    let mut out: Vec<TransitionInfo> = Vec::new();
    let mut i: usize = 0;
    while i < tracks.len()
        invariant
            i <= tracks.len(),
            tv == views(tracks@),
            views(out@) == listed_transitions(flat_clips(tv.take(i as int))),
        decreases tracks.len() - i,
    {
        let clips = &tracks[i].clips;
        let ghost before = flat_clips(tv.take(i as int));
        let mut j: usize = 0;
        while j < clips.len()
            invariant
                j <= clips.len(),
                views(clips@) == tv[i as int].clips,
                views(out@) == listed_transitions(before + tv[i as int].clips.take(j as int)),
            decreases clips.len() - j,
        {
            let ghost acc = before + tv[i as int].clips.take(j as int);
            list_clip_transitions(&clips[j], &mut out);
            j = j + 1;
            assert((before + tv[i as int].clips.take(j as int)).drop_last() =~= acc);
        }
        assert(tv.take(i + 1).drop_last() =~= tv.take(i as int));
        assert(tv[i as int].clips.take(j as int) =~= tv[i as int].clips);
        i = i + 1;
    }
    assert(tv.take(i as int) =~= tv);
    out
}

/// The timeline of the open project as the timeline view shows it.
pub fn get_timeline_state(project_state: &ProjectState) -> (r: Result<TimelineState, TimelineError>)
    ensures
        r is Err <==> project_state@.current is None,
        r matches Err(e) ==> e@ == error_view("no_active_project"@, "No active project."@),
        r matches Ok(st) ==> {
            let tracks = project_state@.current->0.timeline.tracks;
            &&& st@.tracks == track_infos(tracks)
            &&& st@.clips == clip_infos(flat_clips(tracks))
            &&& st@.transitions == listed_transitions(flat_clips(tracks))
            &&& st@.duration == project_state@.current->0.timeline.duration
            &&& st@.cursor_position == 0
        },
{
    let project = match project_state.get_current_project() {
        Some(p) => p,
        None => {
            return Err(error_text("no_active_project", "No active project."));
        },
    };
    let tracks = track_infos_of(&project.timeline.tracks);
    let clips = clip_infos_of(&project.timeline.tracks);
    let transitions = transitions_of(&project.timeline.tracks);
    let st = TimelineState {
        tracks,
        clips,
        transitions,
        duration: project.timeline.duration,
        cursor_position: 0,
    };
    Ok(st)
}


// ---------------------------------------------------------------------------
// add_track
// ---------------------------------------------------------------------------

/// Whether `a` holds the same text as `b`.
fn same_text(a: &String, b: &str) -> (r: bool)
    ensures
        r == (a@ == b@),
{
    a.eq(&String::from_str(b))
}

/// The track type a name stands for ("video", "audio" or "text").
pub open spec fn track_type_named(name: Seq<char>) -> TrackType {
    if name == "audio"@ {
        TrackType::Audio
    } else if name == "text"@ {
        TrackType::Text
    } else {
        TrackType::Video
    }
}

/// Whether `name` names a track type.
pub open spec fn is_track_type_name(name: Seq<char>) -> bool {
    name == "video"@ || name == "audio"@ || name == "text"@
}

/// Why adding a track fails, if it does.
pub open spec fn add_track_check(track_type: Seq<char>, name: Seq<char>, s: ProjectStateView) -> Option<
    ErrorView,
> {
    if !is_track_type_name(track_type) {
        Some(
            error_view(
                "validation"@,
                "Track type must be 'video', 'audio', or 'text', got '"@ + track_type + "'."@,
            ),
        )
    } else if blank(name) {
        Some(error_view("validation"@, "Track name must not be empty."@))
    } else if s.current is None {
        Some(error_view("no_active_project"@, "No active project."@))
    } else {
        None
    }
}

/// A new empty, unlocked and visible track at full volume.
pub open spec fn new_track_view(id: u128, track_type: Seq<char>, name: Seq<char>) -> TrackView {
    TrackView {
        id,
        track_type: track_type_named(track_type),
        name,
        clips: Seq::empty(),
        locked: false,
        visible: true,
        volume: 1000,
    }
}

/// `p` with its tracks replaced by `tracks`.
pub open spec fn with_tracks(p: ProjectView, tracks: Seq<TrackView>) -> ProjectView {
    ProjectView { timeline: crate::project::TimelineView { tracks, ..p.timeline }, ..p }
}

pub open spec fn add_track_record(
    rid: u128,
    ts: i64,
    tid: u128,
    track_type: Seq<char>,
    name: Seq<char>,
) -> ActionRecordView {
    record_view(
        rid,
        "add_track"@,
        "Added track '"@ + name + "' ("@ + track_type + ")"@,
        ts,
        Json::Object(
            seq![
                ("track_id"@, Json::Str(hyphenated(tid))),
                ("track_type"@, Json::Str(track_type)),
                ("name"@, Json::Str(name)),
            ],
        ),
    )
}

pub open spec fn add_track_outcome(
    track_type: Seq<char>,
    name: Seq<char>,
    s: ProjectStateView,
    u: UndoView,
    s2: ProjectStateView,
    u2: UndoView,
    info: TrackInfoView,
    tid: u128,
    rid: u128,
    ts: i64,
) -> bool {
    let p = s.current->0;
    let t = new_track_view(tid, track_type, name);
    &&& info == track_info_of(t, p.timeline.tracks.len() as u32)
    &&& s2 == state_after(s, with_tracks(p, p.timeline.tracks.push(t)))
    &&& u2 == spec_push(u, with_change(add_track_record(rid, ts, tid, track_type, name), s.current, s2.current))
}

/// Adds an empty track of type `track_type` ("video", "audio" or "text")
/// named `name` after the last track, and records the action.
pub fn add_track(
    track_type: String,
    name: String,
    project_state: &mut ProjectState,
    undo_manager: &mut UndoManager,
) -> (r: Result<TrackInfo, TimelineError>)
    ensures
        r is Ok <==> add_track_check(track_type@, name@, old(project_state)@) is None,
        r matches Err(e) ==> Some(e@) == add_track_check(track_type@, name@, old(project_state)@)
            && final(project_state)@ == old(project_state)@ && final(undo_manager)@ == old(undo_manager)@,
        r matches Ok(info) ==> exists|tid: u128, rid: u128, ts: i64| #[trigger] add_track_outcome(
            track_type@, name@, old(project_state)@, old(undo_manager)@,
            final(project_state)@, final(undo_manager)@, info@, tid, rid, ts),
{
    let is_video = same_text(&track_type, "video");
    let is_audio = same_text(&track_type, "audio");
    let is_text = same_text(&track_type, "text");
    if !is_video && !is_audio && !is_text {
        return Err(
            timeline_error(
                "validation",
                cat3("Track type must be 'video', 'audio', or 'text', got '", track_type.as_str(), "'."),
            ),
        );
    }
    if is_blank(name.as_str()) {
        return Err(error_text("validation", "Track name must not be empty."));
    }
    let mut project = match project_state.get_current_project() {
        Some(p) => p,
        None => {
            return Err(error_text("no_active_project", "No active project."));
        },
    };
    let ghost p0 = project@;
    let kind = if is_audio {
        TrackType::Audio
    } else if is_text {
        TrackType::Text
    } else {
        TrackType::Video
    };
    let tid = uuid_new_v4();
    let track = Track {
        id: tid,
        track_type: kind,
        name: name.clone(),
        clips: Vec::new(),
        locked: false,
        visible: true,
        volume: 1000,
    };
    assert(track@.clips =~= Seq::empty());
    assert(track@ == new_track_view(tid, track_type@, name@));
    let order = project.timeline.tracks.len() as u32;
    let info = track_to_info(&track, order);
    proof {
        lemma_views_push(project.timeline.tracks@, track);
    }
    project.timeline.tracks.push(track);
    assert(project@ == with_tracks(p0, p0.timeline.tracks.push(new_track_view(tid, track_type@, name@))));
    let rid = uuid_new_v4();
    let ts = now_millis();
    let mut members: Vec<(String, JsonValue)> = Vec::new();
    members.push(str_member("track_id", info.id.clone()));
    members.push(str_member("track_type", track_type.clone()));
    members.push(str_member("name", name.clone()));
    let ghost mv = crate::json::members_view(members@);
    let record = ActionRecord {
        id: rid,
        action_type: String::from_str("add_track"),
        description: cat(
            cat3("Added track '", name.as_str(), "' (").as_str(),
            cat(track_type.as_str(), ")").as_str(),
        ),
        timestamp: ts,
        data: json_object(members),
        change: None,
    };
    assert(record@ == add_track_record(rid, ts, tid, track_type@, name@)) by {
        assert(mv =~= seq![
            ("track_id"@, Json::Str(hyphenated(tid))),
            ("track_type"@, Json::Str(track_type@)),
            ("name"@, Json::Str(name@)),
        ]);
        assert(record@.description =~= "Added track '"@ + name@ + "' ("@ + track_type@ + ")"@);
    }
    record_edit(project_state, undo_manager, record, project);
    assert(add_track_outcome(track_type@, name@, old(project_state)@, old(undo_manager)@,
        project_state@, undo_manager@, info@, tid, rid, ts));
    let ghost iv = info@;
    let r: Result<TrackInfo, TimelineError> = Ok(info);
    assert(r->Ok_0@ == iv);
    r
}

// ---------------------------------------------------------------------------
// remove_track
// ---------------------------------------------------------------------------

/// Why removing a track fails, if it does.
pub open spec fn remove_track_check(track_id: Seq<char>, s: ProjectStateView) -> Option<ErrorView> {
    if blank(track_id) {
        Some(error_view("validation"@, "Track ID must not be empty."@))
    } else if s.current is None {
        Some(error_view("no_active_project"@, "No active project."@))
    } else {
        match spec_uuid_parse(track_id) {
            Err(e) => Some(error_view("invalid_track_id"@, "Invalid track ID format: "@ + e)),
            Ok(tid) => {
                if !any(s.current->0.timeline.tracks, track_has_id(tid)) {
                    Some(error_view("track_not_found"@, "Track '"@ + track_id + "' not found."@))
                } else {
                    None
                }
            },
        }
    }
}

pub open spec fn remove_track_record(rid: u128, ts: i64, track_id: Seq<char>, t: TrackView) -> ActionRecordView {
    record_view(
        rid,
        "remove_track"@,
        "Removed track '"@ + t.name + "'"@,
        ts,
        Json::Object(
            seq![
                ("track_id"@, Json::Str(track_id)),
                ("track_type"@, Json::Str(track_type_name(t.track_type))),
                ("name"@, Json::Str(t.name)),
            ],
        ),
    )
}

pub open spec fn remove_track_outcome(
    track_id: Seq<char>,
    s: ProjectStateView,
    u: UndoView,
    s2: ProjectStateView,
    u2: UndoView,
    rid: u128,
    ts: i64,
) -> bool {
    let p = s.current->0;
    let ti = track_pos(p, parsed_id(track_id));
    &&& s2 == state_after(
        s,
        with_recalculated_duration(with_tracks(p, p.timeline.tracks.remove(ti))),
    )
    &&& u2 == spec_push(u, with_change(remove_track_record(rid, ts, track_id, p.timeline.tracks[ti]), s.current, s2.current))
}

/// Removes the track `track_id` with its clips, recomputes the timeline
/// length and records the action.
pub fn remove_track(
    track_id: String,
    project_state: &mut ProjectState,
    undo_manager: &mut UndoManager,
) -> (r: Result<bool, TimelineError>)
    ensures
        r is Ok <==> remove_track_check(track_id@, old(project_state)@) is None,
        r matches Ok(b) ==> b,
        r matches Err(e) ==> Some(e@) == remove_track_check(track_id@, old(project_state)@)
            && final(project_state)@ == old(project_state)@ && final(undo_manager)@ == old(undo_manager)@,
        r is Ok ==> exists|rid: u128, ts: i64| #[trigger] remove_track_outcome(
            track_id@, old(project_state)@, old(undo_manager)@,
            final(project_state)@, final(undo_manager)@, rid, ts),
{
    if is_blank(track_id.as_str()) {
        return Err(error_text("validation", "Track ID must not be empty."));
    }
    let mut project = match project_state.get_current_project() {
        Some(p) => p,
        None => {
            return Err(error_text("no_active_project", "No active project."));
        },
    };
    let tid = match uuid_parse(track_id.as_str()) {
        Ok(v) => v,
        Err(e) => {
            return Err(timeline_error("invalid_track_id", cat("Invalid track ID format: ", e.as_str())));
        },
    };
    let ti = match find_track(&project.timeline.tracks, tid) {
        Some(i) => i,
        None => {
            return Err(timeline_error("track_not_found", cat3("Track '", track_id.as_str(), "' not found.")));
        },
    };
    proof {
        lemma_first(views(project.timeline.tracks@), track_has_id(tid), ti as int);
    }
    let ghost p0 = project@;
    let removed = project.timeline.tracks.remove(ti);
    assert(views(project.timeline.tracks@) =~= p0.timeline.tracks.remove(ti as int));
    assert(removed@ == p0.timeline.tracks[ti as int]);
    let rid = uuid_new_v4();
    let ts = now_millis();
    let mut members: Vec<(String, JsonValue)> = Vec::new();
    members.push(str_member("track_id", track_id.clone()));
    members.push(str_member("track_type", track_type_text(removed.track_type)));
    members.push(str_member("name", removed.name.clone()));
    let ghost mv = crate::json::members_view(members@);
    let record = ActionRecord {
        id: rid,
        action_type: String::from_str("remove_track"),
        description: cat3("Removed track '", removed.name.as_str(), "'"),
        timestamp: ts,
        data: json_object(members),
        change: None,
    };
    assert(record@ == remove_track_record(rid, ts, track_id@, removed@)) by {
        assert(mv =~= seq![
            ("track_id"@, Json::Str(track_id@)),
            ("track_type"@, Json::Str(track_type_name(removed@.track_type))),
            ("name"@, Json::Str(removed@.name)),
        ]);
    }
    recalculate_timeline_duration(&mut project);
    record_edit(project_state, undo_manager, record, project);
    assert(remove_track_outcome(track_id@, old(project_state)@, old(undo_manager)@,
        project_state@, undo_manager@, rid, ts));
    Ok(true)
}


// ---------------------------------------------------------------------------
// add_transition
// ---------------------------------------------------------------------------

/// Whether some track holds a clip with id `id`.
pub open spec fn clip_on_timeline(tracks: Seq<TrackView>, id: u128) -> bool {
    exists|i: int| 0 <= i < tracks.len() && #[trigger] any(tracks[i].clips, clip_has_id(id))
}

/// Why adding a transition fails, if it does.
pub open spec fn add_transition_check(
    from_clip: Seq<char>,
    to_clip: Seq<char>,
    transition_type: Seq<char>,
    duration: i64,
    s: ProjectStateView,
) -> Option<ErrorView> {
    if blank(from_clip) || blank(to_clip) {
        Some(error_view("validation"@, "Clip IDs must not be empty."@))
    } else if blank(transition_type) {
        Some(error_view("validation"@, "Transition type must not be empty."@))
    } else if duration <= 0 {
        Some(error_view("validation"@, "Transition duration must be positive."@))
    } else if s.current is None {
        Some(error_view("no_active_project"@, "No active project."@))
    } else {
        match spec_uuid_parse(from_clip) {
            Err(e) => Some(error_view("invalid_from_clip_id"@, "Invalid from-clip ID format: "@ + e)),
            Ok(fid) => match spec_uuid_parse(to_clip) {
                Err(e) => Some(error_view("invalid_to_clip_id"@, "Invalid to-clip ID format: "@ + e)),
                Ok(tid) => {
                    let tracks = s.current->0.timeline.tracks;
                    if !clip_on_timeline(tracks, fid) {
                        Some(error_view("clip_not_found"@, "From-clip '"@ + from_clip + "' not found."@))
                    } else if !clip_on_timeline(tracks, tid) {
                        Some(error_view("clip_not_found"@, "To-clip '"@ + to_clip + "' not found."@))
                    } else {
                        None
                    }
                },
            },
        }
    }
}

/// `c` with the transition `name`, of id `trid`, added when its id is `fid`.
pub open spec fn named_on(c: ClipView, fid: u128, trid: u128, name: Seq<char>) -> ClipView {
    if c.id == fid {
        ClipView { transitions: c.transitions.push(ClipTransitionView { id: trid, name }), ..c }
    } else {
        c
    }
}

/// The clips with the transition `name`, of id `trid`, added to each clip
/// with id `fid`.
pub open spec fn clips_named(clips: Seq<ClipView>, fid: u128, trid: u128, name: Seq<char>) -> Seq<ClipView> {
    clips.map_values(|c: ClipView| named_on(c, fid, trid, name))
}

/// The tracks with the transition `name`, of id `trid`, added to each clip
/// with id `fid`.
pub open spec fn tracks_named(tracks: Seq<TrackView>, fid: u128, trid: u128, name: Seq<char>) -> Seq<TrackView> {
    tracks.map_values(|t: TrackView| TrackView { clips: clips_named(t.clips, fid, trid, name), ..t })
}

pub open spec fn add_transition_record(
    rid: u128,
    ts: i64,
    trid: u128,
    from_clip: Seq<char>,
    to_clip: Seq<char>,
    transition_type: Seq<char>,
    duration: i64,
) -> ActionRecordView {
    record_view(
        rid,
        "add_transition"@,
        "Added '"@ + transition_type + "' transition"@,
        ts,
        Json::Object(
            seq![
                ("transition_id"@, Json::Str(hyphenated(trid))),
                ("from_clip"@, Json::Str(from_clip)),
                ("to_clip"@, Json::Str(to_clip)),
                ("transition_type"@, Json::Str(transition_type)),
                ("duration"@, Json::Int(duration)),
            ],
        ),
    )
}

pub open spec fn add_transition_outcome(
    from_clip: Seq<char>,
    to_clip: Seq<char>,
    transition_type: Seq<char>,
    duration: i64,
    s: ProjectStateView,
    u: UndoView,
    s2: ProjectStateView,
    u2: UndoView,
    info: TransitionInfoView,
    trid: u128,
    rid: u128,
    ts: i64,
) -> bool {
    let p = s.current->0;
    &&& info == TransitionInfoView {
        id: hyphenated(trid),
        from_clip_id: from_clip,
        to_clip_id: to_clip,
        transition_type,
        duration,
    }
    &&& s2 == state_after(
        s,
        with_tracks(p, tracks_named(p.timeline.tracks, parsed_id(from_clip), trid, transition_type)),
    )
    &&& u2 == spec_push(
        u, with_change(add_transition_record(rid, ts, trid, from_clip, to_clip, transition_type, duration), s.current, s2.current))
}

/// The clips with `name`, of id `trid`, added to those with id `fid`, and
/// whether some clip has id `fid` and some has id `tid`.
fn name_on_clips(clips: &Vec<Clip>, fid: u128, tid: u128, trid: u128, name: &String) -> (r: (Vec<Clip>, bool, bool))
    ensures
        views(r.0@) == clips_named(views(clips@), fid, trid, name@),
        r.1 == any(views(clips@), clip_has_id(fid)),
        r.2 == any(views(clips@), clip_has_id(tid)),
{
    let ghost cv = views(clips@);
    let mut out: Vec<Clip> = Vec::new();
    let mut from_found = false;
    let mut to_found = false;
    let mut j: usize = 0;
    while j < clips.len()
        invariant
            j <= clips.len(),
            cv == views(clips@),
            views(out@) == clips_named(cv, fid, trid, name@).take(j as int),
            from_found <==> exists|b: int| 0 <= b < j && #[trigger] cv[b].id == fid,
            to_found <==> exists|b: int| 0 <= b < j && #[trigger] cv[b].id == tid,
        decreases clips.len() - j,
    {
        let mut c = clips[j].deep_copy();
        if c.id == fid {
            let ghost before = c@;
            let added = ClipTransition { id: trid, name: name.clone() };
            proof {
                lemma_views_push(c.transitions@, added);
            }
            c.transitions.push(added);
            assert(c@ == named_on(before, fid, trid, name@)) by {
                assert(c@.transitions =~= before.transitions.push(ClipTransitionView { id: trid, name: name@ }));
            }
            from_found = true;
        }
        if c.id == tid {
            to_found = true;
        }
        assert(c@ == named_on(cv[j as int], fid, trid, name@));
        proof {
            lemma_views_push(out@, c);
        }
        out.push(c);
        assert(clips_named(cv, fid, trid, name@).take(j + 1) =~= clips_named(cv, fid, trid, name@).take(j as int).push(
            named_on(cv[j as int], fid, trid, name@),
        ));
        j = j + 1;
    }
    assert(clips_named(cv, fid, trid, name@).take(j as int) =~= clips_named(cv, fid, trid, name@));
    assert(from_found == any(cv, clip_has_id(fid))) by {
        if from_found {
            let b = choose|b: int| 0 <= b < j && #[trigger] cv[b].id == fid;
            assert(clip_has_id(fid)(cv[b]));
        }
        if any(cv, clip_has_id(fid)) {
            let b = choose|b: int| 0 <= b < cv.len() && #[trigger] clip_has_id(fid)(cv[b]);
            assert(cv[b].id == fid);
        }
    }
    assert(to_found == any(cv, clip_has_id(tid))) by {
        if to_found {
            let b = choose|b: int| 0 <= b < j && #[trigger] cv[b].id == tid;
            assert(clip_has_id(tid)(cv[b]));
        }
        if any(cv, clip_has_id(tid)) {
            let b = choose|b: int| 0 <= b < cv.len() && #[trigger] clip_has_id(tid)(cv[b]);
            assert(cv[b].id == tid);
        }
    }
    (out, from_found, to_found)
}

/// The tracks with `name`, of id `trid`, added to the clips with id `fid`,
/// and whether some clip has id `fid` and some has id `tid`.
fn name_on_tracks(tracks: &Vec<Track>, fid: u128, tid: u128, trid: u128, name: &String) -> (r: (Vec<Track>, bool, bool))
    ensures
        views(r.0@) == tracks_named(views(tracks@), fid, trid, name@),
        r.1 == clip_on_timeline(views(tracks@), fid),
        r.2 == clip_on_timeline(views(tracks@), tid),
{
    let ghost tv = views(tracks@);
    let mut out: Vec<Track> = Vec::new();
    let mut from_found = false;
    let mut to_found = false;
    let mut i: usize = 0;
    while i < tracks.len()
        invariant
            i <= tracks.len(),
            tv == views(tracks@),
            views(out@) == tracks_named(tv, fid, trid, name@).take(i as int),
            from_found <==> exists|a: int| 0 <= a < i && #[trigger] any(tv[a].clips, clip_has_id(fid)),
            to_found <==> exists|a: int| 0 <= a < i && #[trigger] any(tv[a].clips, clip_has_id(tid)),
        decreases tracks.len() - i,
    {
        let t = &tracks[i];
        let (clips, f, g) = name_on_clips(&t.clips, fid, tid, trid, name);
        let nt = Track {
            id: t.id,
            track_type: t.track_type,
            name: t.name.clone(),
            clips,
            locked: t.locked,
            visible: t.visible,
            volume: t.volume,
        };
        assert(nt@ == tracks_named(tv, fid, trid, name@)[i as int]);
        from_found = from_found || f;
        to_found = to_found || g;
        proof {
            lemma_views_push(out@, nt);
        }
        out.push(nt);
        assert(tracks_named(tv, fid, trid, name@).take(i + 1) =~= tracks_named(tv, fid, trid, name@).take(i as int).push(
            tracks_named(tv, fid, trid, name@)[i as int],
        ));
        i = i + 1;
    }
    assert(tracks_named(tv, fid, trid, name@).take(i as int) =~= tracks_named(tv, fid, trid, name@));
    (out, from_found, to_found)
}

/// Adds the transition `transition_type`, under a new id, to every clip
/// with id `from_clip`, once both clips are found on the timeline, and
/// records the action. The transition lasts `duration` microseconds.
pub fn add_transition(
    from_clip: String,
    to_clip: String,
    transition_type: String,
    duration: i64,
    project_state: &mut ProjectState,
    undo_manager: &mut UndoManager,
) -> (r: Result<TransitionInfo, TimelineError>)
    ensures
        r is Ok <==> add_transition_check(from_clip@, to_clip@, transition_type@, duration, old(project_state)@) is None,
        r matches Err(e) ==> Some(e@) == add_transition_check(from_clip@, to_clip@, transition_type@, duration, old(project_state)@)
            && final(project_state)@ == old(project_state)@ && final(undo_manager)@ == old(undo_manager)@,
        r matches Ok(info) ==> exists|trid: u128, rid: u128, ts: i64| #[trigger] add_transition_outcome(
            from_clip@, to_clip@, transition_type@, duration, old(project_state)@, old(undo_manager)@,
            final(project_state)@, final(undo_manager)@, info@, trid, rid, ts),
{
    if is_blank(from_clip.as_str()) || is_blank(to_clip.as_str()) {
        return Err(error_text("validation", "Clip IDs must not be empty."));
    }
    if is_blank(transition_type.as_str()) {
        return Err(error_text("validation", "Transition type must not be empty."));
    }
    if duration <= 0 {
        return Err(error_text("validation", "Transition duration must be positive."));
    }
    let mut project = match project_state.get_current_project() {
        Some(p) => p,
        None => {
            return Err(error_text("no_active_project", "No active project."));
        },
    };
    let fid = match uuid_parse(from_clip.as_str()) {
        Ok(v) => v,
        Err(e) => {
            return Err(timeline_error("invalid_from_clip_id", cat("Invalid from-clip ID format: ", e.as_str())));
        },
    };
    let tid = match uuid_parse(to_clip.as_str()) {
        Ok(v) => v,
        Err(e) => {
            return Err(timeline_error("invalid_to_clip_id", cat("Invalid to-clip ID format: ", e.as_str())));
        },
    };
    let ghost p0 = project@;
    let trid = uuid_new_v4();
    let (tracks, from_found, to_found) = name_on_tracks(&project.timeline.tracks, fid, tid, trid, &transition_type);
    if !from_found {
        return Err(timeline_error("clip_not_found", cat3("From-clip '", from_clip.as_str(), "' not found.")));
    }
    if !to_found {
        return Err(timeline_error("clip_not_found", cat3("To-clip '", to_clip.as_str(), "' not found.")));
    }
    project.timeline.tracks = tracks;
    assert(project@ == with_tracks(p0, tracks_named(p0.timeline.tracks, fid, trid, transition_type@)));
    let transition_id = uuid_text(trid);
    let info = TransitionInfo {
        id: transition_id.clone(),
        from_clip_id: from_clip.clone(),
        to_clip_id: to_clip.clone(),
        transition_type: transition_type.clone(),
        duration,
    };
    let rid = uuid_new_v4();
    let ts = now_millis();
    let mut members: Vec<(String, JsonValue)> = Vec::new();
    members.push(str_member("transition_id", transition_id));
    members.push(str_member("from_clip", from_clip.clone()));
    members.push(str_member("to_clip", to_clip.clone()));
    members.push(str_member("transition_type", transition_type.clone()));
    members.push(int_member("duration", duration));
    let ghost mv = crate::json::members_view(members@);
    let record = ActionRecord {
        id: rid,
        action_type: String::from_str("add_transition"),
        description: cat3("Added '", transition_type.as_str(), "' transition"),
        timestamp: ts,
        data: json_object(members),
        change: None,
    };
    assert(record@ == add_transition_record(rid, ts, trid, from_clip@, to_clip@, transition_type@, duration)) by {
        assert(mv =~= seq![
            ("transition_id"@, Json::Str(hyphenated(trid))),
            ("from_clip"@, Json::Str(from_clip@)),
            ("to_clip"@, Json::Str(to_clip@)),
            ("transition_type"@, Json::Str(transition_type@)),
            ("duration"@, Json::Int(duration)),
        ]);
    }
    record_edit(project_state, undo_manager, record, project);
    assert(add_transition_outcome(from_clip@, to_clip@, transition_type@, duration, old(project_state)@,
        old(undo_manager)@, project_state@, undo_manager@, info@, trid, rid, ts));
    let ghost iv = info@;
    let r: Result<TransitionInfo, TimelineError> = Ok(info);
    assert(r->Ok_0@ == iv);
    r
}

// ---------------------------------------------------------------------------
// remove_transition
// ---------------------------------------------------------------------------

/// `ts` without the transitions whose id is `id`.
pub open spec fn transitions_without(ts: Seq<ClipTransitionView>, id: u128) -> Seq<ClipTransitionView>
    decreases ts.len(),
{
    if ts.len() == 0 {
        Seq::empty()
    } else {
        let rest = transitions_without(ts.drop_last(), id);
        if ts.last().id == id {
            rest
        } else {
            rest.push(ts.last())
        }
    }
}

/// Whether `c` has a transition with id `id`.
pub open spec fn has_transition(c: ClipView, id: u128) -> bool {
    exists|k: int| 0 <= k < c.transitions.len() && (#[trigger] c.transitions[k]).id == id
}

/// Whether some clip on the tracks has a transition with id `id`.
pub open spec fn transition_on_timeline(tracks: Seq<TrackView>, id: u128) -> bool {
    exists|a: int, b: int|
        0 <= a < tracks.len() && 0 <= b < tracks[a].clips.len() && #[trigger] has_transition(tracks[a].clips[b], id)
}

/// `c` without its transitions of id `id`.
pub open spec fn clip_without_transition(c: ClipView, id: u128) -> ClipView {
    ClipView { transitions: transitions_without(c.transitions, id), ..c }
}

/// The clips without their transitions of id `id`.
pub open spec fn clips_without_transition(clips: Seq<ClipView>, id: u128) -> Seq<ClipView> {
    clips.map_values(|c: ClipView| clip_without_transition(c, id))
}

/// The tracks with every transition of id `id` taken off their clips.
pub open spec fn tracks_without_transition(tracks: Seq<TrackView>, id: u128) -> Seq<TrackView> {
    tracks.map_values(|t: TrackView| TrackView { clips: clips_without_transition(t.clips, id), ..t })
}

/// Why removing a transition fails, if it does.
pub open spec fn remove_transition_check(transition_id: Seq<char>, s: ProjectStateView) -> Option<ErrorView> {
    if blank(transition_id) {
        Some(error_view("validation"@, "Transition ID must not be empty."@))
    } else if s.current is None {
        Some(error_view("no_active_project"@, "No active project."@))
    } else {
        match spec_uuid_parse(transition_id) {
            Err(e) => Some(error_view("invalid_transition_id"@, "Invalid transition ID format: "@ + e)),
            Ok(id) => {
                if !transition_on_timeline(s.current->0.timeline.tracks, id) {
                    Some(error_view("transition_not_found"@, "Transition '"@ + transition_id + "' not found."@))
                } else {
                    None
                }
            },
        }
    }
}

pub open spec fn remove_transition_record(rid: u128, ts: i64, transition_id: Seq<char>) -> ActionRecordView {
    record_view(
        rid,
        "remove_transition"@,
        "Removed transition '"@ + transition_id + "'"@,
        ts,
        Json::Object(seq![("transition_id"@, Json::Str(transition_id))]),
    )
}

pub open spec fn remove_transition_outcome(
    transition_id: Seq<char>,
    s: ProjectStateView,
    u: UndoView,
    s2: ProjectStateView,
    u2: UndoView,
    rid: u128,
    ts: i64,
) -> bool {
    let p = s.current->0;
    &&& s2 == state_after(s, with_tracks(p, tracks_without_transition(p.timeline.tracks, parsed_id(transition_id))))
    &&& u2 == spec_push(u, with_change(remove_transition_record(rid, ts, transition_id), s.current, s2.current))
}

/// The transitions without those of id `id`, and whether there was one.
fn drop_transition(ts: &Vec<ClipTransition>, id: u128) -> (r: (Vec<ClipTransition>, bool))
    ensures
        views(r.0@) == transitions_without(views(ts@), id),
        r.1 == exists|k: int| 0 <= k < ts@.len() && (#[trigger] views(ts@)[k]).id == id,
{
    let ghost tv = views(ts@);
    let mut out: Vec<ClipTransition> = Vec::new();
    let mut found = false;
    let mut i: usize = 0;
    while i < ts.len()
        invariant
            i <= ts.len(),
            tv == views(ts@),
            views(out@) == transitions_without(tv.take(i as int), id),
            found <==> exists|k: int| 0 <= k < i && (#[trigger] tv[k]).id == id,
        decreases ts.len() - i,
    {
        assert(tv.take(i + 1).drop_last() =~= tv.take(i as int));
        assert(tv.take(i + 1).last() == tv[i as int]);
        if ts[i].id == id {
            found = true;
        } else {
            let e = ts[i].deep_copy();
            proof {
                lemma_views_push(out@, e);
            }
            out.push(e);
        }
        i = i + 1;
    }
    assert(tv.take(i as int) =~= tv);
    (out, found)
}

/// The clips without their transitions of id `id`, and whether one had one.
fn clips_without(clips: &Vec<Clip>, id: u128) -> (r: (Vec<Clip>, bool))
    ensures
        views(r.0@) == clips_without_transition(views(clips@), id),
        r.1 == exists|b: int| 0 <= b < clips@.len() && #[trigger] has_transition(views(clips@)[b], id),
{
    let ghost cv = views(clips@);
    let mut out: Vec<Clip> = Vec::new();
    let mut found = false;
    let mut j: usize = 0;
    while j < clips.len()
        invariant
            j <= clips.len(),
            cv == views(clips@),
            views(out@) == clips_without_transition(cv, id).take(j as int),
            found <==> exists|b: int| 0 <= b < j && #[trigger] has_transition(cv[b], id),
        decreases clips.len() - j,
    {
        let mut c = clips[j].deep_copy();
        let (kept, f) = drop_transition(&c.transitions, id);
        assert(f == has_transition(cv[j as int], id)) by {
            if f {
                let k = choose|k: int| 0 <= k < c.transitions@.len() && (#[trigger] views(c.transitions@)[k]).id == id;
                assert(cv[j as int].transitions[k].id == id);
            }
            if has_transition(cv[j as int], id) {
                let k = choose|k: int| 0 <= k < cv[j as int].transitions.len() && (#[trigger] cv[j as int].transitions[k]).id == id;
                assert(views(c.transitions@)[k].id == id);
            }
        }
        c.transitions = kept;
        assert(c@ == clip_without_transition(cv[j as int], id));
        found = found || f;
        proof {
            lemma_views_push(out@, c);
        }
        out.push(c);
        assert(clips_without_transition(cv, id).take(j + 1) =~= clips_without_transition(cv, id).take(j as int).push(
            clip_without_transition(cv[j as int], id),
        ));
        j = j + 1;
    }
    assert(clips_without_transition(cv, id).take(j as int) =~= clips_without_transition(cv, id));
    (out, found)
}

/// The tracks with every transition of id `id` taken off their clips, and
/// whether there was one.
fn tracks_without(tracks: &Vec<Track>, id: u128) -> (r: (Vec<Track>, bool))
    ensures
        views(r.0@) == tracks_without_transition(views(tracks@), id),
        r.1 == transition_on_timeline(views(tracks@), id),
{
    let ghost tv = views(tracks@);
    let mut out: Vec<Track> = Vec::new();
    let mut found = false;
    let mut i: usize = 0;
    while i < tracks.len()
        invariant
            i <= tracks.len(),
            tv == views(tracks@),
            views(out@) == tracks_without_transition(tv, id).take(i as int),
            found <==> exists|a: int, b: int|
                0 <= a < i && 0 <= b < tv[a].clips.len() && #[trigger] has_transition(tv[a].clips[b], id),
        decreases tracks.len() - i,
    {
        let t = &tracks[i];
        let (clips, f) = clips_without(&t.clips, id);
        assert(f == exists|b: int| 0 <= b < tv[i as int].clips.len() && #[trigger] has_transition(tv[i as int].clips[b], id));
        let nt = Track {
            id: t.id,
            track_type: t.track_type,
            name: t.name.clone(),
            clips,
            locked: t.locked,
            visible: t.visible,
            volume: t.volume,
        };
        assert(nt@ == tracks_without_transition(tv, id)[i as int]);
        let ghost was = found;
        found = found || f;
        assert(found <==> exists|a: int, b: int|
            0 <= a < i + 1 && 0 <= b < tv[a].clips.len() && #[trigger] has_transition(tv[a].clips[b], id)) by {
            if f {
                let b = choose|b: int| 0 <= b < tv[i as int].clips.len() && #[trigger] has_transition(tv[i as int].clips[b], id);
                assert(has_transition(tv[i as int].clips[b], id));
            }
            if exists|a: int, b: int|
                0 <= a < i + 1 && 0 <= b < tv[a].clips.len() && #[trigger] has_transition(tv[a].clips[b], id) {
                let (a, b) = choose|a: int, b: int|
                    0 <= a < i + 1 && 0 <= b < tv[a].clips.len() && #[trigger] has_transition(tv[a].clips[b], id);
                if a < i {
                    assert(was);
                } else {
                    assert(has_transition(tv[i as int].clips[b], id));
                }
            }
        }
        proof {
            lemma_views_push(out@, nt);
        }
        out.push(nt);
        assert(tracks_without_transition(tv, id).take(i + 1) =~= tracks_without_transition(tv, id).take(i as int).push(
            tracks_without_transition(tv, id)[i as int],
        ));
        i = i + 1;
    }
    assert(tracks_without_transition(tv, id).take(i as int) =~= tracks_without_transition(tv, id));
    (out, found)
}

/// Removes the transition `transition_id` from the timeline: it is taken
/// off every clip that has it, and the action is recorded; gives `true` on
/// success.
pub fn remove_transition(
    transition_id: String,
    project_state: &mut ProjectState,
    undo_manager: &mut UndoManager,
) -> (r: Result<bool, TimelineError>)
    ensures
        r is Ok <==> remove_transition_check(transition_id@, old(project_state)@) is None,
        r matches Err(e) ==> Some(e@) == remove_transition_check(transition_id@, old(project_state)@)
            && final(project_state)@ == old(project_state)@ && final(undo_manager)@ == old(undo_manager)@,
        forall|u: u128| #[trigger] hyphenated(u) == transition_id@ && old(project_state)@.current is Some ==> (r is Ok
            <==> transition_on_timeline(old(project_state)@.current->0.timeline.tracks, u)),
        r matches Ok(b) ==> b && exists|rid: u128, ts: i64| #[trigger] remove_transition_outcome(
            transition_id@, old(project_state)@, old(undo_manager)@,
            final(project_state)@, final(undo_manager)@, rid, ts),
{
    proof {
        assert forall|u: u128| #[trigger] hyphenated(u) == transition_id@ implies !blank(transition_id@) by {
            crate::ids::lemma_hyphenated_not_blank(u);
        }
    }
    if is_blank(transition_id.as_str()) {
        return Err(error_text("validation", "Transition ID must not be empty."));
    }
    let mut project = match project_state.get_current_project() {
        Some(p) => p,
        None => {
            return Err(error_text("no_active_project", "No active project."));
        },
    };
    let id = match uuid_parse(transition_id.as_str()) {
        Ok(v) => v,
        Err(e) => {
            return Err(timeline_error("invalid_transition_id", cat("Invalid transition ID format: ", e.as_str())));
        },
    };
    let ghost p0 = project@;
    let (tracks, found) = tracks_without(&project.timeline.tracks, id);
    if !found {
        return Err(
            timeline_error("transition_not_found", cat3("Transition '", transition_id.as_str(), "' not found.")),
        );
    }
    project.timeline.tracks = tracks;
    assert(project@ == with_tracks(p0, tracks_without_transition(p0.timeline.tracks, id)));
    let rid = uuid_new_v4();
    let ts = now_millis();
    let mut members: Vec<(String, JsonValue)> = Vec::new();
    members.push(str_member("transition_id", transition_id.clone()));
    let ghost mv = crate::json::members_view(members@);
    let record = ActionRecord {
        id: rid,
        action_type: String::from_str("remove_transition"),
        description: cat3("Removed transition '", transition_id.as_str(), "'"),
        timestamp: ts,
        data: json_object(members),
        change: None,
    };
    assert(record@ == remove_transition_record(rid, ts, transition_id@)) by {
        assert(mv =~= seq![("transition_id"@, Json::Str(transition_id@))]);
    }
    record_edit(project_state, undo_manager, record, project);
    assert(remove_transition_outcome(transition_id@, old(project_state)@, old(undo_manager)@, project_state@,
        undo_manager@, rid, ts));
    Ok(true)
}


// ---------------------------------------------------------------------------
// Laws of the timeline edits
// ---------------------------------------------------------------------------

/// Splitting a clip inside its span gives two parts that cover it exactly:
/// the first starts where the clip started, the second starts at the split
/// point, their lengths add up to the clip's, and the source is cut at one
/// point, where the first part ends and the second begins.
pub proof fn law_split_parts_cover_clip(c: ClipView, split_time: i64, left_id: u128, right_id: u128)
    requires
        c.start_time < split_time,
        split_time < c.start_time + c.duration,
    ensures
        ({
            let l = left_part(c, split_time, left_id);
            let r = right_part(c, split_time, right_id);
            &&& l.start_time == c.start_time
            &&& l.start_time + l.duration == split_time
            &&& r.start_time == split_time
            &&& l.duration + r.duration == c.duration
            &&& l.duration > 0 && r.duration > 0
            &&& l.in_point == c.in_point
            &&& l.out_point == r.in_point
            &&& r.out_point == c.out_point
            &&& l.filters == c.filters
            &&& r.filters.len() == 0
            &&& l.media_id == c.media_id && r.media_id == c.media_id
            &&& l.speed == c.speed && r.speed == c.speed
        }),
{
}

/// Trimming keeps the inner part of a clip: it starts `start_trim` later
/// and ends `end_trim` earlier on the timeline, when the new start fits in
/// `i64`.
pub proof fn law_trim_keeps_inner_span(c: ClipView, start_trim: i64, end_trim: i64)
    requires
        start_trim >= 0,
        end_trim >= 0,
        c.duration - start_trim - end_trim > 0,
        c.start_time + start_trim <= i64::MAX,
    ensures
        ({
            let t = trimmed(c, start_trim, end_trim);
            &&& t.start_time == c.start_time + start_trim
            &&& t.start_time + t.duration == c.start_time + c.duration - end_trim
            &&& t.id == c.id && t.media_id == c.media_id && t.speed == c.speed
        }),
{
}

proof fn lemma_clips_end(clips: Seq<ClipView>)
    ensures
        clips_end(clips) >= 0,
        forall|j: int| 0 <= j < clips.len() ==> #[trigger] clips[j].start_time + clips[j].duration <= clips_end(clips),
        clips_end(clips) == 0 || exists|j: int|
            0 <= j < clips.len() && #[trigger] clips[j].start_time + clips[j].duration == clips_end(clips),
    decreases clips.len(),
{
    if clips.len() > 0 {
        let c0 = clips.drop_last();
        lemma_clips_end(c0);
        assert forall|j: int| 0 <= j < clips.len() implies #[trigger] clips[j].start_time + clips[j].duration
            <= clips_end(clips) by {
            if j < c0.len() {
                assert(clips[j] == c0[j]);
            }
        }
        if clips_end(clips) != 0 {
            if clips_end(clips) == clips.last().start_time + clips.last().duration {
                assert(clips[clips.len() - 1] == clips.last());
            } else {
                let j = choose|j: int| 0 <= j < c0.len() && #[trigger] c0[j].start_time + c0[j].duration == clips_end(c0);
                assert(clips[j] == c0[j]);
            }
        }
    }
}

/// The timeline length that is recomputed after an edit is the largest clip
/// end: no clip ends after it, and it is the end of some clip unless it is
/// 0. (Before it is held to `i64`.)
pub proof fn law_duration_is_largest_end(tracks: Seq<TrackView>)
    ensures
        tracks_end(tracks) >= 0,
        forall|i: int, j: int|
            0 <= i < tracks.len() && 0 <= j < tracks[i].clips.len() ==> #[trigger] tracks[i].clips[j].start_time
                + tracks[i].clips[j].duration <= tracks_end(tracks),
        tracks_end(tracks) == 0 || exists|i: int, j: int|
            0 <= i < tracks.len() && 0 <= j < tracks[i].clips.len() && #[trigger] tracks[i].clips[j].start_time
                + tracks[i].clips[j].duration == tracks_end(tracks),
    decreases tracks.len(),
{
    if tracks.len() > 0 {
        let t0 = tracks.drop_last();
        let last = tracks.last();
        law_duration_is_largest_end(t0);
        lemma_clips_end(last.clips);
        assert(tracks[tracks.len() - 1] == last);
        assert forall|i: int, j: int|
            0 <= i < tracks.len() && 0 <= j < tracks[i].clips.len() implies #[trigger] tracks[i].clips[j].start_time
            + tracks[i].clips[j].duration <= tracks_end(tracks) by {
            if i < t0.len() {
                assert(tracks[i] == t0[i]);
            } else {
                assert(last.clips[j].start_time + last.clips[j].duration <= clips_end(last.clips));
            }
        }
        if tracks_end(tracks) != 0 {
            if tracks_end(tracks) == clips_end(last.clips) {
                let j = choose|j: int|
                    0 <= j < last.clips.len() && #[trigger] last.clips[j].start_time + last.clips[j].duration == clips_end(
                        last.clips,
                    );
                assert(tracks[tracks.len() - 1].clips[j] == last.clips[j]);
            } else {
                let (i, j) = choose|i: int, j: int|
                    0 <= i < t0.len() && 0 <= j < t0[i].clips.len() && #[trigger] t0[i].clips[j].start_time
                        + t0[i].clips[j].duration == tracks_end(t0);
                assert(tracks[i] == t0[i]);
            }
        }
    }
}

/// `p` with the clip `cid` of the track `tid` moved to start at `t`, and
/// the timeline length recomputed: what `move_clip` leaves.
pub open spec fn moved(p: ProjectView, tid: u128, cid: u128, t: i64) -> ProjectView {
    with_recalculated_duration(
        with_clip_placed(p, track_pos(p, tid), clip_pos(p, tid, cid), ClipView { start_time: t, ..located_clip(p, tid, cid) }),
    )
}

/// Moving a clip and then moving it back to where it started gives the
/// project back, with its timeline length recomputed, on a track ordered by
/// start time where no other clip has the clip's id or starts when it does.
pub proof fn law_move_back_restores(p: ProjectView, tid: u128, cid: u128, t: i64)
    requires
        any(p.timeline.tracks, track_has_id(tid)),
        any(p.timeline.tracks[track_pos(p, tid)].clips, clip_has_id(cid)),
        sorted_by_start(p.timeline.tracks[track_pos(p, tid)].clips),
        forall|j: int|
            0 <= j < p.timeline.tracks[track_pos(p, tid)].clips.len() && j != clip_pos(p, tid, cid) ==> {
                let o = #[trigger] p.timeline.tracks[track_pos(p, tid)].clips[j];
                o.id != cid && o.start_time != located_clip(p, tid, cid).start_time
            },
    ensures
        moved(moved(p, tid, cid, t), tid, cid, located_clip(p, tid, cid).start_time) == with_recalculated_duration(p),
{
    let tw = choose|i: int| 0 <= i < p.timeline.tracks.len() && #[trigger] track_has_id(tid)(p.timeline.tracks[i]);
    lemma_exists_first(p.timeline.tracks, track_has_id(tid), tw);
    let ti = track_pos(p, tid);
    let tr = p.timeline.tracks[ti];
    let cs = tr.clips;
    let cw = choose|j: int| 0 <= j < cs.len() && #[trigger] clip_has_id(cid)(cs[j]);
    lemma_exists_first(cs, clip_has_id(cid), cw);
    let ci = clip_pos(p, tid, cid);
    let c = located_clip(p, tid, cid);
    let st = c.start_time;
    let rest = cs.remove(ci);
    let c2 = ClipView { start_time: t, ..c };
    let k = insert_pos(rest, t);
    lemma_insert_pos_bounds(rest, t);
    let p2 = moved(p, tid, cid, t);
    let tr2 = p2.timeline.tracks[ti];
    assert(tr2.clips == rest.insert(k, c2));
    assert(is_first(p2.timeline.tracks, track_has_id(tid), ti)) by {
        assert forall|j: int| 0 <= j < ti implies !track_has_id(tid)(#[trigger] p2.timeline.tracks[j]) by {
            assert(p2.timeline.tracks[j] == p.timeline.tracks[j]);
        }
    }
    lemma_first(p2.timeline.tracks, track_has_id(tid), ti);
    assert(is_first(tr2.clips, clip_has_id(cid), k)) by {
        assert forall|j: int| 0 <= j < k implies !clip_has_id(cid)(#[trigger] tr2.clips[j]) by {
            assert(tr2.clips[j] == rest[j]);
            if j < ci {
                assert(rest[j] == cs[j]);
            } else {
                assert(rest[j] == cs[j + 1]);
            }
        }
    }
    lemma_first(tr2.clips, clip_has_id(cid), k);
    assert(located_clip(p2, tid, cid) == c2);
    assert(tr2.clips.remove(k) =~= rest);
    // Put back at its old start, the clip lands where it was.
    assert(insert_pos(rest, st) == ci) by {
        if ci < rest.len() {
            assert(is_first(rest, starts_after(st), ci)) by {
                assert(rest[ci] == cs[ci + 1]);
                assert(cs[ci].start_time <= cs[ci + 1].start_time);
                assert forall|j: int| 0 <= j < ci implies !starts_after(st)(#[trigger] rest[j]) by {
                    assert(rest[j] == cs[j]);
                    assert(cs[j].start_time <= cs[ci].start_time);
                }
            }
            lemma_first(rest, starts_after(st), ci);
        } else {
            assert(!any(rest, starts_after(st))) by {
                assert forall|j: int| 0 <= j < rest.len() implies !starts_after(st)(#[trigger] rest[j]) by {
                    assert(rest[j] == cs[j]);
                    assert(cs[j].start_time <= cs[ci].start_time);
                }
            }
        }
    }
    let p3 = moved(p2, tid, cid, st);
    assert(ClipView { start_time: st, ..c2 } == c);
    assert(rest.insert(ci, c) =~= cs);
    assert(p3.timeline.tracks[ti].clips =~= cs);
    assert(p3.timeline.tracks =~= p.timeline.tracks);
}

/// Taking a clip out of an ordered list keeps it ordered.
proof fn lemma_remove_keeps_sorted(cs: Seq<ClipView>, i: int)
    requires
        sorted_by_start(cs),
        0 <= i < cs.len(),
    ensures
        sorted_by_start(cs.remove(i)),
{
    let r = cs.remove(i);
    assert forall|a: int, b: int| 0 <= a < b < r.len() implies #[trigger] r[a].start_time <= #[trigger] r[b].start_time by {
        let a2 = if a < i { a } else { a + 1 };
        let b2 = if b < i { b } else { b + 1 };
        assert(r[a] == cs[a2] && r[b] == cs[b2]);
    }
}

/// Placing a clip by its start time in an ordered list keeps it ordered.
proof fn lemma_place_keeps_sorted(cs: Seq<ClipView>, clip: ClipView)
    requires
        sorted_by_start(cs),
    ensures
        sorted_by_start(place(cs, clip)),
{
    let t = clip.start_time;
    let k = insert_pos(cs, t);
    lemma_insert_pos_bounds(cs, t);
    let n = place(cs, clip);
    assert(n == cs.insert(k, clip));
    assert forall|i: int, j: int| 0 <= i < j < n.len() implies #[trigger] n[i].start_time <= #[trigger] n[j].start_time by {
        if j < k {
            assert(n[i] == cs[i] && n[j] == cs[j]);
        } else if j == k {
            assert(n[i] == cs[i]);
        } else if i < k {
            assert(n[i] == cs[i] && n[j] == cs[j - 1]);
            assert(cs[k].start_time > t);
            if k < j - 1 {
                assert(cs[k].start_time <= cs[j - 1].start_time);
            }
        } else if i == k {
            assert(n[j] == cs[j - 1]);
            assert(cs[k].start_time > t);
            if k < j - 1 {
                assert(cs[k].start_time <= cs[j - 1].start_time);
            }
        } else {
            assert(n[i] == cs[i - 1] && n[j] == cs[j - 1]);
        }
    }
}

/// A track whose clips are ordered by start time stays ordered when one of
/// its clips is moved.
pub proof fn law_move_keeps_track_sorted(p: ProjectView, tid: u128, cid: u128, t: i64)
    requires
        any(p.timeline.tracks, track_has_id(tid)),
        any(p.timeline.tracks[track_pos(p, tid)].clips, clip_has_id(cid)),
        sorted_by_start(p.timeline.tracks[track_pos(p, tid)].clips),
    ensures
        sorted_by_start(moved(p, tid, cid, t).timeline.tracks[track_pos(p, tid)].clips),
{
    let tw = choose|i: int| 0 <= i < p.timeline.tracks.len() && #[trigger] track_has_id(tid)(p.timeline.tracks[i]);
    lemma_exists_first(p.timeline.tracks, track_has_id(tid), tw);
    let cs = p.timeline.tracks[track_pos(p, tid)].clips;
    let cw = choose|j: int| 0 <= j < cs.len() && #[trigger] clip_has_id(cid)(cs[j]);
    lemma_exists_first(cs, clip_has_id(cid), cw);
    let ci = clip_pos(p, tid, cid);
    lemma_remove_keeps_sorted(cs, ci);
    lemma_place_keeps_sorted(cs.remove(ci), ClipView { start_time: t, ..located_clip(p, tid, cid) });
}

/// Splitting a clip of a track whose clips are ordered by start time keeps
/// them ordered.
pub proof fn law_split_keeps_track_sorted(cs: Seq<ClipView>, ci: int, left: ClipView, right: ClipView)
    requires
        sorted_by_start(cs),
        0 <= ci < cs.len(),
    ensures
        sorted_by_start(split_clips(cs, ci, left, right)),
{
    lemma_remove_keeps_sorted(cs, ci);
    lemma_place_keeps_sorted(cs.remove(ci), left);
    lemma_place_keeps_sorted(place(cs.remove(ci), left), right);
}

/// `p` with the clip `cid` of the track `tid` removed, and the timeline
/// length recomputed: what `remove_clip_from_track` leaves.
pub open spec fn removed(p: ProjectView, tid: u128, cid: u128) -> ProjectView {
    with_recalculated_duration(without_clip(p, track_pos(p, tid), clip_pos(p, tid, cid)))
}

/// Adding a clip whose id the track does not hold yet and then removing it
/// gives the project back, with its timeline length recomputed.
pub proof fn law_add_then_remove_restores(p: ProjectView, tid: u128, clip: ClipView)
    requires
        any(p.timeline.tracks, track_has_id(tid)),
        !any(p.timeline.tracks[track_pos(p, tid)].clips, clip_has_id(clip.id)),
    ensures
        removed(project_after_add_clip(p, tid, clip), tid, clip.id) == with_recalculated_duration(p),
{
    let tw = choose|i: int| 0 <= i < p.timeline.tracks.len() && #[trigger] track_has_id(tid)(p.timeline.tracks[i]);
    lemma_exists_first(p.timeline.tracks, track_has_id(tid), tw);
    let ti = track_pos(p, tid);
    let t = p.timeline.tracks[ti];
    let p2 = project_after_add_clip(p, tid, clip);
    let t2 = p2.timeline.tracks[ti];
    let k = insert_pos(t.clips, clip.start_time);
    lemma_insert_pos_bounds(t.clips, clip.start_time);
    assert(t2.clips == t.clips.insert(k, clip));
    assert(is_first(p2.timeline.tracks, track_has_id(tid), ti)) by {
        assert forall|j: int| 0 <= j < ti implies !track_has_id(tid)(#[trigger] p2.timeline.tracks[j]) by {
            assert(p2.timeline.tracks[j] == p.timeline.tracks[j]);
        }
    }
    lemma_first(p2.timeline.tracks, track_has_id(tid), ti);
    assert(is_first(t2.clips, clip_has_id(clip.id), k)) by {
        assert forall|j: int| 0 <= j < k implies !clip_has_id(clip.id)(#[trigger] t2.clips[j]) by {
            assert(t2.clips[j] == t.clips[j]);
            if clip_has_id(clip.id)(t.clips[j]) {
                assert(any(t.clips, clip_has_id(clip.id)));
            }
        }
    }
    lemma_first(t2.clips, clip_has_id(clip.id), k);
    let p3 = removed(p2, tid, clip.id);
    assert(p3.timeline.tracks[ti].clips =~= t.clips);
    assert(p3.timeline.tracks =~= p.timeline.tracks);
}

proof fn lemma_insert_pos_bounds(clips: Seq<ClipView>, t: i64)
    ensures
        0 <= insert_pos(clips, t) <= clips.len(),
        forall|j: int| 0 <= j < insert_pos(clips, t) ==> (#[trigger] clips[j]).start_time <= t,
        insert_pos(clips, t) < clips.len() ==> clips[insert_pos(clips, t)].start_time > t,
{
    if any(clips, starts_after(t)) {
        let w = choose|i: int| 0 <= i < clips.len() && #[trigger] starts_after(t)(clips[i]);
        lemma_exists_first(clips, starts_after(t), w);
        let k = first(clips, starts_after(t));
        assert forall|j: int| 0 <= j < k implies (#[trigger] clips[j]).start_time <= t by {
            assert(!starts_after(t)(clips[j]));
        }
    } else {
        assert forall|j: int| 0 <= j < clips.len() implies (#[trigger] clips[j]).start_time <= t by {
            if clips[j].start_time > t {
                assert(starts_after(t)(clips[j]));
            }
        }
    }
}

/// A track whose clips are ordered by start time stays ordered when a clip
/// is added to it.
pub proof fn law_add_keeps_track_sorted(p: ProjectView, tid: u128, clip: ClipView)
    requires
        any(p.timeline.tracks, track_has_id(tid)),
        sorted_by_start(p.timeline.tracks[track_pos(p, tid)].clips),
    ensures
        sorted_by_start(project_after_add_clip(p, tid, clip).timeline.tracks[track_pos(p, tid)].clips),
{
    let tw = choose|i: int| 0 <= i < p.timeline.tracks.len() && #[trigger] track_has_id(tid)(p.timeline.tracks[i]);
    lemma_exists_first(p.timeline.tracks, track_has_id(tid), tw);
    lemma_place_keeps_sorted(p.timeline.tracks[track_pos(p, tid)].clips, clip);
}

proof fn lemma_without_absent(ts: Seq<ClipTransitionView>, id: u128)
    requires
        forall|k: int| 0 <= k < ts.len() ==> (#[trigger] ts[k]).id != id,
    ensures
        transitions_without(ts, id) == ts,
    decreases ts.len(),
{
    if ts.len() > 0 {
        lemma_without_absent(ts.drop_last(), id);
        assert(ts.drop_last().push(ts.last()) =~= ts);
    }
}

/// Removing a transition takes back what adding it did: when no clip has a
/// transition with id `trid`, adding one under that id and removing that id
/// again gives the tracks back as they were.
pub proof fn law_remove_undoes_add_transition(tracks: Seq<TrackView>, fid: u128, trid: u128, name: Seq<char>)
    requires
        !transition_on_timeline(tracks, trid),
    ensures
        tracks_without_transition(tracks_named(tracks, fid, trid, name), trid) == tracks,
{
    let after = tracks_without_transition(tracks_named(tracks, fid, trid, name), trid);
    assert forall|a: int| 0 <= a < tracks.len() implies #[trigger] after[a] == tracks[a] by {
        let t = tracks[a];
        let cs = clips_without_transition(clips_named(t.clips, fid, trid, name), trid);
        assert forall|b: int| 0 <= b < t.clips.len() implies #[trigger] cs[b] == t.clips[b] by {
            let c = t.clips[b];
            assert forall|k: int| 0 <= k < c.transitions.len() implies (#[trigger] c.transitions[k]).id != trid by {
                if c.transitions[k].id == trid {
                    assert(has_transition(c, trid));
                    assert(transition_on_timeline(tracks, trid));
                }
            }
            lemma_without_absent(c.transitions, trid);
            if c.id == fid {
                let ts2 = c.transitions.push(ClipTransitionView { id: trid, name });
                assert(ts2.drop_last() =~= c.transitions);
                assert(transitions_without(ts2, trid) == transitions_without(c.transitions, trid));
            }
        }
        assert(cs =~= t.clips);
    }
    assert(after =~= tracks);
}

/// How far the source span of `c` is from its duration times its speed, in
/// thousandths of a microsecond: 0 when the span is exactly what the clip
/// plays at its speed.
pub open spec fn speed_error(c: ClipView) -> int {
    (c.out_point - c.in_point) * 1000 - c.duration * c.speed
}

/// Scaling `t >= 0` microseconds at a speed `>= 0` rounds down by less than
/// one microsecond.
proof fn lemma_scaled_rounding(t: int, speed: i64)
    requires
        t >= 0,
        speed >= 0,
    ensures
        0 <= t * speed - 1000 * scaled(t, speed) < 1000,
{
    assert(t * speed >= 0) by (nonlinear_arith)
        requires
            t >= 0,
            speed >= 0,
    ;
    let p = t * speed;
    assert(scaled(t, speed) == p / 1000);
}

/// Trimming keeps a clip's source span at its duration times its speed, up
/// to the rounding at the two cut points: less than one microsecond of
/// source at each.
pub proof fn law_trim_keeps_speed(c: ClipView, start_trim: i64, end_trim: i64)
    requires
        start_trim >= 0,
        end_trim >= 0,
        c.speed >= 0,
        c.duration - start_trim - end_trim > 0,
        i64::MIN <= c.start_time + start_trim <= i64::MAX,
        i64::MIN <= c.in_point + scaled(start_trim as int, c.speed) <= i64::MAX,
        i64::MIN <= c.out_point - scaled(end_trim as int, c.speed) <= i64::MAX,
    ensures
        0 <= speed_error(trimmed(c, start_trim, end_trim)) - speed_error(c) < 2000,
{
    lemma_scaled_rounding(start_trim as int, c.speed);
    lemma_scaled_rounding(end_trim as int, c.speed);
    let t = trimmed(c, start_trim, end_trim);
    let d = c.duration as int;
    let sp = c.speed as int;
    let a = start_trim as int;
    let e = end_trim as int;
    assert((d - a - e) * sp == d * sp - a * sp - e * sp) by (nonlinear_arith);
    assert(t.duration == d - a - e);
}

/// Splitting a clip gives two parts whose source spans stay at their
/// durations times the speed, up to the rounding at the split point: the
/// first part's span falls short by less than one microsecond of source, and
/// the second part's error grows by less than one over the clip's.
pub proof fn law_split_keeps_speed(c: ClipView, split_time: i64, left_id: u128, right_id: u128)
    requires
        c.start_time < split_time,
        split_time < c.start_time + c.duration,
        c.speed >= 0,
        i64::MIN <= c.in_point + scaled(split_time - c.start_time, c.speed) <= i64::MAX,
    ensures
        -1000 < speed_error(left_part(c, split_time, left_id)) <= 0,
        0 <= speed_error(right_part(c, split_time, right_id)) - speed_error(c) < 1000,
{
    let dl = split_time - c.start_time;
    lemma_scaled_rounding(dl, c.speed);
    let d = c.duration as int;
    let sp = c.speed as int;
    assert((d - dl) * sp == d * sp - dl * sp) by (nonlinear_arith);
    assert(left_part(c, split_time, left_id).duration == dl);
    assert(right_part(c, split_time, right_id).duration == d - dl);
}

/// A transition added under the id `trid` to the clips with id `fid` is on
/// the timeline afterwards, when such a clip is: so `remove_transition`
/// given the text of `trid` finds it.
pub proof fn law_added_transition_is_on_timeline(tracks: Seq<TrackView>, fid: u128, trid: u128, name: Seq<char>)
    requires
        clip_on_timeline(tracks, fid),
    ensures
        transition_on_timeline(tracks_named(tracks, fid, trid, name), trid),
{
    let a = choose|i: int| 0 <= i < tracks.len() && #[trigger] any(tracks[i].clips, clip_has_id(fid));
    let cs = tracks[a].clips;
    let b = choose|j: int| 0 <= j < cs.len() && #[trigger] clip_has_id(fid)(cs[j]);
    let n = tracks_named(tracks, fid, trid, name);
    let c2 = n[a].clips[b];
    assert(c2 == named_on(cs[b], fid, trid, name));
    assert(c2.transitions[c2.transitions.len() - 1].id == trid);
    assert(has_transition(c2, trid));
}

/// A track whose clips are ordered by start time stays ordered when one of
/// its clips is replaced by a clip put in its place by start time, as
/// `move_clip` and `trim_clip` do.
pub proof fn law_replace_keeps_track_sorted(p: ProjectView, ti: int, ci: int, c: ClipView)
    requires
        0 <= ti < p.timeline.tracks.len(),
        0 <= ci < p.timeline.tracks[ti].clips.len(),
        sorted_by_start(p.timeline.tracks[ti].clips),
    ensures
        sorted_by_start(with_clip_placed(p, ti, ci, c).timeline.tracks[ti].clips),
{
    lemma_remove_keeps_sorted(p.timeline.tracks[ti].clips, ci);
    lemma_place_keeps_sorted(p.timeline.tracks[ti].clips.remove(ci), c);
}

/// A successful `add_track` adds, after the tracks there were, one empty,
/// unlocked, visible track at full volume, of the kind its type name asks
/// for and with the given name; the track info it gives back names that
/// kind, and its order is the track's position.
pub proof fn law_add_track_adds_requested_kind(
    track_type: Seq<char>,
    name: Seq<char>,
    s: ProjectStateView,
    u: UndoView,
    s2: ProjectStateView,
    u2: UndoView,
    info: TrackInfoView,
    tid: u128,
    rid: u128,
    ts: i64,
)
    requires
        add_track_check(track_type, name, s) is None,
        add_track_outcome(track_type, name, s, u, s2, u2, info, tid, rid, ts),
    ensures
        ({
            let old_tracks = s.current->0.timeline.tracks;
            let new_tracks = s2.current->0.timeline.tracks;
            let n = old_tracks.len() as int;
            &&& new_tracks.len() == n + 1
            &&& new_tracks.take(n) == old_tracks
            &&& track_type_name(new_tracks[n].track_type) == track_type
            &&& (track_type == "video"@ ==> new_tracks[n].track_type == TrackType::Video)
            &&& (track_type == "audio"@ ==> new_tracks[n].track_type == TrackType::Audio)
            &&& (track_type == "text"@ ==> new_tracks[n].track_type == TrackType::Text)
            &&& new_tracks[n].name == name
            &&& new_tracks[n].id == tid
            &&& new_tracks[n].clips.len() == 0
            &&& !new_tracks[n].locked && new_tracks[n].visible
            &&& info.track_type == track_type
            &&& info.name == name
            &&& info.id == hyphenated(tid)
            &&& info.clip_count == 0
            &&& (n <= u32::MAX ==> info.order == n)
        }),
{
    reveal_strlit("video");
    reveal_strlit("audio");
    reveal_strlit("text");
    let old_tracks = s.current->0.timeline.tracks;
    let n = old_tracks.len() as int;
    let new_tracks = s2.current->0.timeline.tracks;
    assert(new_tracks == old_tracks.push(new_track_view(tid, track_type, name)));
    assert(new_tracks.take(n) =~= old_tracks);
    assert("audio"@ != "text"@) by {
        assert("audio"@.len() != "text"@.len());
    }
    assert("audio"@ != "video"@) by {
        assert("audio"@[0] != "video"@[0]);
    }
    assert("text"@ != "video"@) by {
        assert("text"@.len() != "video"@.len());
    }
}

/// A successful `move_clip` changes nothing but the start time of the clip
/// it moves: the track then holds that clip with the new start time and
/// every other field as it was, the track's other clips stay as they were
/// (in their order), the track keeps its id, name and settings, and every
/// other track is left as it was.
pub proof fn law_move_changes_only_start_time(
    track_id: Seq<char>,
    clip_id: Seq<char>,
    new_start_time: i64,
    s: ProjectStateView,
    u: UndoView,
    s2: ProjectStateView,
    u2: UndoView,
    rid: u128,
    ts: i64,
)
    requires
        move_clip_check(track_id, clip_id, new_start_time, s) is None,
        move_clip_outcome(track_id, clip_id, new_start_time, s, u, s2, u2, rid, ts),
    ensures
        ({
            let p = s.current->0;
            let p2 = s2.current->0;
            let tid = parsed_id(track_id);
            let cid = parsed_id(clip_id);
            let ti = track_pos(p, tid);
            let c = located_clip(p, tid, cid);
            let before = p.timeline.tracks[ti].clips;
            let after = p2.timeline.tracks[ti].clips;
            &&& 0 <= ti < p.timeline.tracks.len()
            &&& p2.timeline.tracks.len() == p.timeline.tracks.len()
            &&& forall|a: int| 0 <= a < p.timeline.tracks.len() && a != ti ==> #[trigger] p2.timeline.tracks[a]
                == p.timeline.tracks[a]
            &&& p2.timeline.tracks[ti].id == p.timeline.tracks[ti].id
            &&& p2.timeline.tracks[ti].name == p.timeline.tracks[ti].name
            &&& p2.timeline.tracks[ti].locked == p.timeline.tracks[ti].locked
            &&& after.len() == before.len()
            &&& exists|k: int| {
                &&& 0 <= k < after.len()
                &&& #[trigger] after[k].start_time == new_start_time
                &&& after[k].id == c.id
                &&& after[k].media_id == c.media_id
                &&& after[k].track_id == c.track_id
                &&& after[k].duration == c.duration
                &&& after[k].in_point == c.in_point
                &&& after[k].out_point == c.out_point
                &&& after[k].speed == c.speed
                &&& after[k].filters == c.filters
                &&& after[k].transitions == c.transitions
                &&& after.remove(k) == before.remove(clip_pos(p, tid, cid))
            }
        }),
{
    let p = s.current->0;
    let tid = parsed_id(track_id);
    let cid = parsed_id(clip_id);
    let tw = choose|i: int| 0 <= i < p.timeline.tracks.len() && #[trigger] track_has_id(tid)(p.timeline.tracks[i]);
    lemma_exists_first(p.timeline.tracks, track_has_id(tid), tw);
    let ti = track_pos(p, tid);
    let before = p.timeline.tracks[ti].clips;
    let cw = choose|j: int| 0 <= j < before.len() && #[trigger] clip_has_id(cid)(before[j]);
    lemma_exists_first(before, clip_has_id(cid), cw);
    let ci = clip_pos(p, tid, cid);
    let c = located_clip(p, tid, cid);
    let moved_clip = ClipView { start_time: new_start_time, ..located_clip(p, tid, cid) };
    let rest = before.remove(ci);
    let k = insert_pos(rest, new_start_time);
    lemma_insert_pos_bounds(rest, new_start_time);
    let p2 = s2.current->0;
    let after = p2.timeline.tracks[ti].clips;
    assert(after == rest.insert(k, moved_clip));
    assert(after.remove(k) =~= rest);
    assert(after[k] == moved_clip);
}

/// The timeline state lists the tracks in their order, each numbered by its
/// position and describing the track at that position: its id, kind, name,
/// settings and number of clips.
pub proof fn law_track_infos_numbered(tracks: Seq<TrackView>, i: int)
    requires
        0 <= i < tracks.len(),
        i <= u32::MAX,
    ensures
        track_infos(tracks).len() == tracks.len(),
        track_infos(tracks)[i].order == i,
        track_infos(tracks)[i].id == hyphenated(tracks[i].id),
        track_infos(tracks)[i].track_type == track_type_name(tracks[i].track_type),
        track_infos(tracks)[i].name == tracks[i].name,
        track_infos(tracks)[i].locked == tracks[i].locked,
        track_infos(tracks)[i].visible == tracks[i].visible,
        track_infos(tracks)[i].volume == tracks[i].volume,
        tracks[i].clips.len() <= usize::MAX ==> track_infos(tracks)[i].clip_count == tracks[i].clips.len(),
{
}

/// The position of the track `track_id` and of the clip `clip_id` on it are
/// valid when `locate_error` finds nothing wrong, and the clip there has
/// the id asked for.
proof fn lemma_located(track_id: Seq<char>, clip_id: Seq<char>, p: ProjectView, missing: Seq<char>)
    requires
        locate_error(track_id, clip_id, p, missing) is None,
    ensures
        0 <= track_pos(p, parsed_id(track_id)) < p.timeline.tracks.len(),
        p.timeline.tracks[track_pos(p, parsed_id(track_id))].id == parsed_id(track_id),
        0 <= clip_pos(p, parsed_id(track_id), parsed_id(clip_id)) < p.timeline.tracks[track_pos(
            p,
            parsed_id(track_id),
        )].clips.len(),
        located_clip(p, parsed_id(track_id), parsed_id(clip_id)).id == parsed_id(clip_id),
{
    let tid = parsed_id(track_id);
    let cid = parsed_id(clip_id);
    let tw = choose|i: int| 0 <= i < p.timeline.tracks.len() && #[trigger] track_has_id(tid)(p.timeline.tracks[i]);
    lemma_exists_first(p.timeline.tracks, track_has_id(tid), tw);
    let cs = p.timeline.tracks[track_pos(p, tid)].clips;
    let cw = choose|j: int| 0 <= j < cs.len() && #[trigger] clip_has_id(cid)(cs[j]);
    lemma_exists_first(cs, clip_has_id(cid), cw);
}

/// A successful `add_clip_to_track` adds to the track exactly one clip: the
/// requested media placed at the requested start for the requested
/// duration, showing the media from its beginning (in point 0, out point
/// the duration) at normal speed, with no filters or transitions; the
/// track's other clips and the other tracks stay as they were, and the clip
/// info given back describes that clip.
pub proof fn law_add_clip_adds_requested_clip(
    track_id: Seq<char>,
    media_id: Seq<char>,
    start_time: i64,
    duration: i64,
    s: ProjectStateView,
    u: UndoView,
    s2: ProjectStateView,
    u2: UndoView,
    info: ClipInfoView,
    cid: u128,
    rid: u128,
    ts: i64,
)
    requires
        add_clip_check(track_id, media_id, start_time, duration, s) is None,
        add_clip_outcome(track_id, media_id, start_time, duration, s, u, s2, u2, info, cid, rid, ts),
    ensures
        ({
            let p = s.current->0;
            let p2 = s2.current->0;
            let ti = track_pos(p, parsed_id(track_id));
            let before = p.timeline.tracks[ti].clips;
            let after = p2.timeline.tracks[ti].clips;
            &&& 0 <= ti < p.timeline.tracks.len()
            &&& p2.timeline.tracks.len() == p.timeline.tracks.len()
            &&& forall|a: int| 0 <= a < p.timeline.tracks.len() && a != ti ==> #[trigger] p2.timeline.tracks[a]
                == p.timeline.tracks[a]
            &&& after.len() == before.len() + 1
            &&& exists|k: int| {
                &&& 0 <= k < after.len()
                &&& after.remove(k) == before
                &&& #[trigger] after[k].id == cid
                &&& after[k].media_id == media_id
                &&& after[k].track_id == track_id
                &&& after[k].start_time == start_time
                &&& after[k].duration == duration
                &&& after[k].in_point == 0
                &&& after[k].out_point == duration
                &&& after[k].speed == 1000
                &&& after[k].filters.len() == 0
                &&& after[k].transitions.len() == 0
            }
            &&& info.id == hyphenated(cid)
            &&& info.media_id == media_id
            &&& info.track_id == track_id
            &&& info.start_time == start_time
            &&& info.duration == duration
            &&& info.in_point == 0
            &&& info.out_point == duration
        }),
{
    let p = s.current->0;
    let tid = parsed_id(track_id);
    let tw = choose|i: int| 0 <= i < p.timeline.tracks.len() && #[trigger] track_has_id(tid)(p.timeline.tracks[i]);
    lemma_exists_first(p.timeline.tracks, track_has_id(tid), tw);
    let ti = track_pos(p, tid);
    let before = p.timeline.tracks[ti].clips;
    let clip = new_clip_view(cid, media_id, track_id, start_time, duration);
    let k = insert_pos(before, start_time);
    lemma_insert_pos_bounds(before, start_time);
    let after = s2.current->0.timeline.tracks[ti].clips;
    assert(after == before.insert(k, clip));
    assert(after.remove(k) =~= before);
    assert(after[k] == clip);
}

/// A successful `remove_clip_from_track` takes out of the track exactly
/// the clip asked for, keeping the track's other clips in their order and
/// the other tracks as they were.
pub proof fn law_remove_clip_takes_out_that_clip(
    track_id: Seq<char>,
    clip_id: Seq<char>,
    s: ProjectStateView,
    u: UndoView,
    s2: ProjectStateView,
    u2: UndoView,
    rid: u128,
    ts: i64,
)
    requires
        remove_clip_check(track_id, clip_id, s) is None,
        remove_clip_outcome(track_id, clip_id, s, u, s2, u2, rid, ts),
    ensures
        ({
            let p = s.current->0;
            let p2 = s2.current->0;
            let ti = track_pos(p, parsed_id(track_id));
            let ci = clip_pos(p, parsed_id(track_id), parsed_id(clip_id));
            let before = p.timeline.tracks[ti].clips;
            let after = p2.timeline.tracks[ti].clips;
            &&& 0 <= ti < p.timeline.tracks.len()
            &&& 0 <= ci < before.len()
            &&& before[ci].id == parsed_id(clip_id)
            &&& after.len() + 1 == before.len()
            &&& after == before.remove(ci)
            &&& p2.timeline.tracks.len() == p.timeline.tracks.len()
            &&& forall|a: int| 0 <= a < p.timeline.tracks.len() && a != ti ==> #[trigger] p2.timeline.tracks[a]
                == p.timeline.tracks[a]
        }),
{
    let missing = "Clip '"@ + clip_id + "' not found on track '"@ + track_id + "'."@;
    lemma_located(track_id, clip_id, s.current->0, missing);
}

/// A successful `trim_clip` cuts the clip asked for: it starts `start_trim`
/// later and lasts `start_trim + end_trim` less, its in and out points move
/// inward by those amounts at its speed (rounded toward zero), and all else
/// of it (id, media, speed, filters, transitions) stays; the track's other
/// clips and the other tracks stay as they were.
pub proof fn law_trim_cuts_that_clip(
    track_id: Seq<char>,
    clip_id: Seq<char>,
    start_trim: i64,
    end_trim: i64,
    s: ProjectStateView,
    u: UndoView,
    s2: ProjectStateView,
    u2: UndoView,
    info: ClipInfoView,
    rid: u128,
    ts: i64,
)
    requires
        trim_clip_check(track_id, clip_id, start_trim, end_trim, s) is None,
        trim_clip_outcome(track_id, clip_id, start_trim, end_trim, s, u, s2, u2, info, rid, ts),
    ensures
        ({
            let p = s.current->0;
            let p2 = s2.current->0;
            let tid = parsed_id(track_id);
            let cid = parsed_id(clip_id);
            let ti = track_pos(p, tid);
            let c = located_clip(p, tid, cid);
            let before = p.timeline.tracks[ti].clips;
            let after = p2.timeline.tracks[ti].clips;
            &&& p2.timeline.tracks.len() == p.timeline.tracks.len()
            &&& forall|a: int| 0 <= a < p.timeline.tracks.len() && a != ti ==> #[trigger] p2.timeline.tracks[a]
                == p.timeline.tracks[a]
            &&& after.len() == before.len()
            &&& exists|k: int| {
                &&& 0 <= k < after.len()
                &&& after.remove(k) == before.remove(clip_pos(p, tid, cid))
                &&& #[trigger] after[k].id == c.id
                &&& after[k].media_id == c.media_id
                &&& after[k].speed == c.speed
                &&& after[k].filters == c.filters
                &&& after[k].transitions == c.transitions
                &&& after[k].duration == c.duration - start_trim - end_trim
                &&& (c.start_time + start_trim <= i64::MAX ==> after[k].start_time == c.start_time + start_trim)
                &&& (i64::MIN <= c.in_point + scaled(start_trim as int, c.speed) <= i64::MAX ==> after[k].in_point
                    == c.in_point + scaled(start_trim as int, c.speed))
                &&& (i64::MIN <= c.out_point - scaled(end_trim as int, c.speed) <= i64::MAX ==> after[k].out_point
                    == c.out_point - scaled(end_trim as int, c.speed))
                &&& info.start_time == after[k].start_time
                &&& info.duration == after[k].duration
                &&& info.in_point == after[k].in_point
                &&& info.out_point == after[k].out_point
            }
        }),
{
    let p = s.current->0;
    let tid = parsed_id(track_id);
    let cid = parsed_id(clip_id);
    lemma_located(track_id, clip_id, p, "Clip '"@ + clip_id + "' not found."@);
    let ti = track_pos(p, tid);
    let c = located_clip(p, tid, cid);
    let tc = trimmed(c, start_trim, end_trim);
    let rest = p.timeline.tracks[ti].clips.remove(clip_pos(p, tid, cid));
    let k = insert_pos(rest, tc.start_time);
    lemma_insert_pos_bounds(rest, tc.start_time);
    let after = s2.current->0.timeline.tracks[ti].clips;
    assert(after == rest.insert(k, tc));
    assert(after.remove(k) =~= rest);
    assert(after[k] == tc);
    assert(c.duration - start_trim - end_trim > 0);
    assert(after[k].duration == c.duration - start_trim - end_trim);
    assert(after[k].id == c.id);
}

/// A successful `split_clip` replaces the clip asked for with two parts:
/// the first starts where the clip started and ends at the split time,
/// keeping the clip's filters; the second starts at the split time and has
/// none; together they last as long as the clip, share its media and speed,
/// and the source is cut at one point, where the first part's out point is
/// the second part's in point. The infos given back describe the two parts,
/// the track's other clips stay, and so do the other tracks.
pub proof fn law_split_replaces_clip_by_parts(
    track_id: Seq<char>,
    clip_id: Seq<char>,
    split_time: i64,
    s: ProjectStateView,
    u: UndoView,
    s2: ProjectStateView,
    u2: UndoView,
    infos: Seq<ClipInfoView>,
    left_id: u128,
    right_id: u128,
    rec_id: u128,
    ts: i64,
)
    requires
        split_clip_check(track_id, clip_id, split_time, s) is None,
        split_clip_outcome(track_id, clip_id, split_time, s, u, s2, u2, infos, left_id, right_id, rec_id, ts),
    ensures
        ({
            let p = s.current->0;
            let p2 = s2.current->0;
            let tid = parsed_id(track_id);
            let cid = parsed_id(clip_id);
            let ti = track_pos(p, tid);
            let c = located_clip(p, tid, cid);
            let before = p.timeline.tracks[ti].clips;
            let after = p2.timeline.tracks[ti].clips;
            &&& infos.len() == 2
            &&& infos[0].id == hyphenated(left_id) && infos[1].id == hyphenated(right_id)
            &&& infos[0].start_time == c.start_time
            &&& infos[0].start_time + infos[0].duration == split_time
            &&& infos[1].start_time == split_time
            &&& infos[0].duration + infos[1].duration == c.duration
            &&& infos[0].in_point == c.in_point
            &&& infos[1].out_point == c.out_point
            &&& infos[0].out_point == infos[1].in_point
            &&& infos[0].media_id == c.media_id && infos[1].media_id == c.media_id
            &&& after.len() == before.len() + 1
            &&& p2.timeline.tracks.len() == p.timeline.tracks.len()
            &&& forall|a: int| 0 <= a < p.timeline.tracks.len() && a != ti ==> #[trigger] p2.timeline.tracks[a]
                == p.timeline.tracks[a]
            &&& exists|k: int| {
                &&& 0 <= k < after.len()
                &&& #[trigger] after[k].id == left_id
                &&& after[k].start_time == c.start_time
                &&& after[k].duration == split_time - c.start_time
                &&& after[k].filters == c.filters
                &&& after[k].speed == c.speed
                &&& after[k].media_id == c.media_id
            }
            &&& exists|k: int| {
                &&& 0 <= k < after.len()
                &&& #[trigger] after[k].id == right_id
                &&& after[k].start_time == split_time
                &&& after[k].duration == c.start_time + c.duration - split_time
                &&& after[k].filters.len() == 0
                &&& after[k].speed == c.speed
                &&& after[k].media_id == c.media_id
            }
        }),
{
    let p = s.current->0;
    let tid = parsed_id(track_id);
    let cid = parsed_id(clip_id);
    lemma_located(track_id, clip_id, p, "Clip '"@ + clip_id + "' not found."@);
    let ti = track_pos(p, tid);
    let c = located_clip(p, tid, cid);
    let l = left_part(c, split_time, left_id);
    let r = right_part(c, split_time, right_id);
    let rest = p.timeline.tracks[ti].clips.remove(clip_pos(p, tid, cid));
    let k1 = insert_pos(rest, l.start_time);
    lemma_insert_pos_bounds(rest, l.start_time);
    let one = rest.insert(k1, l);
    let k2 = insert_pos(one, r.start_time);
    lemma_insert_pos_bounds(one, r.start_time);
    let after = s2.current->0.timeline.tracks[ti].clips;
    assert(after == one.insert(k2, r));
    assert(after[k2] == r);
    if k2 <= k1 {
        assert(after[k1 + 1] == l);
    } else {
        assert(after[k1] == l);
    }
}

/// A successful `remove_track` takes out exactly the track asked for,
/// keeping the others in their order.
pub proof fn law_remove_track_takes_out_that_track(
    track_id: Seq<char>,
    s: ProjectStateView,
    u: UndoView,
    s2: ProjectStateView,
    u2: UndoView,
    rid: u128,
    ts: i64,
)
    requires
        remove_track_check(track_id, s) is None,
        remove_track_outcome(track_id, s, u, s2, u2, rid, ts),
    ensures
        ({
            let p = s.current->0;
            let ti = track_pos(p, parsed_id(track_id));
            &&& 0 <= ti < p.timeline.tracks.len()
            &&& p.timeline.tracks[ti].id == parsed_id(track_id)
            &&& s2.current->0.timeline.tracks == p.timeline.tracks.remove(ti)
        }),
{
    let p = s.current->0;
    let tid = parsed_id(track_id);
    let tw = choose|i: int| 0 <= i < p.timeline.tracks.len() && #[trigger] track_has_id(tid)(p.timeline.tracks[i]);
    lemma_exists_first(p.timeline.tracks, track_has_id(tid), tw);
}

/// Whether `c` is a clip of one of the tracks.
pub open spec fn clip_of_some_track(tracks: Seq<TrackView>, c: ClipView) -> bool {
    exists|a: int, j: int| 0 <= a < tracks.len() && 0 <= j < tracks[a].clips.len() && #[trigger] tracks[a].clips[j] == c
}

/// The timeline state lists each clip of each track, and nothing else:
/// every clip of a track is in the list, and every listed clip is a clip of
/// some track.
pub proof fn law_flat_clips_lists_every_clip(tracks: Seq<TrackView>)
    ensures
        forall|a: int, j: int|
            0 <= a < tracks.len() && 0 <= j < tracks[a].clips.len() ==> #[trigger] flat_clips(tracks).contains(
                tracks[a].clips[j],
            ),
        forall|k: int|
            0 <= k < flat_clips(tracks).len() ==> clip_of_some_track(tracks, #[trigger] flat_clips(tracks)[k]),
    decreases tracks.len(),
{
    if tracks.len() > 0 {
        let rest = tracks.drop_last();
        let last = tracks.len() - 1;
        law_flat_clips_lists_every_clip(rest);
        let f0 = flat_clips(rest);
        assert(flat_clips(tracks) == f0 + tracks[last].clips);
        assert forall|a: int, j: int| 0 <= a < tracks.len() && 0 <= j < tracks[a].clips.len() implies #[trigger] flat_clips(
            tracks,
        ).contains(tracks[a].clips[j]) by {
            if a < last {
                assert(tracks[a] == rest[a]);
                assert(f0.contains(rest[a].clips[j]));
                let k = choose|k: int| 0 <= k < f0.len() && f0[k] == rest[a].clips[j];
                assert(flat_clips(tracks)[k] == f0[k]);
            } else {
                assert(flat_clips(tracks)[f0.len() + j] == tracks[last].clips[j]);
            }
        }
        assert forall|k: int| 0 <= k < flat_clips(tracks).len() implies clip_of_some_track(
            tracks,
            #[trigger] flat_clips(tracks)[k],
        ) by {
            if k < f0.len() {
                assert(flat_clips(tracks)[k] == f0[k]);
                assert(clip_of_some_track(rest, f0[k]));
                let (a, j) = choose|a: int, j: int|
                    0 <= a < rest.len() && 0 <= j < rest[a].clips.len() && #[trigger] rest[a].clips[j] == f0[k];
                assert(tracks[a] == rest[a]);
                assert(tracks[a].clips[j] == f0[k]);
            } else {
                let j = k - f0.len();
                assert(flat_clips(tracks)[k] == tracks[last].clips[j]);
            }
        }
    }
}

/// Each clip listed in the timeline state is described by its own values:
/// id, track, media, start, length and in and out points.
pub proof fn law_clip_infos_describe_clips(clips: Seq<ClipView>, k: int)
    requires
        0 <= k < clips.len(),
    ensures
        clip_infos(clips).len() == clips.len(),
        clip_infos(clips)[k].id == hyphenated(clips[k].id),
        clip_infos(clips)[k].track_id == clips[k].track_id,
        clip_infos(clips)[k].media_id == clips[k].media_id,
        clip_infos(clips)[k].start_time == clips[k].start_time,
        clip_infos(clips)[k].duration == clips[k].duration,
        clip_infos(clips)[k].in_point == clips[k].in_point,
        clip_infos(clips)[k].out_point == clips[k].out_point,
{
}

/// Whether `t` lists a transition that one of `clips` holds: by the
/// transition's id and name, from that clip.
pub open spec fn lists_a_held_transition(clips: Seq<ClipView>, t: TransitionInfoView) -> bool {
    exists|c: int, e: int|
        0 <= c < clips.len() && 0 <= e < clips[c].transitions.len() && t.id == hyphenated(
            (#[trigger] clips[c].transitions[e]).id,
        ) && t.from_clip_id == hyphenated(clips[c].id) && t.transition_type == clips[c].transitions[e].name
}

/// Each transition the timeline state lists is one that a clip holds,
/// listed by its own id and name as leading out of that clip, with no
/// target clip and a length of half a second.
pub proof fn law_listed_transitions_are_held(clips: Seq<ClipView>)
    ensures
        forall|k: int|
            0 <= k < listed_transitions(clips).len() ==> {
                let t = #[trigger] listed_transitions(clips)[k];
                &&& lists_a_held_transition(clips, t)
                &&& t.to_clip_id.len() == 0
                &&& t.duration == 500_000
            },
    decreases clips.len(),
{
    if clips.len() > 0 {
        let rest = clips.drop_last();
        let last = clips.len() - 1;
        law_listed_transitions_are_held(rest);
        let l0 = listed_transitions(rest);
        let mine = clip_listings(clips[last]);
        assert(listed_transitions(clips) == l0 + mine);
        assert forall|k: int| 0 <= k < listed_transitions(clips).len() implies {
            let t = #[trigger] listed_transitions(clips)[k];
            &&& lists_a_held_transition(clips, t)
            &&& t.to_clip_id.len() == 0
            &&& t.duration == 500_000
        } by {
            let t = listed_transitions(clips)[k];
            if k < l0.len() {
                assert(t == l0[k]);
                assert(lists_a_held_transition(rest, l0[k]));
                let (c, e) = choose|c: int, e: int|
                    0 <= c < rest.len() && 0 <= e < rest[c].transitions.len() && l0[k].id == hyphenated(
                        (#[trigger] rest[c].transitions[e]).id,
                    ) && l0[k].from_clip_id == hyphenated(rest[c].id) && l0[k].transition_type
                        == rest[c].transitions[e].name;
                assert(clips[c] == rest[c]);
                assert(clips[c].transitions[e] == rest[c].transitions[e]);
            } else {
                let e = k - l0.len();
                assert(t == mine[e]);
                assert(mine[e] == transition_listing(clips[last], clips[last].transitions[e]));
                assert(clips[last].transitions[e] == clips[last].transitions[e]);
            }
        }
    }
}

/// The name of a track kind names it back, and each accepted name gives a
/// kind whose name it is.
pub proof fn law_track_type_names_round_trip(t: TrackType, name: Seq<char>)
    ensures
        track_type_named(track_type_name(t)) == t,
        is_track_type_name(name) ==> track_type_name(track_type_named(name)) == name,
        is_track_type_name(track_type_name(t)),
{
    reveal_strlit("video");
    reveal_strlit("audio");
    reveal_strlit("text");
    assert("audio"@.len() != "text"@.len());
    assert("audio"@[0] != "video"@[0]);
    assert("text"@.len() != "video"@.len());
}

/// A successful `add_transition` adds the transition, under its new id and
/// with the type asked for, at the end of the transitions of each clip that
/// has the from-clip's id, and changes nothing else: the other clips, the
/// clips' other fields and the tracks stay as they were. The info given
/// back names the new id, both clips, the type and the length asked for.
pub proof fn law_add_transition_names_from_clip(
    from_clip: Seq<char>,
    to_clip: Seq<char>,
    transition_type: Seq<char>,
    duration: i64,
    s: ProjectStateView,
    u: UndoView,
    s2: ProjectStateView,
    u2: UndoView,
    info: TransitionInfoView,
    trid: u128,
    rid: u128,
    ts: i64,
)
    requires
        add_transition_outcome(from_clip, to_clip, transition_type, duration, s, u, s2, u2, info, trid, rid, ts),
    ensures
        ({
            let tracks = s.current->0.timeline.tracks;
            let tracks2 = s2.current->0.timeline.tracks;
            let fid = parsed_id(from_clip);
            &&& tracks2.len() == tracks.len()
            &&& forall|a: int| 0 <= a < tracks.len() ==> {
                &&& (#[trigger] tracks2[a]).clips.len() == tracks[a].clips.len()
                &&& tracks2[a].id == tracks[a].id
                &&& forall|j: int| 0 <= j < tracks[a].clips.len() ==> {
                    let c = tracks[a].clips[j];
                    let c2 = #[trigger] tracks2[a].clips[j];
                    &&& c2.id == c.id && c2.start_time == c.start_time && c2.duration == c.duration
                    &&& c2.filters == c.filters && c2.media_id == c.media_id
                    &&& (c.id == fid ==> c2.transitions.len() == c.transitions.len() + 1
                        && c2.transitions.take(c.transitions.len() as int) == c.transitions
                        && c2.transitions.last().id == trid && c2.transitions.last().name == transition_type)
                    &&& (c.id != fid ==> c2.transitions == c.transitions)
                }
            }
            &&& info.id == hyphenated(trid)
            &&& info.from_clip_id == from_clip && info.to_clip_id == to_clip
            &&& info.transition_type == transition_type && info.duration == duration
        }),
{
    let tracks = s.current->0.timeline.tracks;
    let tracks2 = s2.current->0.timeline.tracks;
    let fid = parsed_id(from_clip);
    assert forall|a: int, j: int| 0 <= a < tracks.len() && 0 <= j < tracks[a].clips.len() && tracks[a].clips[j].id
        == fid implies #[trigger] tracks2[a].clips[j].transitions.take(tracks[a].clips[j].transitions.len() as int)
        == tracks[a].clips[j].transitions by {
        assert(tracks2[a].clips[j].transitions =~= tracks[a].clips[j].transitions.push(
            ClipTransitionView { id: trid, name: transition_type },
        ));
    }
}

} // verus!
