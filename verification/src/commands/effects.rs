//! Effect commands: apply filters to clips, read and change their
//! parameters, and remove them. A clip's filters form its filter stack,
//! numbered from 0 in the order in which they apply.

use vstd::prelude::*;

use crate::commands::timeline::{clip_has_id, record_view, state_after, with_clip};
use crate::deep_copy::{lemma_views_push, views, DeepCopy};
use crate::ids::{hyphenated, now_millis, spec_uuid_parse, uuid_new_v4, uuid_parse, uuid_text};
use crate::json::{json_object, str_member, Json, JsonValue};
use crate::project::{
    Clip, ClipView, FilterInstance, FilterInstanceView, Project, ProjectState, ProjectStateView, ProjectView,
    TrackView,
};
use crate::search::{any, first, is_first, lemma_exists_first, lemma_first};
use crate::text::{blank, cat3, is_blank};
use crate::utils::{record_edit, spec_push, with_change, ActionRecord, ActionRecordView, UndoManager, UndoView};
use vstd::string::StringExecFns;

verus! {

/// A filter on a clip as the inspector shows it.
pub struct FilterInfo {
    pub id: String,
    pub clip_id: String,
    pub filter_type: String,
    pub params: JsonValue,
    pub enabled: bool,
    /// Its place in the clip's filter stack, from 0.
    pub order: u32,
    /// The name shown for it: its type.
    pub name: String,
}

pub struct FilterInfoView {
    pub id: Seq<char>,
    pub clip_id: Seq<char>,
    pub filter_type: Seq<char>,
    pub params: Json,
    pub enabled: bool,
    pub order: u32,
    pub name: Seq<char>,
}

impl View for FilterInfo {
    type V = FilterInfoView;

    open spec fn view(&self) -> FilterInfoView {
        FilterInfoView {
            id: self.id@,
            clip_id: self.clip_id@,
            filter_type: self.filter_type@,
            params: self.params@,
            enabled: self.enabled,
            order: self.order,
            name: self.name@,
        }
    }
}

/// Why an effect command failed: a category and a message.
pub struct FilterError {
    pub kind: String,
    pub message: String,
}

pub struct FilterErrorView {
    pub kind: Seq<char>,
    pub message: Seq<char>,
}

impl View for FilterError {
    type V = FilterErrorView;

    open spec fn view(&self) -> FilterErrorView {
        FilterErrorView { kind: self.kind@, message: self.message@ }
    }
}

pub open spec fn filter_error(kind: Seq<char>, message: Seq<char>) -> FilterErrorView {
    FilterErrorView { kind, message }
}

fn error_of(kind: &str, message: String) -> (e: FilterError)
    ensures
        e@ == filter_error(kind@, message@),
{
    FilterError { kind: String::from_str(kind), message }
}

fn error_text(kind: &str, message: &str) -> (e: FilterError)
    ensures
        e@ == filter_error(kind@, message@),
{
    error_of(kind, String::from_str(message))
}

/// The inspector's view of the filter `f` on the clip `c`.
pub open spec fn filter_info_of(c: ClipView, f: FilterInstanceView) -> FilterInfoView {
    FilterInfoView {
        id: hyphenated(f.id),
        clip_id: hyphenated(c.id),
        filter_type: f.filter_type,
        params: f.params,
        enabled: f.enabled,
        order: f.order,
        name: f.filter_type,
    }
}

fn filter_info(c: &Clip, f: &FilterInstance) -> (info: FilterInfo)
    ensures
        info@ == filter_info_of(c@, f@),
{
    FilterInfo {
        id: uuid_text(f.id),
        clip_id: uuid_text(c.id),
        filter_type: f.filter_type.clone(),
        params: f.params.copy(),
        enabled: f.enabled,
        order: f.order,
        name: f.filter_type.clone(),
    }
}

// ---------------------------------------------------------------------------
// Finding clips and filters anywhere on the timeline
// ---------------------------------------------------------------------------

pub open spec fn track_holds_clip(cid: u128) -> spec_fn(TrackView) -> bool {
    |t: TrackView| any(t.clips, clip_has_id(cid))
}

pub open spec fn filter_has_id(fid: u128) -> spec_fn(FilterInstanceView) -> bool {
    |f: FilterInstanceView| f.id == fid
}

pub open spec fn clip_holds_filter(fid: u128) -> spec_fn(ClipView) -> bool {
    |c: ClipView| any(c.filters, filter_has_id(fid))
}

pub open spec fn track_holds_filter(fid: u128) -> spec_fn(TrackView) -> bool {
    |t: TrackView| any(t.clips, clip_holds_filter(fid))
}

/// Where the first clip with id `cid` is: its track and its place there.
pub open spec fn clip_place(p: ProjectView, cid: u128) -> (int, int) {
    let ti = first(p.timeline.tracks, track_holds_clip(cid));
    (ti, first(p.timeline.tracks[ti].clips, clip_has_id(cid)))
}

/// Where the first filter with id `fid` is: its track, its clip there and
/// its place in the clip's stack.
pub open spec fn filter_place(p: ProjectView, fid: u128) -> (int, int, int) {
    let ti = first(p.timeline.tracks, track_holds_filter(fid));
    let ci = first(p.timeline.tracks[ti].clips, clip_holds_filter(fid));
    (ti, ci, first(p.timeline.tracks[ti].clips[ci].filters, filter_has_id(fid)))
}

fn find_filter_in(filters: &Vec<FilterInstance>, fid: u128) -> (r: Option<usize>)
    ensures
        r matches Some(i) ==> is_first(views(filters@), filter_has_id(fid), i as int),
        r is None ==> !any(views(filters@), filter_has_id(fid)),
{
    let mut i: usize = 0;
    while i < filters.len()
        invariant
            i <= filters.len(),
            forall|j: int| 0 <= j < i ==> !filter_has_id(fid)(#[trigger] views(filters@)[j]),
        decreases filters.len() - i,
    {
        if filters[i].id == fid {
            return Some(i);
        }
        i = i + 1;
    }
    None
}

fn find_clip_in(clips: &Vec<Clip>, cid: u128) -> (r: Option<usize>)
    ensures
        r matches Some(i) ==> is_first(views(clips@), clip_has_id(cid), i as int),
        r is None ==> !any(views(clips@), clip_has_id(cid)),
{
    let mut i: usize = 0;
    while i < clips.len()
        invariant
            i <= clips.len(),
            forall|j: int| 0 <= j < i ==> !clip_has_id(cid)(#[trigger] views(clips@)[j]),
        decreases clips.len() - i,
    {
        if clips[i].id == cid {
            return Some(i);
        }
        i = i + 1;
    }
    None
}

/// The track and place of the first clip with id `cid`.
fn find_clip(project: &Project, cid: u128) -> (r: Option<(usize, usize)>)
    ensures
        r is None <==> !any(project@.timeline.tracks, track_holds_clip(cid)),
        r matches Some((ti, ci)) ==> (ti as int, ci as int) == clip_place(project@, cid) && ti
            < project@.timeline.tracks.len() && ci < project@.timeline.tracks[ti as int].clips.len(),
{
    let tracks = &project.timeline.tracks;
    let mut i: usize = 0;
    while i < tracks.len()
        invariant
            i <= tracks.len(),
            tracks == &project.timeline.tracks,
            forall|j: int| 0 <= j < i ==> !track_holds_clip(cid)(#[trigger] views(tracks@)[j]),
        decreases tracks.len() - i,
    {
        match find_clip_in(&tracks[i].clips, cid) {
            Some(ci) => {
                proof {
                    lemma_first(views(tracks[i as int].clips@), clip_has_id(cid), ci as int);
                    lemma_first(views(tracks@), track_holds_clip(cid), i as int);
                }
                return Some((i, ci));
            },
            None => {},
        }
        i = i + 1;
    }
    None
}

/// The track, clip and place of the first filter with id `fid`.
fn find_filter(project: &Project, fid: u128) -> (r: Option<(usize, usize, usize)>)
    ensures
        r is None <==> !any(project@.timeline.tracks, track_holds_filter(fid)),
        r matches Some((ti, ci, fi)) ==> (ti as int, ci as int, fi as int) == filter_place(project@, fid) && ti
            < project@.timeline.tracks.len() && ci < project@.timeline.tracks[ti as int].clips.len() && fi
            < project@.timeline.tracks[ti as int].clips[ci as int].filters.len(),
{
    let tracks = &project.timeline.tracks;
    let mut i: usize = 0;
    while i < tracks.len()
        invariant
            i <= tracks.len(),
            tracks == &project.timeline.tracks,
            forall|j: int| 0 <= j < i ==> !track_holds_filter(fid)(#[trigger] views(tracks@)[j]),
        decreases tracks.len() - i,
    {
        let clips = &tracks[i].clips;
        let mut k: usize = 0;
        while k < clips.len()
            invariant
                k <= clips.len(),
                i < tracks.len(),
                tracks == &project.timeline.tracks,
                clips == &tracks[i as int].clips,
                forall|j: int| 0 <= j < i ==> !track_holds_filter(fid)(#[trigger] views(tracks@)[j]),
                forall|j: int| 0 <= j < k ==> !clip_holds_filter(fid)(#[trigger] views(clips@)[j]),
            decreases clips.len() - k,
        {
            match find_filter_in(&clips[k].filters, fid) {
                Some(fi) => {
                    proof {
                        lemma_first(views(clips[k as int].filters@), filter_has_id(fid), fi as int);
                        lemma_first(views(clips@), clip_holds_filter(fid), k as int);
                        lemma_first(views(tracks@), track_holds_filter(fid), i as int);
                    }
                    return Some((i, k, fi));
                },
                None => {},
            }
            k = k + 1;
        }
        assert(!track_holds_filter(fid)(views(tracks@)[i as int])) by {
            if any(views(clips@), clip_holds_filter(fid)) {
                let j = choose|j: int| 0 <= j < views(clips@).len() && clip_holds_filter(fid)(#[trigger] views(clips@)[j]);
                assert(!clip_holds_filter(fid)(views(clips@)[j]));
            }
        }
        i = i + 1;
    }
    None
}

/// Why the filter `filter_id` of the open project cannot be found, if it
/// cannot.
pub open spec fn filter_lookup_check(filter_id: Seq<char>, s: ProjectStateView) -> Option<FilterErrorView> {
    if blank(filter_id) {
        Some(filter_error("validation"@, "Filter ID must not be empty."@))
    } else if s.current is None {
        Some(filter_error("no_active_project"@, "No active project."@))
    } else {
        filter_missing(filter_id, s.current->0)
    }
}

/// Why the filter `filter_id` is not in `p`, if it is not.
pub open spec fn filter_missing(filter_id: Seq<char>, p: ProjectView) -> Option<FilterErrorView> {
    match spec_uuid_parse(filter_id) {
        Err(e) => Some(filter_error("filter_not_found"@, "Filter '"@ + filter_id + "' not found: "@ + e)),
        Ok(fid) => {
            if !any(p.timeline.tracks, track_holds_filter(fid)) {
                Some(
                    filter_error(
                        "filter_not_found"@,
                        "Filter '"@ + filter_id + "' not found: no filter has this id."@,
                    ),
                )
            } else {
                None
            }
        },
    }
}

fn locate_filter(filter_id: &String, project: &Project) -> (r: Result<(usize, usize, usize), FilterError>)
    ensures
        r is Ok <==> filter_missing(filter_id@, project@) is None,
        r matches Err(e) ==> Some(e@) == filter_missing(filter_id@, project@),
        r matches Ok((ti, ci, fi)) ==> (ti as int, ci as int, fi as int) == filter_place(
            project@,
            spec_uuid_parse(filter_id@)->Ok_0,
        ) && ti < project@.timeline.tracks.len() && ci < project@.timeline.tracks[ti as int].clips.len() && fi
            < project@.timeline.tracks[ti as int].clips[ci as int].filters.len(),
{
    let fid = match uuid_parse(filter_id.as_str()) {
        Ok(v) => v,
        Err(e) => {
            return Err(error_of("filter_not_found", cat3("Filter '", filter_id.as_str(), "' not found: ").concat(e.as_str())));
        },
    };
    match find_filter(project, fid) {
        Some(place) => Ok(place),
        None => Err(
            error_of("filter_not_found", cat3("Filter '", filter_id.as_str(), "' not found: no filter has this id.")),
        ),
    }
}

/// `p` with the filters of the clip at `ci` on the track at `ti` replaced.
pub open spec fn with_filters(p: ProjectView, ti: int, ci: int, filters: Seq<FilterInstanceView>) -> ProjectView {
    with_clip(p, ti, ci, ClipView { filters, ..p.timeline.tracks[ti].clips[ci] })
}

fn set_filters(project: &mut Project, ti: usize, ci: usize, filters: Vec<FilterInstance>)
    requires
        ti < old(project)@.timeline.tracks.len(),
        ci < old(project)@.timeline.tracks[ti as int].clips.len(),
    ensures
        final(project)@ == with_filters(old(project)@, ti as int, ci as int, views(filters@)),
{
    let ghost p0 = project@;
    let mut track = project.timeline.tracks.remove(ti);
    let mut clip = track.clips.remove(ci);
    clip.filters = filters;
    track.clips.insert(ci, clip);
    assert(views(track.clips@) =~= p0.timeline.tracks[ti as int].clips.update(
        ci as int,
        ClipView { filters: views(filters@), ..p0.timeline.tracks[ti as int].clips[ci as int] },
    ));
    project.timeline.tracks.insert(ti, track);
    assert(views(project.timeline.tracks@) =~= with_filters(p0, ti as int, ci as int, views(filters@)).timeline.tracks);
}

// ---------------------------------------------------------------------------
// apply_filter
// ---------------------------------------------------------------------------

/// Whether `params` asks for the filter's defaults: `null` or `{}`.
pub open spec fn asks_for_defaults(params: Json) -> bool {
    params is Null || (params matches Json::Object(m) && m.len() == 0)
}

/// The parameters a new filter gets: those given, or, when defaults are
/// asked for, an empty object (no filter type lists defaults of its own).
pub open spec fn effective_params(params: Json) -> Json {
    if asks_for_defaults(params) {
        Json::Object(Seq::empty())
    } else {
        params
    }
}

/// Why applying a filter fails, if it does.
pub open spec fn apply_filter_check(clip_id: Seq<char>, filter_type: Seq<char>, s: ProjectStateView) -> Option<
    FilterErrorView,
> {
    if blank(clip_id) {
        Some(filter_error("validation"@, "Clip ID must not be empty."@))
    } else if blank(filter_type) {
        Some(filter_error("validation"@, "Filter type must not be empty."@))
    } else if s.current is None {
        Some(filter_error("no_active_project"@, "No active project."@))
    } else {
        match spec_uuid_parse(clip_id) {
            Err(e) => Some(filter_error("clip_not_found"@, "Clip '"@ + clip_id + "' not found: "@ + e)),
            Ok(cid) => {
                if !any(s.current->0.timeline.tracks, track_holds_clip(cid)) {
                    Some(filter_error("clip_not_found"@, "Clip '"@ + clip_id + "' not found: no clip has this id."@))
                } else {
                    None
                }
            },
        }
    }
}

/// A new enabled filter on top of a stack of `n` filters.
pub open spec fn new_filter(fid: u128, filter_type: Seq<char>, params: Json, n: nat) -> FilterInstanceView {
    FilterInstanceView { id: fid, filter_type, params: effective_params(params), enabled: true, order: n as u32 }
}

pub open spec fn apply_filter_record(
    rid: u128,
    ts: i64,
    fid: u128,
    clip_id: Seq<char>,
    filter_type: Seq<char>,
    params: Json,
) -> ActionRecordView {
    record_view(
        rid,
        "apply_filter"@,
        "Applied filter '"@ + filter_type + "'"@,
        ts,
        Json::Object(
            seq![
                ("filter_id"@, Json::Str(hyphenated(fid))),
                ("clip_id"@, Json::Str(clip_id)),
                ("filter_type"@, Json::Str(filter_type)),
                ("params"@, effective_params(params)),
            ],
        ),
    )
}

pub open spec fn apply_filter_outcome(
    clip_id: Seq<char>,
    filter_type: Seq<char>,
    params: Json,
    s: ProjectStateView,
    u: UndoView,
    s2: ProjectStateView,
    u2: UndoView,
    info: FilterInfoView,
    fid: u128,
    rid: u128,
    ts: i64,
) -> bool {
    let p = s.current->0;
    let (ti, ci) = clip_place(p, spec_uuid_parse(clip_id)->Ok_0);
    let c = p.timeline.tracks[ti].clips[ci];
    let f = new_filter(fid, filter_type, params, c.filters.len());
    &&& info == filter_info_of(c, f)
    &&& s2 == state_after(s, with_filters(p, ti, ci, c.filters.push(f)))
    &&& u2 == spec_push(u, with_change(apply_filter_record(rid, ts, fid, clip_id, filter_type, params), s.current, s2.current))
}

fn effective(params: JsonValue) -> (r: JsonValue)
    ensures
        r@ == effective_params(params@),
{
    let defaults = match &params {
        JsonValue::Null => true,
        JsonValue::Object(m) => m.len() == 0,
        _ => false,
    };
    if defaults {
        let r = JsonValue::Object(Vec::new());
        assert(r@->Object_0 =~= Seq::<(Seq<char>, Json)>::empty());
        r
    } else {
        params
    }
}

/// Puts a new enabled filter of type `filter_type` on top of the filter
/// stack of the clip `clip_id`, with `params` (an empty object when `params`
/// is `null` or `{}`), and records the action.
pub fn apply_filter(
    clip_id: String,
    filter_type: String,
    params: JsonValue,
    project_state: &mut ProjectState,
    undo_manager: &mut UndoManager,
) -> (r: Result<FilterInfo, FilterError>)
    ensures
        r is Ok <==> apply_filter_check(clip_id@, filter_type@, old(project_state)@) is None,
        r matches Err(e) ==> Some(e@) == apply_filter_check(clip_id@, filter_type@, old(project_state)@)
            && final(project_state)@ == old(project_state)@ && final(undo_manager)@ == old(undo_manager)@,
        r matches Ok(info) ==> exists|fid: u128, rid: u128, ts: i64| #[trigger] apply_filter_outcome(
            clip_id@,
            filter_type@,
            params@,
            old(project_state)@,
            old(undo_manager)@,
            final(project_state)@,
            final(undo_manager)@,
            info@,
            fid,
            rid,
            ts,
        ),
{
    if is_blank(clip_id.as_str()) {
        return Err(error_text("validation", "Clip ID must not be empty."));
    }
    if is_blank(filter_type.as_str()) {
        return Err(error_text("validation", "Filter type must not be empty."));
    }
    let mut project = match project_state.get_current_project() {
        Some(p) => p,
        None => {
            return Err(error_text("no_active_project", "No active project."));
        },
    };
    let cid = match uuid_parse(clip_id.as_str()) {
        Ok(v) => v,
        Err(e) => {
            return Err(error_of("clip_not_found", cat3("Clip '", clip_id.as_str(), "' not found: ").concat(e.as_str())));
        },
    };
    let (ti, ci) = match find_clip(&project, cid) {
        Some(place) => place,
        None => {
            return Err(error_of("clip_not_found", cat3("Clip '", clip_id.as_str(), "' not found: no clip has this id.")));
        },
    };
    let ghost pv = params@;
    let clip = project.timeline.tracks[ti].clips[ci].deep_copy();
    let fid = uuid_new_v4();
    let applied = effective(params);
    let filter = FilterInstance {
        id: fid,
        filter_type: filter_type.clone(),
        params: applied.copy(),
        enabled: true,
        order: clip.filters.len() as u32,
    };
    assert(filter@ == new_filter(fid, filter_type@, pv, clip@.filters.len()));
    let info = filter_info(&clip, &filter);
    let mut filters = crate::deep_copy::copy_vec(&clip.filters);
    proof {
        lemma_views_push(filters@, filter);
    }
    filters.push(filter);
    set_filters(&mut project, ti, ci, filters);
    let rid = uuid_new_v4();
    let ts = now_millis();
    let mut members: Vec<(String, JsonValue)> = Vec::new();
    members.push(str_member("filter_id", uuid_text(fid)));
    members.push(str_member("clip_id", clip_id.clone()));
    members.push(str_member("filter_type", filter_type.clone()));
    members.push((String::from_str("params"), applied));
    let ghost mv = crate::json::members_view(members@);
    let record = ActionRecord {
        id: rid,
        action_type: String::from_str("apply_filter"),
        description: cat3("Applied filter '", filter_type.as_str(), "'"),
        timestamp: ts,
        data: json_object(members),
        change: None,
    };
    assert(record@ == apply_filter_record(rid, ts, fid, clip_id@, filter_type@, pv)) by {
        assert(mv =~= seq![
            ("filter_id"@, Json::Str(hyphenated(fid))),
            ("clip_id"@, Json::Str(clip_id@)),
            ("filter_type"@, Json::Str(filter_type@)),
            ("params"@, effective_params(pv)),
        ]);
    }
    record_edit(project_state, undo_manager, record, project);
    assert(apply_filter_outcome(clip_id@, filter_type@, pv, old(project_state)@, old(undo_manager)@,
        project_state@, undo_manager@, info@, fid, rid, ts));
    let ghost iv = info@;
    let r: Result<FilterInfo, FilterError> = Ok(info);
    assert(r->Ok_0@ == iv);
    r
}

// ---------------------------------------------------------------------------
// get_filter_params
// ---------------------------------------------------------------------------

/// The filter that the text `filter_id` names in `p`.
pub open spec fn named_filter(p: ProjectView, filter_id: Seq<char>) -> FilterInstanceView {
    let (ti, ci, fi) = filter_place(p, spec_uuid_parse(filter_id)->Ok_0);
    p.timeline.tracks[ti].clips[ci].filters[fi]
}

/// The parameters of the filter `filter_id` of the open project.
pub fn get_filter_params(filter_id: String, project_state: &ProjectState) -> (r: Result<JsonValue, FilterError>)
    ensures
        r is Ok <==> filter_lookup_check(filter_id@, project_state@) is None,
        r matches Err(e) ==> Some(e@) == filter_lookup_check(filter_id@, project_state@),
        r matches Ok(params) ==> params@ == named_filter(project_state@.current->0, filter_id@).params,
{
    if is_blank(filter_id.as_str()) {
        return Err(error_text("validation", "Filter ID must not be empty."));
    }
    let project = match &project_state.current_project {
        Some(p) => p,
        None => {
            return Err(error_text("no_active_project", "No active project."));
        },
    };
    let (ti, ci, fi) = match locate_filter(&filter_id, project) {
        Ok(place) => place,
        Err(e) => {
            return Err(e);
        },
    };
    let params = project.timeline.tracks[ti].clips[ci].filters[fi].params.copy();
    Ok(params)
}

// ---------------------------------------------------------------------------
// remove_filter
// ---------------------------------------------------------------------------

/// A filter's place once the filter at place `gap` has left the stack.
pub open spec fn closed_up(f: FilterInstanceView, gap: u32) -> FilterInstanceView {
    if f.order > gap {
        FilterInstanceView { order: (f.order - 1) as u32, ..f }
    } else {
        f
    }
}

/// The stack without the filter at `fi`, the filters above it moved down
/// one place.
pub open spec fn stack_without(filters: Seq<FilterInstanceView>, fi: int) -> Seq<FilterInstanceView> {
    let gap = filters[fi].order;
    filters.remove(fi).map_values(|f: FilterInstanceView| closed_up(f, gap))
}

pub open spec fn remove_filter_record(
    rid: u128,
    ts: i64,
    filter_id: Seq<char>,
    c: ClipView,
    f: FilterInstanceView,
) -> ActionRecordView {
    record_view(
        rid,
        "remove_filter"@,
        "Removed filter '"@ + f.filter_type + "'"@,
        ts,
        Json::Object(
            seq![
                ("filter_id"@, Json::Str(filter_id)),
                ("clip_id"@, Json::Str(hyphenated(c.id))),
                ("filter_type"@, Json::Str(f.filter_type)),
                ("params"@, f.params),
                ("order"@, Json::Int(f.order as i64)),
            ],
        ),
    )
}

pub open spec fn remove_filter_outcome(
    filter_id: Seq<char>,
    s: ProjectStateView,
    u: UndoView,
    s2: ProjectStateView,
    u2: UndoView,
    rid: u128,
    ts: i64,
) -> bool {
    let p = s.current->0;
    let (ti, ci, fi) = filter_place(p, spec_uuid_parse(filter_id)->Ok_0);
    let c = p.timeline.tracks[ti].clips[ci];
    &&& s2 == state_after(s, with_filters(p, ti, ci, stack_without(c.filters, fi)))
    &&& u2 == spec_push(u, with_change(remove_filter_record(rid, ts, filter_id, c, c.filters[fi]), s.current, s2.current))
}

/// Removes the filter `filter_id` from its clip; the filters above it move
/// down one place. Records the action.
pub fn remove_filter(filter_id: String, project_state: &mut ProjectState, undo_manager: &mut UndoManager) -> (r:
    Result<bool, FilterError>)
    ensures
        r is Ok <==> filter_lookup_check(filter_id@, old(project_state)@) is None,
        r matches Ok(b) ==> b,
        r matches Err(e) ==> Some(e@) == filter_lookup_check(filter_id@, old(project_state)@)
            && final(project_state)@ == old(project_state)@ && final(undo_manager)@ == old(undo_manager)@,
        r is Ok ==> exists|rid: u128, ts: i64| #[trigger] remove_filter_outcome(
            filter_id@,
            old(project_state)@,
            old(undo_manager)@,
            final(project_state)@,
            final(undo_manager)@,
            rid,
            ts,
        ),
{
    if is_blank(filter_id.as_str()) {
        return Err(error_text("validation", "Filter ID must not be empty."));
    }
    let mut project = match project_state.get_current_project() {
        Some(p) => p,
        None => {
            return Err(error_text("no_active_project", "No active project."));
        },
    };
    let (ti, ci, fi) = match locate_filter(&filter_id, &project) {
        Ok(place) => place,
        Err(e) => {
            return Err(e);
        },
    };
    let clip = project.timeline.tracks[ti].clips[ci].deep_copy();
    let gap = clip.filters[fi].order;
    let ghost cv = clip@;
    let ghost rest = cv.filters.remove(fi as int);
    let mut kept: Vec<FilterInstance> = Vec::new();
    let mut j: usize = 0;
    while j < clip.filters.len()
        invariant
            j <= clip.filters.len(),
            fi < clip.filters.len(),
            cv == clip@,
            gap == cv.filters[fi as int].order,
            rest == cv.filters.remove(fi as int),
            views(kept@) == (if j <= fi {
                rest.take(j as int)
            } else {
                rest.take(j - 1)
            }).map_values(|f: FilterInstanceView| closed_up(f, gap)),
        decreases clip.filters.len() - j,
    {
        if j != fi {
            let mut f = clip.filters[j].deep_copy();
            if f.order > gap {
                f.order = f.order - 1;
            }
            assert(f@ == closed_up(cv.filters[j as int], gap));
            proof {
                lemma_views_push(kept@, f);
                if j < fi {
                    assert(rest.take(j + 1) =~= rest.take(j as int).push(cv.filters[j as int]));
                } else {
                    assert(rest.take(j as int) =~= rest.take(j - 1).push(cv.filters[j as int]));
                }
            }
            kept.push(f);
        }
        j = j + 1;
    }
    assert(rest.take(j - 1) =~= rest);
    assert(views(kept@) =~= stack_without(cv.filters, fi as int));
    let removed = clip.filters[fi].deep_copy();
    set_filters(&mut project, ti, ci, kept);
    let rid = uuid_new_v4();
    let ts = now_millis();
    let mut members: Vec<(String, JsonValue)> = Vec::new();
    members.push(str_member("filter_id", filter_id.clone()));
    members.push(str_member("clip_id", uuid_text(clip.id)));
    members.push(str_member("filter_type", removed.filter_type.clone()));
    members.push((String::from_str("params"), removed.params.copy()));
    members.push((String::from_str("order"), JsonValue::Int(removed.order as i64)));
    let ghost mv = crate::json::members_view(members@);
    let record = ActionRecord {
        id: rid,
        action_type: String::from_str("remove_filter"),
        description: cat3("Removed filter '", removed.filter_type.as_str(), "'"),
        timestamp: ts,
        data: json_object(members),
        change: None,
    };
    assert(record@ == remove_filter_record(rid, ts, filter_id@, cv, cv.filters[fi as int])) by {
        assert(mv =~= seq![
            ("filter_id"@, Json::Str(filter_id@)),
            ("clip_id"@, Json::Str(hyphenated(cv.id))),
            ("filter_type"@, Json::Str(cv.filters[fi as int].filter_type)),
            ("params"@, cv.filters[fi as int].params),
            ("order"@, Json::Int(cv.filters[fi as int].order as i64)),
        ]);
    }
    record_edit(project_state, undo_manager, record, project);
    assert(remove_filter_outcome(filter_id@, old(project_state)@, old(undo_manager)@, project_state@,
        undo_manager@, rid, ts));
    Ok(true)
}

// ---------------------------------------------------------------------------
// update_filter_params
// ---------------------------------------------------------------------------

/// The members `ms` with `key` set to `value`: the first member with that
/// key takes the value, or the member is added at the end.
pub open spec fn set_member(ms: Seq<(Seq<char>, Json)>, key: Seq<char>, value: Json) -> Seq<(Seq<char>, Json)> {
    if any(ms, key_is(key)) {
        ms.update(first(ms, key_is(key)), (key, value))
    } else {
        ms.push((key, value))
    }
}

pub open spec fn key_is(key: Seq<char>) -> spec_fn((Seq<char>, Json)) -> bool {
    |m: (Seq<char>, Json)| m.0 == key
}

/// The members `current` with each member of `change` set in turn.
pub open spec fn merge_members(current: Seq<(Seq<char>, Json)>, change: Seq<(Seq<char>, Json)>) -> Seq<
    (Seq<char>, Json),
>
    decreases change.len(),
{
    if change.len() == 0 {
        current
    } else {
        set_member(merge_members(current, change.drop_last()), change.last().0, change.last().1)
    }
}

/// Parameters after a change: when both are objects, the keys given change
/// and the others keep their values; otherwise the new parameters replace
/// the old ones.
pub open spec fn updated_params(current: Json, change: Json) -> Json {
    match (current, change) {
        (Json::Object(a), Json::Object(b)) => Json::Object(merge_members(a, b)),
        _ => change,
    }
}

/// Why changing the parameters of the filter `filter_id` fails, if it does.
pub open spec fn update_filter_check(filter_id: Seq<char>, params: Json, s: ProjectStateView) -> Option<
    FilterErrorView,
> {
    if blank(filter_id) {
        Some(filter_error("validation"@, "Filter ID must not be empty."@))
    } else if params is Null {
        Some(filter_error("validation"@, "Parameters must not be null."@))
    } else if s.current is None {
        Some(filter_error("no_active_project"@, "No active project."@))
    } else {
        filter_missing(filter_id, s.current->0)
    }
}

pub open spec fn update_filter_record(
    rid: u128,
    ts: i64,
    filter_id: Seq<char>,
    f: FilterInstanceView,
    params: Json,
) -> ActionRecordView {
    record_view(
        rid,
        "update_filter_params"@,
        "Updated filter '"@ + f.filter_type + "'"@,
        ts,
        Json::Object(
            seq![
                ("filter_id"@, Json::Str(filter_id)),
                ("original_params"@, f.params),
                ("new_params"@, params),
            ],
        ),
    )
}

pub open spec fn update_filter_outcome(
    filter_id: Seq<char>,
    params: Json,
    s: ProjectStateView,
    u: UndoView,
    s2: ProjectStateView,
    u2: UndoView,
    info: FilterInfoView,
    rid: u128,
    ts: i64,
) -> bool {
    let p = s.current->0;
    let (ti, ci, fi) = filter_place(p, spec_uuid_parse(filter_id)->Ok_0);
    let c = p.timeline.tracks[ti].clips[ci];
    let f = c.filters[fi];
    let f2 = FilterInstanceView { params: updated_params(f.params, params), ..f };
    &&& info == filter_info_of(c, f2)
    &&& s2 == state_after(s, with_filters(p, ti, ci, c.filters.update(fi, f2)))
    &&& u2 == spec_push(u, with_change(update_filter_record(rid, ts, filter_id, f, params), s.current, s2.current))
}

fn set_member_in(members: &mut Vec<(String, JsonValue)>, key: &String, value: &JsonValue)
    ensures
        crate::json::members_view(final(members)@) == set_member(crate::json::members_view(old(members)@), key@, value@),
{
    let ghost mv = crate::json::members_view(members@);
    let mut i: usize = 0;
    while i < members.len()
        invariant
            i <= members.len(),
            mv == crate::json::members_view(members@),
            members@ == old(members)@,
            forall|j: int| 0 <= j < i ==> !key_is(key@)(#[trigger] mv[j]),
        decreases members.len() - i,
    {
        if members[i].0.eq(key) {
            proof {
                assert(key_is(key@)(mv[i as int]));
                lemma_first(mv, key_is(key@), i as int);
            }
            members.set(i, (key.clone(), value.copy()));
            assert(crate::json::members_view(members@) =~= mv.update(i as int, (key@, value@)));
            return;
        }
        i = i + 1;
    }
    members.push((key.clone(), value.copy()));
    assert(crate::json::members_view(members@) =~= mv.push((key@, value@)));
}

fn merged(current: &JsonValue, change: &JsonValue) -> (r: JsonValue)
    ensures
        r@ == updated_params(current@, change@),
{
    match (current, change) {
        (JsonValue::Object(a), JsonValue::Object(b)) => {
            assert(current@->Object_0 =~= crate::json::members_view(a@));
            assert(change@->Object_0 =~= crate::json::members_view(b@));
            let mut out: Vec<(String, JsonValue)> = Vec::new();
            let mut i: usize = 0;
            while i < a.len()
                invariant
                    i <= a.len(),
                    crate::json::members_view(out@) == crate::json::members_view(a@).take(i as int),
                decreases a.len() - i,
            {
                let ghost before = out@;
                let key = a[i].0.clone();
                let value = a[i].1.copy();
                out.push((key, value));
                assert(out@ == before.push((key, value)));
                assert(crate::json::members_view(out@) =~= crate::json::members_view(before).push((a@[i as int].0@, a@[i as int].1@)));
                assert(crate::json::members_view(out@) =~= crate::json::members_view(a@).take(i + 1));
                i = i + 1;
            }
            assert(crate::json::members_view(a@).take(i as int) =~= crate::json::members_view(a@));
            let ghost bv = crate::json::members_view(b@);
            let mut k: usize = 0;
            while k < b.len()
                invariant
                    k <= b.len(),
                    bv == crate::json::members_view(b@),
                    crate::json::members_view(out@) == merge_members(crate::json::members_view(a@), bv.take(k as int)),
                decreases b.len() - k,
            {
                assert(bv.take(k + 1).drop_last() =~= bv.take(k as int));
                set_member_in(&mut out, &b[k].0, &b[k].1);
                k = k + 1;
            }
            assert(bv.take(k as int) =~= bv);
            let r = JsonValue::Object(out);
            assert(r@->Object_0 =~= crate::json::members_view(out@));
            r
        },
        _ => {
            assert(!(current@ is Object && change@ is Object));
            change.copy()
        },
    }
}

/// Changes the parameters of the filter `filter_id`: for object parameters
/// only the keys given change; other parameters are replaced. Records the
/// action and gives the changed filter.
pub fn update_filter_params(
    filter_id: String,
    params: JsonValue,
    project_state: &mut ProjectState,
    undo_manager: &mut UndoManager,
) -> (r: Result<FilterInfo, FilterError>)
    ensures
        r is Ok <==> update_filter_check(filter_id@, params@, old(project_state)@) is None,
        r matches Err(e) ==> Some(e@) == update_filter_check(filter_id@, params@, old(project_state)@)
            && final(project_state)@ == old(project_state)@ && final(undo_manager)@ == old(undo_manager)@,
        r matches Ok(info) ==> exists|rid: u128, ts: i64| #[trigger] update_filter_outcome(
            filter_id@,
            params@,
            old(project_state)@,
            old(undo_manager)@,
            final(project_state)@,
            final(undo_manager)@,
            info@,
            rid,
            ts,
        ),
{
    if is_blank(filter_id.as_str()) {
        return Err(error_text("validation", "Filter ID must not be empty."));
    }
    let is_null = match &params {
        JsonValue::Null => true,
        _ => false,
    };
    if is_null {
        return Err(error_text("validation", "Parameters must not be null."));
    }
    let mut project = match project_state.get_current_project() {
        Some(p) => p,
        None => {
            return Err(error_text("no_active_project", "No active project."));
        },
    };
    let (ti, ci, fi) = match locate_filter(&filter_id, &project) {
        Ok(place) => place,
        Err(e) => {
            return Err(e);
        },
    };
    let clip = project.timeline.tracks[ti].clips[ci].deep_copy();
    let ghost cv = clip@;
    let original = clip.filters[fi].deep_copy();
    let mut changed = original.deep_copy();
    changed.params = merged(&original.params, &params);
    let ghost f2 = FilterInstanceView { params: updated_params(cv.filters[fi as int].params, params@), ..cv.filters[fi as int] };
    assert(changed@ == f2);
    let info = filter_info(&clip, &changed);
    let mut filters = crate::deep_copy::copy_vec(&clip.filters);
    filters.set(fi, changed);
    assert(views(filters@) =~= cv.filters.update(fi as int, f2));
    set_filters(&mut project, ti, ci, filters);
    let rid = uuid_new_v4();
    let ts = now_millis();
    let mut members: Vec<(String, JsonValue)> = Vec::new();
    members.push(str_member("filter_id", filter_id.clone()));
    members.push((String::from_str("original_params"), original.params.copy()));
    members.push((String::from_str("new_params"), params.copy()));
    let ghost mv = crate::json::members_view(members@);
    let record = ActionRecord {
        id: rid,
        action_type: String::from_str("update_filter_params"),
        description: cat3("Updated filter '", original.filter_type.as_str(), "'"),
        timestamp: ts,
        data: json_object(members),
        change: None,
    };
    assert(record@ == update_filter_record(rid, ts, filter_id@, cv.filters[fi as int], params@)) by {
        assert(mv =~= seq![
            ("filter_id"@, Json::Str(filter_id@)),
            ("original_params"@, cv.filters[fi as int].params),
            ("new_params"@, params@),
        ]);
    }
    record_edit(project_state, undo_manager, record, project);
    assert(update_filter_outcome(filter_id@, params@, old(project_state)@, old(undo_manager)@, project_state@,
        undo_manager@, info@, rid, ts));
    let ghost iv = info@;
    let r: Result<FilterInfo, FilterError> = Ok(info);
    assert(r->Ok_0@ == iv);
    r
}

/// Whether the filters of `s` are numbered 0, 1, 2, ... in stack order.
pub open spec fn numbered_in_order(s: Seq<FilterInstanceView>) -> bool {
    forall|k: int| 0 <= k < s.len() ==> (#[trigger] s[k]).order == k
}

/// Removing a filter from a stack numbered in order leaves a stack numbered
/// in order, one shorter, with the other filters kept in their order; and
/// applying a filter on top of such a stack keeps it numbered in order.
pub proof fn law_stack_stays_numbered(s: Seq<FilterInstanceView>, fi: int, f: FilterInstanceView)
    requires
        numbered_in_order(s),
        0 <= fi < s.len(),
        s.len() < u32::MAX,
        f.order == s.len(),
    ensures
        numbered_in_order(stack_without(s, fi)),
        stack_without(s, fi).len() == s.len() - 1,
        forall|k: int| 0 <= k < fi ==> (#[trigger] stack_without(s, fi)[k]).id == s[k].id,
        forall|k: int| fi <= k < s.len() - 1 ==> (#[trigger] stack_without(s, fi)[k]).id == s[k + 1].id,
        numbered_in_order(s.push(f)),
{
    let w = stack_without(s, fi);
    assert forall|k: int| 0 <= k < w.len() implies (#[trigger] w[k]).order == k by {
        if k < fi {
            assert(s.remove(fi)[k] == s[k]);
        } else {
            assert(s.remove(fi)[k] == s[k + 1]);
        }
    }
    assert forall|k: int| 0 <= k < fi implies (#[trigger] w[k]).id == s[k].id by {
        assert(s.remove(fi)[k] == s[k]);
    }
    assert forall|k: int| fi <= k < s.len() - 1 implies (#[trigger] w[k]).id == s[k + 1].id by {
        assert(s.remove(fi)[k] == s[k + 1]);
    }
    assert forall|k: int| 0 <= k < s.push(f).len() implies (#[trigger] s.push(f)[k]).order == k by {
        if k < s.len() {
            assert(s.push(f)[k] == s[k]);
        }
    }
}

/// Removing the filter just put on top of a stack numbered in order gives
/// the stack back.
pub proof fn law_apply_then_remove_restores_stack(s: Seq<FilterInstanceView>, f: FilterInstanceView)
    requires
        numbered_in_order(s),
        s.len() < u32::MAX,
        f.order == s.len(),
    ensures
        stack_without(s.push(f), s.len() as int) == s,
{
    let w = stack_without(s.push(f), s.len() as int);
    assert(s.push(f).remove(s.len() as int) =~= s);
    assert forall|k: int| 0 <= k < s.len() implies #[trigger] w[k] == s[k] by {
        assert(s[k].order == k);
    }
    assert(w =~= s);
}

/// After the parameters of a filter change, the filter is found at the same
/// place under its id, and reading its parameters gives the changed ones.
pub proof fn law_params_read_back(p: ProjectView, fid: u128, params: Json)
    requires
        any(p.timeline.tracks, track_holds_filter(fid)),
    ensures
        ({
            let (ti, ci, fi) = filter_place(p, fid);
            let c = p.timeline.tracks[ti].clips[ci];
            let f = c.filters[fi];
            let f2 = FilterInstanceView { params: updated_params(f.params, params), ..f };
            let p2 = with_filters(p, ti, ci, c.filters.update(fi, f2));
            &&& filter_place(p2, fid) == (ti, ci, fi)
            &&& p2.timeline.tracks[ti].clips[ci].filters[fi] == f2
        }),
{
    let tracks = p.timeline.tracks;
    let tw = choose|i: int| 0 <= i < tracks.len() && #[trigger] track_holds_filter(fid)(tracks[i]);
    lemma_exists_first(tracks, track_holds_filter(fid), tw);
    let ti = first(tracks, track_holds_filter(fid));
    let clips = tracks[ti].clips;
    let cw = choose|j: int| 0 <= j < clips.len() && #[trigger] clip_holds_filter(fid)(clips[j]);
    lemma_exists_first(clips, clip_holds_filter(fid), cw);
    let ci = first(clips, clip_holds_filter(fid));
    let filters = clips[ci].filters;
    let fw = choose|k: int| 0 <= k < filters.len() && #[trigger] filter_has_id(fid)(filters[k]);
    lemma_exists_first(filters, filter_has_id(fid), fw);
    let fi = first(filters, filter_has_id(fid));
    let f = filters[fi];
    let f2 = FilterInstanceView { params: updated_params(f.params, params), ..f };
    let p2 = with_filters(p, ti, ci, filters.update(fi, f2));
    let tracks2 = p2.timeline.tracks;
    let clips2 = tracks2[ti].clips;
    let filters2 = clips2[ci].filters;
    assert(filters2 == filters.update(fi, f2));
    assert(filter_has_id(fid)(filters2[fi]));
    assert(is_first(filters2, filter_has_id(fid), fi)) by {
        assert forall|k: int| 0 <= k < fi implies !filter_has_id(fid)(#[trigger] filters2[k]) by {
            assert(filters2[k] == filters[k]);
        }
    }
    lemma_first(filters2, filter_has_id(fid), fi);
    assert(clip_holds_filter(fid)(clips2[ci]));
    assert(is_first(clips2, clip_holds_filter(fid), ci)) by {
        assert forall|j: int| 0 <= j < ci implies !clip_holds_filter(fid)(#[trigger] clips2[j]) by {
            assert(clips2[j] == clips[j]);
        }
    }
    lemma_first(clips2, clip_holds_filter(fid), ci);
    assert(track_holds_filter(fid)(tracks2[ti]));
    assert(is_first(tracks2, track_holds_filter(fid), ti)) by {
        assert forall|i: int| 0 <= i < ti implies !track_holds_filter(fid)(#[trigger] tracks2[i]) by {
            assert(tracks2[i] == tracks[i]);
        }
    }
    lemma_first(tracks2, track_holds_filter(fid), ti);
}

proof fn lemma_clip_place(p: ProjectView, cid: u128)
    requires
        any(p.timeline.tracks, track_holds_clip(cid)),
    ensures
        0 <= clip_place(p, cid).0 < p.timeline.tracks.len(),
        0 <= clip_place(p, cid).1 < p.timeline.tracks[clip_place(p, cid).0].clips.len(),
        p.timeline.tracks[clip_place(p, cid).0].clips[clip_place(p, cid).1].id == cid,
{
    let tracks = p.timeline.tracks;
    let tw = choose|i: int| 0 <= i < tracks.len() && #[trigger] track_holds_clip(cid)(tracks[i]);
    lemma_exists_first(tracks, track_holds_clip(cid), tw);
    let clips = tracks[first(tracks, track_holds_clip(cid))].clips;
    let cw = choose|j: int| 0 <= j < clips.len() && #[trigger] clip_has_id(cid)(clips[j]);
    lemma_exists_first(clips, clip_has_id(cid), cw);
}

proof fn lemma_filter_place(p: ProjectView, fid: u128)
    requires
        any(p.timeline.tracks, track_holds_filter(fid)),
    ensures
        ({
            let (ti, ci, fi) = filter_place(p, fid);
            &&& 0 <= ti < p.timeline.tracks.len()
            &&& 0 <= ci < p.timeline.tracks[ti].clips.len()
            &&& 0 <= fi < p.timeline.tracks[ti].clips[ci].filters.len()
            &&& p.timeline.tracks[ti].clips[ci].filters[fi].id == fid
        }),
{
    let tracks = p.timeline.tracks;
    let tw = choose|i: int| 0 <= i < tracks.len() && #[trigger] track_holds_filter(fid)(tracks[i]);
    lemma_exists_first(tracks, track_holds_filter(fid), tw);
    let ti = first(tracks, track_holds_filter(fid));
    let clips = tracks[ti].clips;
    let cw = choose|j: int| 0 <= j < clips.len() && #[trigger] clip_holds_filter(fid)(clips[j]);
    lemma_exists_first(clips, clip_holds_filter(fid), cw);
    let ci = first(clips, clip_holds_filter(fid));
    let filters = clips[ci].filters;
    let fw = choose|k: int| 0 <= k < filters.len() && #[trigger] filter_has_id(fid)(filters[k]);
    lemma_exists_first(filters, filter_has_id(fid), fw);
}

/// Whether `c2` is `c` with only its filters changed.
pub open spec fn same_but_filters(c: ClipView, c2: ClipView) -> bool {
    &&& c2.id == c.id
    &&& c2.media_id == c.media_id
    &&& c2.track_id == c.track_id
    &&& c2.start_time == c.start_time
    &&& c2.duration == c.duration
    &&& c2.in_point == c.in_point
    &&& c2.out_point == c.out_point
    &&& c2.transitions == c.transitions
    &&& c2.speed == c.speed
}

/// Whether `p2` is `p` with only the clip at `ci` of the track at `ti`
/// changed, and that one only in its filters.
pub open spec fn only_filters_of_changed(p: ProjectView, p2: ProjectView, ti: int, ci: int) -> bool {
    &&& p2.timeline.tracks.len() == p.timeline.tracks.len()
    &&& forall|a: int| 0 <= a < p.timeline.tracks.len() && a != ti ==> #[trigger] p2.timeline.tracks[a]
        == p.timeline.tracks[a]
    &&& p2.timeline.tracks[ti].id == p.timeline.tracks[ti].id
    &&& p2.timeline.tracks[ti].clips.len() == p.timeline.tracks[ti].clips.len()
    &&& forall|j: int| 0 <= j < p.timeline.tracks[ti].clips.len() && j != ci ==> #[trigger] p2.timeline.tracks[ti].clips[j]
        == p.timeline.tracks[ti].clips[j]
    &&& same_but_filters(p.timeline.tracks[ti].clips[ci], p2.timeline.tracks[ti].clips[ci])
}

/// A successful `apply_filter` puts one new filter on top of the stack of
/// the clip asked for, keeping the filters below it: it has the new id, the
/// requested type, is enabled, takes the next place, and has the requested
/// parameters, or an empty object when `null` or `{}` asks for defaults.
/// Nothing else of the project changes, and the info given back describes
/// the new filter on that clip.
pub proof fn law_apply_filter_puts_filter_on_top(
    clip_id: Seq<char>,
    filter_type: Seq<char>,
    params: Json,
    s: ProjectStateView,
    u: UndoView,
    s2: ProjectStateView,
    u2: UndoView,
    info: FilterInfoView,
    fid: u128,
    rid: u128,
    ts: i64,
)
    requires
        apply_filter_check(clip_id, filter_type, s) is None,
        apply_filter_outcome(clip_id, filter_type, params, s, u, s2, u2, info, fid, rid, ts),
    ensures
        ({
            let p = s.current->0;
            let p2 = s2.current->0;
            let cid = spec_uuid_parse(clip_id)->Ok_0;
            let (ti, ci) = clip_place(p, cid);
            let old_stack = p.timeline.tracks[ti].clips[ci].filters;
            let new_stack = p2.timeline.tracks[ti].clips[ci].filters;
            let n = old_stack.len() as int;
            &&& 0 <= ti < p.timeline.tracks.len() && 0 <= ci < p.timeline.tracks[ti].clips.len()
            &&& p.timeline.tracks[ti].clips[ci].id == cid
            &&& only_filters_of_changed(p, p2, ti, ci)
            &&& new_stack.len() == n + 1
            &&& new_stack.take(n) == old_stack
            &&& new_stack[n].id == fid
            &&& new_stack[n].filter_type == filter_type
            &&& new_stack[n].enabled
            &&& (n <= u32::MAX ==> new_stack[n].order == n)
            &&& (params is Null ==> new_stack[n].params == Json::Object(Seq::empty()))
            &&& (!(params is Null) && !(params matches Json::Object(m) && m.len() == 0) ==> new_stack[n].params
                == params)
            &&& info.id == hyphenated(fid)
            &&& info.clip_id == hyphenated(cid)
            &&& info.filter_type == filter_type
            &&& info.params == new_stack[n].params
            &&& info.enabled
        }),
{
    let p = s.current->0;
    let cid = spec_uuid_parse(clip_id)->Ok_0;
    lemma_clip_place(p, cid);
    let (ti, ci) = clip_place(p, cid);
    let c = p.timeline.tracks[ti].clips[ci];
    let f = new_filter(fid, filter_type, params, c.filters.len());
    let new_stack = s2.current->0.timeline.tracks[ti].clips[ci].filters;
    assert(new_stack == c.filters.push(f));
    assert(new_stack.take(c.filters.len() as int) =~= c.filters);
}

/// A successful `remove_filter` takes the filter asked for off its clip:
/// the stack loses exactly that filter, the others keep their order, ids,
/// types, parameters and switches, and nothing else of the project changes.
pub proof fn law_remove_filter_takes_off_that_filter(
    filter_id: Seq<char>,
    s: ProjectStateView,
    u: UndoView,
    s2: ProjectStateView,
    u2: UndoView,
    rid: u128,
    ts: i64,
)
    requires
        filter_lookup_check(filter_id, s) is None,
        remove_filter_outcome(filter_id, s, u, s2, u2, rid, ts),
    ensures
        ({
            let p = s.current->0;
            let p2 = s2.current->0;
            let fid = spec_uuid_parse(filter_id)->Ok_0;
            let (ti, ci, fi) = filter_place(p, fid);
            let old_stack = p.timeline.tracks[ti].clips[ci].filters;
            let new_stack = p2.timeline.tracks[ti].clips[ci].filters;
            &&& 0 <= fi < old_stack.len()
            &&& old_stack[fi].id == fid
            &&& only_filters_of_changed(p, p2, ti, ci)
            &&& new_stack.len() + 1 == old_stack.len()
            &&& forall|k: int| 0 <= k < new_stack.len() ==> {
                let o = if k < fi { old_stack[k] } else { old_stack[k + 1] };
                &&& (#[trigger] new_stack[k]).id == o.id
                &&& new_stack[k].filter_type == o.filter_type
                &&& new_stack[k].params == o.params
                &&& new_stack[k].enabled == o.enabled
            }
        }),
{
    let p = s.current->0;
    let fid = spec_uuid_parse(filter_id)->Ok_0;
    lemma_filter_place(p, fid);
    let (ti, ci, fi) = filter_place(p, fid);
    let old_stack = p.timeline.tracks[ti].clips[ci].filters;
    let new_stack = s2.current->0.timeline.tracks[ti].clips[ci].filters;
    assert(new_stack == stack_without(old_stack, fi));
    assert forall|k: int| 0 <= k < new_stack.len() implies {
        let o = if k < fi { old_stack[k] } else { old_stack[k + 1] };
        &&& (#[trigger] new_stack[k]).id == o.id
        &&& new_stack[k].filter_type == o.filter_type
        &&& new_stack[k].params == o.params
        &&& new_stack[k].enabled == o.enabled
    } by {
        if k < fi {
            assert(old_stack.remove(fi)[k] == old_stack[k]);
        } else {
            assert(old_stack.remove(fi)[k] == old_stack[k + 1]);
        }
    }
}

/// A successful `update_filter_params` changes only the parameters of the
/// filter asked for: they become the new ones merged into the old ones (for
/// two objects, the keys given take the new values and the others stay;
/// otherwise the new ones replace them). The filter keeps its place, id,
/// type and switch, the other filters stay, and nothing else changes.
pub proof fn law_update_filter_changes_only_params(
    filter_id: Seq<char>,
    params: Json,
    s: ProjectStateView,
    u: UndoView,
    s2: ProjectStateView,
    u2: UndoView,
    info: FilterInfoView,
    rid: u128,
    ts: i64,
)
    requires
        update_filter_check(filter_id, params, s) is None,
        update_filter_outcome(filter_id, params, s, u, s2, u2, info, rid, ts),
    ensures
        ({
            let p = s.current->0;
            let p2 = s2.current->0;
            let fid = spec_uuid_parse(filter_id)->Ok_0;
            let (ti, ci, fi) = filter_place(p, fid);
            let old_stack = p.timeline.tracks[ti].clips[ci].filters;
            let new_stack = p2.timeline.tracks[ti].clips[ci].filters;
            &&& only_filters_of_changed(p, p2, ti, ci)
            &&& new_stack.len() == old_stack.len()
            &&& forall|k: int| 0 <= k < old_stack.len() && k != fi ==> #[trigger] new_stack[k] == old_stack[k]
            &&& new_stack[fi].id == fid
            &&& new_stack[fi].filter_type == old_stack[fi].filter_type
            &&& new_stack[fi].enabled == old_stack[fi].enabled
            &&& new_stack[fi].order == old_stack[fi].order
            &&& new_stack[fi].params == updated_params(old_stack[fi].params, params)
            &&& (!(params matches Json::Object(_)) ==> new_stack[fi].params == params)
            &&& info.params == new_stack[fi].params
            &&& info.id == hyphenated(fid)
        }),
{
    let p = s.current->0;
    let fid = spec_uuid_parse(filter_id)->Ok_0;
    lemma_filter_place(p, fid);
}

} // verus!
