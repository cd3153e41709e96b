//! The project model: timeline, tracks, clips, media pool and settings, and
//! the state that holds the open project and the recent-projects list.
//!
//! Times are whole microseconds; speeds, volumes and frame rates are whole
//! thousandths (1000 is a speed of 1.0x, a frame rate of 1 fps); instants
//! are milliseconds since the Unix epoch; identifiers are the 128-bit values
//! of UUIDs.

use vstd::prelude::*;

use crate::deep_copy::{copy_option, copy_vec, views, DeepCopy};
use crate::json::{Json, JsonValue};
use vstd::string::StringExecFns;
use vstd::pervasive::VecAdditionalExecFns;

verus! {

/// The kind of content a track carries.
#[derive(Clone, Copy, Debug, PartialEq, Eq, Structural)]
pub enum TrackType {
    Video,
    Audio,
    Text,
}

/// The kind of media an imported file holds.
#[derive(Clone, Copy, Debug, PartialEq, Eq, Structural)]
pub enum MediaType {
    Video,
    Audio,
    Image,
}

/// A key binding chosen by the user in place of an action's default one.
pub struct ShortcutOverride {
    pub action: String,
    pub key: String,
    pub modifiers: Vec<String>,
}

pub struct ShortcutOverrideView {
    pub action: Seq<char>,
    pub key: Seq<char>,
    pub modifiers: Seq<Seq<char>>,
}

impl View for ShortcutOverride {
    type V = ShortcutOverrideView;

    open spec fn view(&self) -> ShortcutOverrideView {
        ShortcutOverrideView { action: self.action@, key: self.key@, modifiers: views(self.modifiers@) }
    }
}

impl DeepCopy for ShortcutOverride {
    fn deep_copy(&self) -> (r: ShortcutOverride) {
        ShortcutOverride {
            action: self.action.clone(),
            key: self.key.clone(),
            modifiers: copy_vec(&self.modifiers),
        }
    }
}

/// Output and preview settings of a project.
pub struct ProjectSettings {
    pub resolution_width: u32,
    pub resolution_height: u32,
    /// Frames per second, in thousandths.
    pub frame_rate: i64,
    pub sample_rate: u32,
    pub color_depth: u32,
    pub preview_quality: String,
    /// The user's key bindings, at most one per action, in the order in
    /// which the actions were first rebound.
    pub shortcut_overrides: Vec<ShortcutOverride>,
}

pub struct ProjectSettingsView {
    pub resolution_width: u32,
    pub resolution_height: u32,
    pub frame_rate: i64,
    pub sample_rate: u32,
    pub color_depth: u32,
    pub preview_quality: Seq<char>,
    pub shortcut_overrides: Seq<ShortcutOverrideView>,
}

impl View for ProjectSettings {
    type V = ProjectSettingsView;

    open spec fn view(&self) -> ProjectSettingsView {
        ProjectSettingsView {
            resolution_width: self.resolution_width,
            resolution_height: self.resolution_height,
            frame_rate: self.frame_rate,
            sample_rate: self.sample_rate,
            color_depth: self.color_depth,
            preview_quality: self.preview_quality@,
            shortcut_overrides: views(self.shortcut_overrides@),
        }
    }
}

impl DeepCopy for ProjectSettings {
    fn deep_copy(&self) -> (r: ProjectSettings) {
        ProjectSettings {
            resolution_width: self.resolution_width,
            resolution_height: self.resolution_height,
            frame_rate: self.frame_rate,
            sample_rate: self.sample_rate,
            color_depth: self.color_depth,
            preview_quality: self.preview_quality.clone(),
            shortcut_overrides: copy_vec(&self.shortcut_overrides),
        }
    }
}

impl Default for ProjectSettings {
    /// 1920x1080 at 30 fps, 48 kHz audio, 8-bit colour, medium preview, no
    /// shortcut of the user's own.
    fn default() -> (s: ProjectSettings)
        ensures
            s@ == (ProjectSettingsView {
                resolution_width: 1920,
                resolution_height: 1080,
                frame_rate: 30000,
                sample_rate: 48000,
                color_depth: 8,
                preview_quality: "medium"@,
                shortcut_overrides: Seq::empty(),
            }),
    {
        let shortcut_overrides: Vec<ShortcutOverride> = Vec::new();
        assert(views(shortcut_overrides@) =~= Seq::<ShortcutOverrideView>::empty());
        ProjectSettings {
            resolution_width: 1920,
            resolution_height: 1080,
            frame_rate: 30000,
            sample_rate: 48000,
            color_depth: 8,
            preview_quality: String::from_str("medium"),
            shortcut_overrides,
        }
    }
}

/// A filter applied to a clip; filters with lower `order` apply first.
pub struct FilterInstance {
    pub id: u128,
    pub filter_type: String,
    pub params: JsonValue,
    pub enabled: bool,
    pub order: u32,
}

pub struct FilterInstanceView {
    pub id: u128,
    pub filter_type: Seq<char>,
    pub params: Json,
    pub enabled: bool,
    pub order: u32,
}

impl View for FilterInstance {
    type V = FilterInstanceView;

    open spec fn view(&self) -> FilterInstanceView {
        FilterInstanceView {
            id: self.id,
            filter_type: self.filter_type@,
            params: self.params@,
            enabled: self.enabled,
            order: self.order,
        }
    }
}

impl DeepCopy for FilterInstance {
    fn deep_copy(&self) -> (r: FilterInstance) {
        FilterInstance {
            id: self.id,
            filter_type: self.filter_type.clone(),
            params: self.params.copy(),
            enabled: self.enabled,
            order: self.order,
        }
    }
}

/// A named marker at a point of the timeline.
pub struct Marker {
    pub id: u128,
    pub name: String,
    /// Position on the timeline, in microseconds.
    pub timestamp: i64,
    pub color: String,
}

pub struct MarkerView {
    pub id: u128,
    pub name: Seq<char>,
    pub timestamp: i64,
    pub color: Seq<char>,
}

impl View for Marker {
    type V = MarkerView;

    open spec fn view(&self) -> MarkerView {
        MarkerView { id: self.id, name: self.name@, timestamp: self.timestamp, color: self.color@ }
    }
}

impl DeepCopy for Marker {
    fn deep_copy(&self) -> (r: Marker) {
        Marker {
            id: self.id,
            name: self.name.clone(),
            timestamp: self.timestamp,
            color: self.color.clone(),
        }
    }
}

/// A transition named on a clip, with the id it was given when it was added.
pub struct ClipTransition {
    pub id: u128,
    pub name: String,
}

pub struct ClipTransitionView {
    pub id: u128,
    pub name: Seq<char>,
}

impl View for ClipTransition {
    type V = ClipTransitionView;

    open spec fn view(&self) -> ClipTransitionView {
        ClipTransitionView { id: self.id, name: self.name@ }
    }
}

impl DeepCopy for ClipTransition {
    fn deep_copy(&self) -> (r: ClipTransition) {
        ClipTransition { id: self.id, name: self.name.clone() }
    }
}

/// A clip on a track: the part `in_point..out_point` of a media item, placed
/// at `start_time` for `duration` on the timeline.
pub struct Clip {
    pub id: u128,
    pub media_id: String,
    pub track_id: String,
    pub start_time: i64,
    pub duration: i64,
    pub in_point: i64,
    pub out_point: i64,
    pub filters: Vec<FilterInstance>,
    /// The transitions that lead out of this clip, in the order they were added.
    pub transitions: Vec<ClipTransition>,
    /// Playback speed in thousandths (1000 is normal speed).
    pub speed: i64,
}

pub struct ClipView {
    pub id: u128,
    pub media_id: Seq<char>,
    pub track_id: Seq<char>,
    pub start_time: i64,
    pub duration: i64,
    pub in_point: i64,
    pub out_point: i64,
    pub filters: Seq<FilterInstanceView>,
    pub transitions: Seq<ClipTransitionView>,
    pub speed: i64,
}

impl View for Clip {
    type V = ClipView;

    open spec fn view(&self) -> ClipView {
        ClipView {
            id: self.id,
            media_id: self.media_id@,
            track_id: self.track_id@,
            start_time: self.start_time,
            duration: self.duration,
            in_point: self.in_point,
            out_point: self.out_point,
            filters: views(self.filters@),
            transitions: views(self.transitions@),
            speed: self.speed,
        }
    }
}

impl DeepCopy for Clip {
    fn deep_copy(&self) -> (r: Clip) {
        Clip {
            id: self.id,
            media_id: self.media_id.clone(),
            track_id: self.track_id.clone(),
            start_time: self.start_time,
            duration: self.duration,
            in_point: self.in_point,
            out_point: self.out_point,
            filters: copy_vec(&self.filters),
            transitions: copy_vec(&self.transitions),
            speed: self.speed,
        }
    }
}

/// A lane of the timeline holding clips of one kind.
pub struct Track {
    pub id: u128,
    pub track_type: TrackType,
    pub name: String,
    pub clips: Vec<Clip>,
    pub locked: bool,
    pub visible: bool,
    /// Audio volume in thousandths (1000 is full volume).
    pub volume: i64,
}

pub struct TrackView {
    pub id: u128,
    pub track_type: TrackType,
    pub name: Seq<char>,
    pub clips: Seq<ClipView>,
    pub locked: bool,
    pub visible: bool,
    pub volume: i64,
}

impl View for Track {
    type V = TrackView;

    open spec fn view(&self) -> TrackView {
        TrackView {
            id: self.id,
            track_type: self.track_type,
            name: self.name@,
            clips: views(self.clips@),
            locked: self.locked,
            visible: self.visible,
            volume: self.volume,
        }
    }
}

impl DeepCopy for Track {
    fn deep_copy(&self) -> (r: Track) {
        Track {
            id: self.id,
            track_type: self.track_type,
            name: self.name.clone(),
            clips: copy_vec(&self.clips),
            locked: self.locked,
            visible: self.visible,
            volume: self.volume,
        }
    }
}

/// The tracks and markers of a project, with the length of its output.
pub struct Timeline {
    pub tracks: Vec<Track>,
    /// The largest clip end over all tracks (0 without clips), in microseconds.
    pub duration: i64,
    pub markers: Vec<Marker>,
}

pub struct TimelineView {
    pub tracks: Seq<TrackView>,
    pub duration: i64,
    pub markers: Seq<MarkerView>,
}

impl View for Timeline {
    type V = TimelineView;

    open spec fn view(&self) -> TimelineView {
        TimelineView {
            tracks: views(self.tracks@),
            duration: self.duration,
            markers: views(self.markers@),
        }
    }
}

impl DeepCopy for Timeline {
    fn deep_copy(&self) -> (r: Timeline) {
        Timeline {
            tracks: copy_vec(&self.tracks),
            duration: self.duration,
            markers: copy_vec(&self.markers),
        }
    }
}

impl Default for Timeline {
    /// An empty timeline.
    fn default() -> (t: Timeline)
        ensures
            t@.tracks.len() == 0,
            t@.duration == 0,
            t@.markers.len() == 0,
    {
        Timeline { tracks: Vec::new(), duration: 0, markers: Vec::new() }
    }
}

/// A media file imported into the project's media pool.
pub struct MediaItem {
    pub id: u128,
    pub name: String,
    pub path: String,
    pub media_type: MediaType,
    /// Length in microseconds.
    pub duration: i64,
    pub width: u32,
    pub height: u32,
    /// Frames per second, in thousandths.
    pub frame_rate: i64,
    pub codec: String,
    pub bitrate: u64,
    pub file_size: u64,
    pub thumbnail_path: Option<String>,
}

pub struct MediaItemView {
    pub id: u128,
    pub name: Seq<char>,
    pub path: Seq<char>,
    pub media_type: MediaType,
    pub duration: i64,
    pub width: u32,
    pub height: u32,
    pub frame_rate: i64,
    pub codec: Seq<char>,
    pub bitrate: u64,
    pub file_size: u64,
    pub thumbnail_path: Option<Seq<char>>,
}

/// The view of an optional string.
pub open spec fn opt_string_view(o: Option<String>) -> Option<Seq<char>> {
    match o {
        Some(s) => Some(s@),
        None => None,
    }
}

impl View for MediaItem {
    type V = MediaItemView;

    open spec fn view(&self) -> MediaItemView {
        MediaItemView {
            id: self.id,
            name: self.name@,
            path: self.path@,
            media_type: self.media_type,
            duration: self.duration,
            width: self.width,
            height: self.height,
            frame_rate: self.frame_rate,
            codec: self.codec@,
            bitrate: self.bitrate,
            file_size: self.file_size,
            thumbnail_path: opt_string_view(self.thumbnail_path),
        }
    }
}

impl DeepCopy for MediaItem {
    fn deep_copy(&self) -> (r: MediaItem) {
        MediaItem {
            id: self.id,
            name: self.name.clone(),
            path: self.path.clone(),
            media_type: self.media_type,
            duration: self.duration,
            width: self.width,
            height: self.height,
            frame_rate: self.frame_rate,
            codec: self.codec.clone(),
            bitrate: self.bitrate,
            file_size: self.file_size,
            thumbnail_path: copy_option(&self.thumbnail_path),
        }
    }
}

/// A project: its timeline, media pool, settings and metadata.
pub struct Project {
    pub id: u128,
    pub name: String,
    pub path: String,
    pub timeline: Timeline,
    pub media_pool: Vec<MediaItem>,
    /// Creation instant, milliseconds since the Unix epoch.
    pub created_at: i64,
    /// Last modification instant, milliseconds since the Unix epoch.
    pub modified_at: i64,
    pub settings: ProjectSettings,
}

pub struct ProjectView {
    pub id: u128,
    pub name: Seq<char>,
    pub path: Seq<char>,
    pub timeline: TimelineView,
    pub media_pool: Seq<MediaItemView>,
    pub created_at: i64,
    pub modified_at: i64,
    pub settings: ProjectSettingsView,
}

impl View for Project {
    type V = ProjectView;

    open spec fn view(&self) -> ProjectView {
        ProjectView {
            id: self.id,
            name: self.name@,
            path: self.path@,
            timeline: self.timeline@,
            media_pool: views(self.media_pool@),
            created_at: self.created_at,
            modified_at: self.modified_at,
            settings: self.settings@,
        }
    }
}

impl DeepCopy for Project {
    fn deep_copy(&self) -> (r: Project) {
        Project {
            id: self.id,
            name: self.name.clone(),
            path: self.path.clone(),
            timeline: self.timeline.deep_copy(),
            media_pool: copy_vec(&self.media_pool),
            created_at: self.created_at,
            modified_at: self.modified_at,
            settings: self.settings.deep_copy(),
        }
    }
}

/// The number of clips over all tracks.
pub open spec fn total_clips(tracks: Seq<TrackView>) -> nat
    decreases tracks.len(),
{
    if tracks.len() == 0 {
        0
    } else {
        total_clips(tracks.drop_last()) + tracks.last().clips.len()
    }
}

/// A summary of a project for the recent-projects list.
pub struct ProjectInfo {
    pub id: u128,
    pub name: String,
    pub path: String,
    /// Timeline length in microseconds.
    pub duration: i64,
    pub track_count: usize,
    pub clip_count: usize,
    pub created_at: i64,
    pub modified_at: i64,
}

pub struct ProjectInfoView {
    pub id: u128,
    pub name: Seq<char>,
    pub path: Seq<char>,
    pub duration: i64,
    pub track_count: usize,
    pub clip_count: usize,
    pub created_at: i64,
    pub modified_at: i64,
}

impl View for ProjectInfo {
    type V = ProjectInfoView;

    open spec fn view(&self) -> ProjectInfoView {
        ProjectInfoView {
            id: self.id,
            name: self.name@,
            path: self.path@,
            duration: self.duration,
            track_count: self.track_count,
            clip_count: self.clip_count,
            created_at: self.created_at,
            modified_at: self.modified_at,
        }
    }
}

impl DeepCopy for ProjectInfo {
    fn deep_copy(&self) -> (r: ProjectInfo) {
        ProjectInfo {
            id: self.id,
            name: self.name.clone(),
            path: self.path.clone(),
            duration: self.duration,
            track_count: self.track_count,
            clip_count: self.clip_count,
            created_at: self.created_at,
            modified_at: self.modified_at,
        }
    }
}

/// The summary of a project. The clip count is capped at `usize::MAX`.
pub open spec fn info_of(p: ProjectView) -> ProjectInfoView {
    ProjectInfoView {
        id: p.id,
        name: p.name,
        path: p.path,
        duration: p.timeline.duration,
        track_count: p.timeline.tracks.len() as usize,
        clip_count: (if total_clips(p.timeline.tracks) > usize::MAX as nat {
            usize::MAX as nat
        } else {
            total_clips(p.timeline.tracks)
        }) as usize,
        created_at: p.created_at,
        modified_at: p.modified_at,
    }
}

/// The summary of `p`, field by field.
pub open spec fn summary(p: &Project) -> ProjectInfo {
    ProjectInfo {
        id: p.id,
        name: p.name,
        path: p.path,
        duration: p.timeline.duration,
        track_count: p.timeline.tracks@.len() as usize,
        clip_count: info_of(p@).clip_count,
        created_at: p.created_at,
        modified_at: p.modified_at,
    }
}

fn summarize(project: &Project) -> (info: ProjectInfo)
    ensures
        info == summary(project),
        info@ == info_of(project@),
{
    let tracks = &project.timeline.tracks;
    let mut count: usize = 0;
    let mut i: usize = 0;
    while i < tracks.len()
        invariant
            i <= tracks.len(),
            count as nat == (if total_clips(views(tracks@).take(i as int)) > usize::MAX as nat {
                usize::MAX as nat
            } else {
                total_clips(views(tracks@).take(i as int))
            }),
        decreases tracks.len() - i,
    {
        assert(views(tracks@).take(i + 1).drop_last() =~= views(tracks@).take(i as int));
        let n = tracks[i].clips.len();
        count = match count.checked_add(n) {
            Some(c) => c,
            None => usize::MAX,
        };
        i = i + 1;
    }
    assert(views(tracks@).take(tracks.len() as int) =~= views(tracks@));
    ProjectInfo {
        id: project.id,
        name: project.name.clone(),
        path: project.path.clone(),
        duration: project.timeline.duration,
        track_count: tracks.len(),
        clip_count: count,
        created_at: project.created_at,
        modified_at: project.modified_at,
    }
}

impl<'a> From<&'a Project> for ProjectInfo {
    /// The summary of `project`: its id, name, path, timeline length, track
    /// and clip counts (the clip count held to `usize`) and timestamps.
    fn from(project: &'a Project) -> (info: ProjectInfo) {
        summarize(project)
    }
}

impl<'a> vstd::std_specs::convert::FromSpecImpl<&'a Project> for ProjectInfo {
    open spec fn obeys_from_spec() -> bool {
        true
    }

    open spec fn from_spec(v: &'a Project) -> ProjectInfo {
        summary(v)
    }
}

/// The summary that `From` gives has the value `info_of` describes.
pub proof fn law_summary_value(p: &Project)
    ensures
        summary(p)@ == info_of(p@),
{
}

/// `s` without the entries whose id is `id`, in order.
pub open spec fn without_id(s: Seq<ProjectInfoView>, id: u128) -> Seq<ProjectInfoView>
    decreases s.len(),
{
    if s.len() == 0 {
        s
    } else if s.last().id == id {
        without_id(s.drop_last(), id)
    } else {
        without_id(s.drop_last(), id).push(s.last())
    }
}

/// The first `n` entries of `s` (all of `s` when it is not longer).
pub open spec fn at_most<A>(s: Seq<A>, n: nat) -> Seq<A> {
    if s.len() > n {
        s.take(n as int)
    } else {
        s
    }
}

/// The longest the recent-projects list grows.
pub const MAX_RECENT_PROJECTS: usize = 20;

/// Whether some entry of `s` has id `id`.
pub open spec fn has_id(s: Seq<ProjectInfoView>, id: u128) -> bool {
    exists|i: int| 0 <= i < s.len() && #[trigger] s[i].id == id
}

/// Whether `i` is the first position of an entry with id `id`.
pub open spec fn is_first_with_id(s: Seq<ProjectInfoView>, id: u128, i: int) -> bool {
    &&& 0 <= i < s.len()
    &&& s[i].id == id
    &&& forall|j: int| 0 <= j < i ==> #[trigger] s[j].id != id
}

/// The first position of an entry with id `id`.
pub open spec fn first_with_id(s: Seq<ProjectInfoView>, id: u128) -> int {
    choose|i: int| is_first_with_id(s, id, i)
}

/// The value of a `ProjectState`.
pub struct ProjectStateView {
    pub current: Option<ProjectView>,
    pub recent: Seq<ProjectInfoView>,
}

/// The open project, if any, and the recently used projects, most recent
/// first.
pub struct ProjectState {
    pub current_project: Option<Project>,
    pub recent_projects: Vec<ProjectInfo>,
}

impl View for ProjectState {
    type V = ProjectStateView;

    open spec fn view(&self) -> ProjectStateView {
        ProjectStateView {
            current: match self.current_project {
                Some(p) => Some(p@),
                None => None,
            },
            recent: views(self.recent_projects@),
        }
    }
}

/// The recent list after opening a project summarized by `info`: its entry
/// moves (or is added) to the front and the list is cut to 20 entries.
pub open spec fn spec_recent_after_open(
    recent: Seq<ProjectInfoView>,
    info: ProjectInfoView,
) -> Seq<ProjectInfoView> {
    at_most(seq![info] + without_id(recent, info.id), MAX_RECENT_PROJECTS as nat)
}

/// The recent list after the open project is replaced by one summarized by
/// `info`: the first entry with its id, if any, becomes `info`.
pub open spec fn spec_recent_after_update(
    recent: Seq<ProjectInfoView>,
    info: ProjectInfoView,
) -> Seq<ProjectInfoView> {
    if has_id(recent, info.id) {
        recent.update(first_with_id(recent, info.id), info)
    } else {
        recent
    }
}

proof fn lemma_first_with_id(s: Seq<ProjectInfoView>, id: u128, i: int)
    requires
        is_first_with_id(s, id, i),
    ensures
        first_with_id(s, id) == i,
        has_id(s, id),
{
    let k = first_with_id(s, id);
    assert(is_first_with_id(s, id, k));
    if k < i {
        assert(s[k].id != id);
    } else if i < k {
        assert(s[i].id != id);
    }
}

/// The value of an optional project.
pub open spec fn project_option_view(o: Option<Project>) -> Option<ProjectView> {
    match o {
        Some(p) => Some(p@),
        None => None,
    }
}

impl ProjectState {
    /// No open project and an empty recent list.
    pub fn new() -> (s: ProjectState)
        ensures
            s@.current is None,
            s@.recent.len() == 0,
    {
        ProjectState { current_project: None, recent_projects: Vec::new() }
    }

    /// Makes `project` the open project and moves its summary to the front
    /// of the recent list, dropping an older entry with the same id and
    /// keeping at most 20 entries.
    pub fn open_project(&mut self, project: Project)
        ensures
            final(self)@.current == Some(project@),
            final(self)@.recent == spec_recent_after_open(old(self)@.recent, info_of(project@)),
    {
        let info = summarize(&project);
        let ghost info_v = info@;
        let info_id = info.id;
        self.current_project = Some(project);
        let mut kept: Vec<ProjectInfo> = Vec::new();
        kept.push(info);
        let ghost recent = views(self.recent_projects@);
        let mut i: usize = 0;
        while i < self.recent_projects.len()
            invariant
                i <= self.recent_projects.len(),
                recent == views(self.recent_projects@),
                info_id == info_v.id,
                views(kept@) == seq![info_v] + without_id(recent.take(i as int), info_v.id),
            decreases self.recent_projects.len() - i,
        {
            let ghost prev = recent.take(i as int);
            let ghost next = recent.take(i + 1);
            assert(next.drop_last() =~= prev);
            assert(next.last() == recent[i as int]);
            if self.recent_projects[i].id != info_id {
                let c = self.recent_projects[i].deep_copy();
                assert(c@ == recent[i as int]);
                let ghost before = views(kept@);
                kept.push(c);
                assert(views(kept@) =~= before.push(c@));
                assert(without_id(next, info_v.id) == without_id(prev, info_v.id).push(recent[i as int]));
                assert(views(kept@) =~= seq![info_v] + without_id(next, info_v.id));
            } else {
                assert(without_id(next, info_v.id) == without_id(prev, info_v.id));
            }
            i = i + 1;
        }
        assert(recent.take(recent.len() as int) =~= recent);
        kept.truncate(MAX_RECENT_PROJECTS);
        self.recent_projects = kept;
        assert(self@.recent =~= spec_recent_after_open(old(self)@.recent, info_v));
    }

    /// Closes the open project; the recent list is kept.
    pub fn close_project(&mut self)
        ensures
            final(self)@.current is None,
            final(self)@.recent == old(self)@.recent,
    {
        self.current_project = None;
    }

    /// Makes `snapshot` the open project, or leaves no project open when it
    /// is `None`, as undo and redo do. A project put back refreshes its
    /// entry in the recent list.
    pub fn restore(&mut self, snapshot: Option<Project>)
        ensures
            final(self)@.current == project_option_view(snapshot),
            final(self)@.recent == (match snapshot {
                Some(p) => spec_recent_after_update(old(self)@.recent, info_of(p@)),
                None => old(self)@.recent,
            }),
    {
        match snapshot {
            Some(p) => {
                if self.current_project.is_none() {
                    self.current_project = Some(p.deep_copy());
                }
                self.update_project(p);
            },
            None => {
                self.current_project = None;
            },
        }
    }

    /// A copy of the open project, if any.
    pub fn get_current_project(&self) -> (p: Option<Project>)
        ensures
            p is Some <==> self@.current is Some,
            p is Some ==> self@.current == Some(p->0@),
    {
        copy_option(&self.current_project)
    }

    /// A copy of the recent list, most recent first.
    pub fn get_recent_projects(&self) -> (r: Vec<ProjectInfo>)
        ensures
            views(r@) == self@.recent,
    {
        copy_vec(&self.recent_projects)
    }

    /// Replaces the open project with `project` and refreshes its entry in
    /// the recent list. A project must be open.
    pub fn update_project(&mut self, project: Project)
        requires
            old(self)@.current is Some,
        ensures
            final(self)@.current == Some(project@),
            final(self)@.recent == spec_recent_after_update(old(self)@.recent, info_of(project@)),
    {
        let info = summarize(&project);
        let ghost info_v = info@;
        let ghost project_v = project@;
        let info_id = info.id;
        self.current_project = Some(project);
        let mut i: usize = 0;
        while i < self.recent_projects.len()
            invariant
                i <= self.recent_projects.len(),
                info_id == info_v.id,
                info@ == info_v,
                info_v == info_of(project_v),
                project_v == project@,
                self@.current == Some(project_v),
                views(self.recent_projects@) == old(self)@.recent,
                forall|j: int| 0 <= j < i ==> #[trigger] old(self)@.recent[j].id != info_v.id,
            decreases self.recent_projects.len() - i,
        {
            if self.recent_projects[i].id == info_id {
                proof {
                    lemma_first_with_id(old(self)@.recent, info_v.id, i as int);
                }
                self.recent_projects.set(i, info);
                assert(self@.recent =~= spec_recent_after_update(old(self)@.recent, info_v));
                return;
            }
            i = i + 1;
        }
        assert(!has_id(old(self)@.recent, info_v.id));
    }
}

impl Default for ProjectState {
    fn default() -> (s: ProjectState)
        ensures
            s@.current is None,
            s@.recent.len() == 0,
    {
        ProjectState::new()
    }
}


/// No two entries of `s` have the same id.
pub open spec fn distinct_ids(s: Seq<ProjectInfoView>) -> bool {
    forall|i: int, j: int| 0 <= i < j < s.len() ==> #[trigger] s[i].id != #[trigger] s[j].id
}

proof fn lemma_without_id(s: Seq<ProjectInfoView>, id: u128)
    ensures
        without_id(s, id).len() <= s.len(),
        forall|k: int| 0 <= k < without_id(s, id).len() ==> (#[trigger] without_id(s, id)[k]).id != id,
        forall|k: int|
            0 <= k < without_id(s, id).len() ==> s.contains(#[trigger] without_id(s, id)[k]),
        distinct_ids(s) ==> distinct_ids(without_id(s, id)),
    decreases s.len(),
{
    if s.len() > 0 {
        let s0 = s.drop_last();
        lemma_without_id(s0, id);
        let w0 = without_id(s0, id);
        let w = without_id(s, id);
        assert forall|k: int| 0 <= k < w.len() implies s.contains(#[trigger] w[k]) by {
            if k < w0.len() {
                assert(w[k] == w0[k]);
                let j = choose|j: int| 0 <= j < s0.len() && s0[j] == w0[k];
                assert(s[j] == s0[j]);
            } else {
                assert(w[k] == s.last());
                assert(s[s.len() - 1] == s.last());
            }
        }
        if distinct_ids(s) {
            assert(distinct_ids(s0)) by {
                assert forall|i: int, j: int| 0 <= i < j < s0.len() implies #[trigger] s0[i].id != #[trigger] s0[j].id by {
                    assert(s0[i] == s[i] && s0[j] == s[j]);
                }
            }
            if s.last().id != id {
                assert forall|i: int, j: int| 0 <= i < j < w.len() implies #[trigger] w[i].id != #[trigger] w[j].id by {
                    if j == w.len() - 1 {
                        assert(w[j] == s.last());
                        assert(w[i] == w0[i]);
                        assert(s0.contains(w0[i]));
                        let m = choose|m: int| 0 <= m < s0.len() && s0[m] == w0[i];
                        assert(s[m] == s0[m]);
                        assert(s[s.len() - 1] == s.last());
                    } else {
                        assert(w[i] == w0[i] && w[j] == w0[j]);
                    }
                }
            }
        }
    }
}

/// Opening a project puts its summary first in the recent list, keeps no
/// other entry with its id, and keeps the list to at most 20 entries; when
/// the list had no two entries with the same id, neither has the new one.
pub proof fn law_open_puts_project_first(recent: Seq<ProjectInfoView>, info: ProjectInfoView)
    ensures
        spec_recent_after_open(recent, info).len() <= MAX_RECENT_PROJECTS,
        spec_recent_after_open(recent, info).len() >= 1,
        spec_recent_after_open(recent, info)[0] == info,
        forall|k: int|
            1 <= k < spec_recent_after_open(recent, info).len() ==> (#[trigger] spec_recent_after_open(
                recent,
                info,
            )[k]).id != info.id,
        distinct_ids(recent) ==> distinct_ids(spec_recent_after_open(recent, info)),
{
    lemma_without_id(recent, info.id);
    let w = without_id(recent, info.id);
    let full = seq![info] + w;
    let r = spec_recent_after_open(recent, info);
    assert forall|k: int| 1 <= k < r.len() implies (#[trigger] r[k]).id != info.id by {
        assert(r[k] == full[k]);
        assert(full[k] == w[k - 1]);
    }
    if distinct_ids(recent) {
        assert forall|i: int, j: int| 0 <= i < j < r.len() implies #[trigger] r[i].id != #[trigger] r[j].id by {
            assert(r[i] == full[i] && r[j] == full[j]);
            assert(full[j] == w[j - 1]);
            if i > 0 {
                assert(full[i] == w[i - 1]);
            }
        }
    }
}

/// Replacing the open project keeps the recent list's length, and changes
/// at most the first entry with the project's id, to the new summary.
pub proof fn law_update_refreshes_entry(recent: Seq<ProjectInfoView>, info: ProjectInfoView)
    ensures
        spec_recent_after_update(recent, info).len() == recent.len(),
        forall|k: int|
            0 <= k < recent.len() && recent[k].id != info.id ==> #[trigger] spec_recent_after_update(recent, info)[k]
                == recent[k],
        has_id(recent, info.id) ==> spec_recent_after_update(recent, info)[first_with_id(recent, info.id)] == info,
{
    if has_id(recent, info.id) {
        let w = choose|i: int| 0 <= i < recent.len() && #[trigger] recent[i].id == info.id;
        lemma_first_with_id_exists(recent, info.id, w);
    }
}

proof fn lemma_first_with_id_exists(s: Seq<ProjectInfoView>, id: u128, i: int)
    requires
        0 <= i < s.len(),
        s[i].id == id,
    ensures
        is_first_with_id(s, id, first_with_id(s, id)),
    decreases i,
{
    if exists|j: int| 0 <= j < i && #[trigger] s[j].id == id {
        let j = choose|j: int| 0 <= j < i && #[trigger] s[j].id == id;
        lemma_first_with_id_exists(s, id, j);
    } else {
        assert(is_first_with_id(s, id, i));
    }
}

} // verus!
