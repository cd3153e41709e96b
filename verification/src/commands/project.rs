//! Project commands: create, open, save, close and describe the open
//! project. Reading and writing project files is left to the caller: the
//! commands take a loaded project and give the project to write.

use vstd::prelude::*;

use crate::commands::timeline::record_view;
use crate::commands::undo::stamp_text;
use crate::deep_copy::DeepCopy;
use crate::ids::{hyphenated, now_millis, rfc3339_of_millis, uuid_new_v4, uuid_text};
use crate::json::{json_object, str_member, Json, JsonValue};
use crate::project::{
    spec_recent_after_open, info_of, Project, ProjectSettings, ProjectSettingsView, ProjectState,
    ProjectStateView, ProjectView, Timeline,
};
use crate::text::{blank, cat, cat3, is_blank};
use crate::utils::{spec_push, with_change, ActionRecord, ProjectChange, ActionRecordView, UndoManager, UndoView};
use vstd::string::StringExecFns;
use vstd::utf8::encode_utf8;

verus! {

/// A project as the workspace header shows it.
pub struct ProjectInfo {
    pub id: String,
    pub name: String,
    pub path: String,
    /// RFC 3339 text ("" when the instant cannot be written).
    pub created_at: String,
    /// RFC 3339 text ("" when the instant cannot be written).
    pub modified_at: String,
    /// Timeline length in microseconds.
    pub timeline_duration: i64,
    pub media_count: usize,
    pub track_count: usize,
}

pub struct ProjectInfoView {
    pub id: Seq<char>,
    pub name: Seq<char>,
    pub path: Seq<char>,
    pub created_at: Seq<char>,
    pub modified_at: Seq<char>,
    pub timeline_duration: i64,
    pub media_count: usize,
    pub track_count: usize,
}

impl View for ProjectInfo {
    type V = ProjectInfoView;

    open spec fn view(&self) -> ProjectInfoView {
        ProjectInfoView {
            id: self.id@,
            name: self.name@,
            path: self.path@,
            created_at: self.created_at@,
            modified_at: self.modified_at@,
            timeline_duration: self.timeline_duration,
            media_count: self.media_count,
            track_count: self.track_count,
        }
    }
}

/// Why a project command failed: a category and a message.
pub struct ProjectError {
    pub kind: String,
    pub message: String,
}

pub struct ProjectErrorView {
    pub kind: Seq<char>,
    pub message: Seq<char>,
}

impl View for ProjectError {
    type V = ProjectErrorView;

    open spec fn view(&self) -> ProjectErrorView {
        ProjectErrorView { kind: self.kind@, message: self.message@ }
    }
}

pub open spec fn project_error(kind: Seq<char>, message: Seq<char>) -> ProjectErrorView {
    ProjectErrorView { kind, message }
}

fn error_of(kind: &str, message: String) -> (e: ProjectError)
    ensures
        e@ == project_error(kind@, message@),
{
    ProjectError { kind: String::from_str(kind), message }
}

fn error_text(kind: &str, message: &str) -> (e: ProjectError)
    ensures
        e@ == project_error(kind@, message@),
{
    error_of(kind, String::from_str(message))
}

/// The header's description of a project.
pub open spec fn project_info_of(p: ProjectView) -> ProjectInfoView {
    ProjectInfoView {
        id: hyphenated(p.id),
        name: p.name,
        path: p.path,
        created_at: stamp_text(p.created_at),
        modified_at: stamp_text(p.modified_at),
        timeline_duration: p.timeline.duration,
        media_count: p.media_pool.len() as usize,
        track_count: p.timeline.tracks.len() as usize,
    }
}

fn stamp(ms: i64) -> (t: String)
    ensures
        t@ == stamp_text(ms),
{
    match rfc3339_of_millis(ms) {
        Some(t) => t,
        None => String::new(),
    }
}

fn describe(p: &Project) -> (info: ProjectInfo)
    ensures
        info@ == project_info_of(p@),
{
    ProjectInfo {
        id: uuid_text(p.id),
        name: p.name.clone(),
        path: p.path.clone(),
        created_at: stamp(p.created_at),
        modified_at: stamp(p.modified_at),
        timeline_duration: p.timeline.duration,
        media_count: p.media_pool.len(),
        track_count: p.timeline.tracks.len(),
    }
}

// ---------------------------------------------------------------------------
// create_project
// ---------------------------------------------------------------------------

/// The most bytes a project name may take in UTF-8.
pub const MAX_PROJECT_NAME_BYTES: usize = 256;

/// Why creating a project fails, if it does.
pub open spec fn create_project_check(name: Seq<char>, path: Seq<char>) -> Option<ProjectErrorView> {
    if blank(name) {
        Some(project_error("validation"@, "Project name must not be empty."@))
    } else if encode_utf8(name).len() as usize > MAX_PROJECT_NAME_BYTES {
        Some(project_error("validation"@, "Project name must not exceed 256 characters."@))
    } else if blank(path) {
        Some(project_error("validation"@, "Project path must not be empty."@))
    } else {
        None
    }
}

/// The standard project settings: 1920x1080 at 30 frames per second, 48 kHz
/// audio, 8-bit colour, medium preview, and no shortcut of the user's own.
pub open spec fn default_settings() -> ProjectSettingsView {
    ProjectSettingsView {
        resolution_width: 1920,
        resolution_height: 1080,
        frame_rate: 30000,
        sample_rate: 48000,
        color_depth: 8,
        preview_quality: "medium"@,
        shortcut_overrides: Seq::empty(),
    }
}

/// A new empty project created at the instant `now`.
pub open spec fn new_project_view(id: u128, name: Seq<char>, path: Seq<char>, now: i64) -> ProjectView {
    ProjectView {
        id,
        name,
        path,
        timeline: crate::project::TimelineView { tracks: Seq::empty(), duration: 0, markers: Seq::empty() },
        media_pool: Seq::empty(),
        created_at: now,
        modified_at: now,
        settings: default_settings(),
    }
}

pub open spec fn create_project_record(rid: u128, ts: i64, id: u128, name: Seq<char>, path: Seq<char>) -> ActionRecordView {
    record_view(
        rid,
        "create_project"@,
        "Created project '"@ + name + "'"@,
        ts,
        Json::Object(
            seq![("name"@, Json::Str(name)), ("path"@, Json::Str(path)), ("project_id"@, Json::Str(hyphenated(id)))],
        ),
    )
}

pub open spec fn create_project_outcome(
    name: Seq<char>,
    path: Seq<char>,
    s: ProjectStateView,
    u: UndoView,
    s2: ProjectStateView,
    u2: UndoView,
    info: ProjectInfoView,
    id: u128,
    now: i64,
    rid: u128,
) -> bool {
    let p = new_project_view(id, name, path, now);
    &&& info == project_info_of(p)
    &&& s2 == ProjectStateView { current: Some(p), recent: spec_recent_after_open(s.recent, info_of(p)) }
    &&& u2 == spec_push(u, with_change(create_project_record(rid, now, id, name, path), s.current, s2.current))
}

/// Creates an empty project named `name` stored at `path`, opens it and
/// records the action.
pub fn create_project(
    name: String,
    path: String,
    project_state: &mut ProjectState,
    undo_manager: &mut UndoManager,
) -> (r: Result<ProjectInfo, ProjectError>)
    ensures
        r is Ok <==> create_project_check(name@, path@) is None,
        r matches Err(e) ==> Some(e@) == create_project_check(name@, path@)
            && final(project_state)@ == old(project_state)@ && final(undo_manager)@ == old(undo_manager)@,
        r matches Ok(info) ==> exists|id: u128, now: i64, rid: u128| #[trigger] create_project_outcome(
            name@,
            path@,
            old(project_state)@,
            old(undo_manager)@,
            final(project_state)@,
            final(undo_manager)@,
            info@,
            id,
            now,
            rid,
        ),
{
    if is_blank(name.as_str()) {
        return Err(error_text("validation", "Project name must not be empty."));
    }
    if name.as_str().len() > MAX_PROJECT_NAME_BYTES {
        return Err(error_text("validation", "Project name must not exceed 256 characters."));
    }
    if is_blank(path.as_str()) {
        return Err(error_text("validation", "Project path must not be empty."));
    }
    let id = uuid_new_v4();
    let now = now_millis();
    let project = Project {
        id,
        name: name.clone(),
        path: path.clone(),
        timeline: Timeline::default(),
        media_pool: Vec::new(),
        created_at: now,
        modified_at: now,
        settings: ProjectSettings::default(),
    };
    assert(project@.media_pool =~= Seq::empty());
    assert(project@.timeline.tracks =~= Seq::empty());
    assert(project@.timeline.markers =~= Seq::empty());
    assert(project@ == new_project_view(id, name@, path@, now));
    let info = describe(&project);
    let before = project_state.get_current_project();
    let after = project.deep_copy();
    project_state.open_project(project);
    let rid = uuid_new_v4();
    let mut members: Vec<(String, JsonValue)> = Vec::new();
    members.push(str_member("name", name.clone()));
    members.push(str_member("path", path.clone()));
    members.push(str_member("project_id", info.id.clone()));
    let ghost mv = crate::json::members_view(members@);
    let record = ActionRecord {
        id: rid,
        action_type: String::from_str("create_project"),
        description: cat3("Created project '", name.as_str(), "'"),
        timestamp: now,
        data: json_object(members),
        change: Some(ProjectChange { before, after: Some(after) }),
    };
    assert(record@ == with_change(
        create_project_record(rid, now, id, name@, path@),
        old(project_state)@.current,
        Some(new_project_view(id, name@, path@, now)),
    )) by {
        assert(mv =~= seq![
            ("name"@, Json::Str(name@)),
            ("path"@, Json::Str(path@)),
            ("project_id"@, Json::Str(hyphenated(id))),
        ]);
    }
    undo_manager.push_action(record);
    assert(create_project_outcome(name@, path@, old(project_state)@, old(undo_manager)@, project_state@,
        undo_manager@, info@, id, now, rid));
    let ghost iv = info@;
    let r: Result<ProjectInfo, ProjectError> = Ok(info);
    assert(r->Ok_0@ == iv);
    r
}

// ---------------------------------------------------------------------------
// open_project
// ---------------------------------------------------------------------------

/// Why opening the project at `path` fails, if it does; `loaded` is the
/// project read from there, or why it could not be read.
pub open spec fn open_project_check(path: Seq<char>, loaded: Result<ProjectView, Seq<char>>) -> Option<
    ProjectErrorView,
> {
    if blank(path) {
        Some(project_error("validation"@, "Project path must not be empty."@))
    } else {
        match loaded {
            Err(e) => Some(project_error("open_failed"@, "Failed to open project: "@ + e)),
            Ok(_) => None,
        }
    }
}

pub open spec fn loaded_view(loaded: Result<Project, String>) -> Result<ProjectView, Seq<char>> {
    match loaded {
        Ok(p) => Ok(p@),
        Err(e) => Err(e@),
    }
}

pub open spec fn open_project_record(rid: u128, ts: i64, path: Seq<char>, p: ProjectView) -> ActionRecordView {
    record_view(
        rid,
        "open_project"@,
        "Opened project '"@ + p.name + "'"@,
        ts,
        Json::Object(seq![("path"@, Json::Str(path)), ("project_id"@, Json::Str(hyphenated(p.id)))]),
    )
}

/// Makes the project loaded from `path` the open one and records the
/// action. `loaded` is the project read from the file, or why it could not
/// be read.
pub fn open_project(
    path: String,
    loaded: Result<Project, String>,
    project_state: &mut ProjectState,
    undo_manager: &mut UndoManager,
) -> (r: Result<ProjectInfo, ProjectError>)
    ensures
        r is Ok <==> open_project_check(path@, loaded_view(loaded)) is None,
        r matches Err(e) ==> Some(e@) == open_project_check(path@, loaded_view(loaded))
            && final(project_state)@ == old(project_state)@ && final(undo_manager)@ == old(undo_manager)@,
        r matches Ok(info) ==> {
            let p = loaded_view(loaded)->Ok_0;
            &&& info@ == project_info_of(p)
            &&& final(project_state)@ == ProjectStateView {
                current: Some(p),
                recent: spec_recent_after_open(old(project_state)@.recent, info_of(p)),
            }
            &&& exists|rid: u128, ts: i64| final(undo_manager)@ == spec_push(
                old(undo_manager)@,
                with_change(#[trigger] open_project_record(rid, ts, path@, p), old(project_state)@.current, Some(p)),
            )
        },
{
    if is_blank(path.as_str()) {
        return Err(error_text("validation", "Project path must not be empty."));
    }
    let project = match loaded {
        Ok(p) => p,
        Err(e) => {
            return Err(error_of("open_failed", cat("Failed to open project: ", e.as_str())));
        },
    };
    let ghost pv = project@;
    let info = describe(&project);
    let project_id = info.id.clone();
    let name = project.name.clone();
    let before = project_state.get_current_project();
    let after = project.deep_copy();
    project_state.open_project(project);
    let rid = uuid_new_v4();
    let ts = now_millis();
    let mut members: Vec<(String, JsonValue)> = Vec::new();
    members.push(str_member("path", path.clone()));
    members.push(str_member("project_id", project_id));
    let ghost mv = crate::json::members_view(members@);
    let record = ActionRecord {
        id: rid,
        action_type: String::from_str("open_project"),
        description: cat3("Opened project '", name.as_str(), "'"),
        timestamp: ts,
        data: json_object(members),
        change: Some(ProjectChange { before, after: Some(after) }),
    };
    assert(record@ == with_change(open_project_record(rid, ts, path@, pv), old(project_state)@.current, Some(pv))) by {
        assert(mv =~= seq![("path"@, Json::Str(path@)), ("project_id"@, Json::Str(hyphenated(pv.id)))]);
    }
    undo_manager.push_action(record);
    let ghost iv = info@;
    let r: Result<ProjectInfo, ProjectError> = Ok(info);
    assert(r->Ok_0@ == iv);
    r
}

// ---------------------------------------------------------------------------
// save_project, close_project, get_project_info
// ---------------------------------------------------------------------------

/// The open project, to be written to its file.
pub fn save_project(project_state: &ProjectState) -> (r: Result<Project, ProjectError>)
    ensures
        r is Err <==> project_state@.current is None,
        r matches Err(e) ==> e@ == project_error(
            "no_active_project"@,
            "No active project to save. Open or create a project first."@,
        ),
        r matches Ok(p) ==> project_state@.current == Some(p@),
{
    match project_state.get_current_project() {
        Some(p) => Ok(p),
        None => Err(error_text("no_active_project", "No active project to save. Open or create a project first.")),
    }
}

/// Closes the open project; the recent list is kept.
pub fn close_project(project_state: &mut ProjectState) -> (r: Result<bool, ProjectError>)
    ensures
        r is Err <==> old(project_state)@.current is None,
        r matches Ok(b) ==> b && final(project_state)@ == (ProjectStateView {
            current: None,
            recent: old(project_state)@.recent,
        }),
        r matches Err(e) ==> e@ == project_error("no_active_project"@, "No active project to close."@)
            && final(project_state)@ == old(project_state)@,
{
    if project_state.current_project.is_none() {
        return Err(error_text("no_active_project", "No active project to close."));
    }
    project_state.close_project();
    Ok(true)
}

/// Describes the open project.
pub fn get_project_info(project_state: &ProjectState) -> (r: Result<ProjectInfo, ProjectError>)
    ensures
        r is Err <==> project_state@.current is None,
        r matches Err(e) ==> e@ == project_error(
            "no_active_project"@,
            "No active project. Open or create a project first."@,
        ),
        r matches Ok(info) ==> info@ == project_info_of(project_state@.current->0),
{
    match &project_state.current_project {
        Some(p) => {
            let info = describe(p);
            let ghost iv = info@;
            let r: Result<ProjectInfo, ProjectError> = Ok(info);
            assert(r->Ok_0@ == iv);
            r
        },
        None => Err(error_text("no_active_project", "No active project. Open or create a project first.")),
    }
}

/// Creating a project opens a new, empty project with the name and path
/// given: no tracks, no media, no markers, a zero-length timeline, created
/// and modified at the same instant, with the standard settings and no
/// shortcut of the user's own; it goes first in the recent list, and the
/// summary given back describes it.
pub proof fn law_create_opens_empty_project(
    name: Seq<char>,
    path: Seq<char>,
    s: ProjectStateView,
    u: UndoView,
    s2: ProjectStateView,
    u2: UndoView,
    info: ProjectInfoView,
    id: u128,
    now: i64,
    rid: u128,
)
    requires
        create_project_outcome(name, path, s, u, s2, u2, info, id, now, rid),
    ensures
        ({
            let p = s2.current->0;
            &&& s2.current is Some
            &&& p.id == id && p.name == name && p.path == path
            &&& p.timeline.tracks.len() == 0
            &&& p.timeline.markers.len() == 0
            &&& p.timeline.duration == 0
            &&& p.media_pool.len() == 0
            &&& p.created_at == p.modified_at
            &&& p.settings.resolution_width == 1920 && p.settings.resolution_height == 1080
            &&& p.settings.frame_rate == 30000
            &&& p.settings.sample_rate == 48000
            &&& p.settings.shortcut_overrides.len() == 0
            &&& s2.recent.len() > 0 && s2.recent[0].id == id && s2.recent[0].name == name
            &&& info.name == name && info.path == path && info.id == hyphenated(id)
            &&& info.track_count == 0 && info.media_count == 0 && info.timeline_duration == 0
        }),
{
}

/// The summary of a project names it by its id text, name and path, and
/// counts its tracks and media items and gives its timeline length.
pub proof fn law_project_info_describes(p: ProjectView)
    requires
        p.timeline.tracks.len() <= usize::MAX,
        p.media_pool.len() <= usize::MAX,
    ensures
        project_info_of(p).id == hyphenated(p.id),
        project_info_of(p).name == p.name,
        project_info_of(p).path == p.path,
        project_info_of(p).track_count == p.timeline.tracks.len(),
        project_info_of(p).media_count == p.media_pool.len(),
        project_info_of(p).timeline_duration == p.timeline.duration,
{
}

} // verus!
