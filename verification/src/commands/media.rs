//! Media library commands: import files, describe, remove and list media
//! items of the open project.

use vstd::prelude::*;

use crate::commands::preview::{frame_count, media_has_id, parsed_media_id};
use crate::commands::timeline::{record_view, state_after};
use crate::deep_copy::{lemma_views_push, views, DeepCopy};
use crate::ids::{hyphenated, now_millis, now_rfc3339, spec_uuid_parse, uuid_new_v4, uuid_parse, uuid_text};
use crate::json::{json_object, str_member, Json, JsonValue};
use crate::project::{
    opt_string_view, MediaItem as StoredMedia, MediaItemView, MediaType, Project, ProjectState,
    ProjectStateView, ProjectView,
};
use crate::search::{any, first, is_first, lemma_first, lemma_exists_first};
use crate::text::{blank, cat, cat3, is_blank};
use crate::utils::{record_edit, spec_push, with_change, ActionRecord, ProjectChange, ActionRecordView, UndoManager, UndoView};
use vstd::string::StringExecFns;

verus! {

/// A media item as the media library shows it.
pub struct MediaItem {
    pub id: String,
    pub name: String,
    pub path: String,
    /// "video", "audio" or "image".
    pub media_type: String,
    /// Length in microseconds.
    pub duration: i64,
    pub width: Option<u32>,
    pub height: Option<u32>,
    pub video_codec: Option<String>,
    pub audio_codec: Option<String>,
    /// Frames per second, in thousandths.
    pub frame_rate: Option<i64>,
    pub total_frames: Option<u64>,
    pub bit_depth: Option<u32>,
    pub sample_rate: Option<u32>,
    pub audio_channels: Option<u32>,
    pub file_size: u64,
    /// When the item was described, as RFC 3339 text.
    pub imported_at: String,
    pub thumbnail_path: Option<String>,
}

pub struct MediaInfoView {
    pub id: Seq<char>,
    pub name: Seq<char>,
    pub path: Seq<char>,
    pub media_type: Seq<char>,
    pub duration: i64,
    pub width: Option<u32>,
    pub height: Option<u32>,
    pub video_codec: Option<Seq<char>>,
    pub audio_codec: Option<Seq<char>>,
    pub frame_rate: Option<i64>,
    pub total_frames: Option<u64>,
    pub bit_depth: Option<u32>,
    pub sample_rate: Option<u32>,
    pub audio_channels: Option<u32>,
    pub file_size: u64,
    pub imported_at: Seq<char>,
    pub thumbnail_path: Option<Seq<char>>,
}

impl View for MediaItem {
    type V = MediaInfoView;

    open spec fn view(&self) -> MediaInfoView {
        MediaInfoView {
            id: self.id@,
            name: self.name@,
            path: self.path@,
            media_type: self.media_type@,
            duration: self.duration,
            width: self.width,
            height: self.height,
            video_codec: opt_string_view(self.video_codec),
            audio_codec: opt_string_view(self.audio_codec),
            frame_rate: self.frame_rate,
            total_frames: self.total_frames,
            bit_depth: self.bit_depth,
            sample_rate: self.sample_rate,
            audio_channels: self.audio_channels,
            file_size: self.file_size,
            imported_at: self.imported_at@,
            thumbnail_path: opt_string_view(self.thumbnail_path),
        }
    }
}

/// Why a media command failed: a category and a message.
pub struct MediaError {
    pub kind: String,
    pub message: String,
}

pub struct MediaErrorView {
    pub kind: Seq<char>,
    pub message: Seq<char>,
}

impl View for MediaError {
    type V = MediaErrorView;

    open spec fn view(&self) -> MediaErrorView {
        MediaErrorView { kind: self.kind@, message: self.message@ }
    }
}

pub open spec fn media_error(kind: Seq<char>, message: Seq<char>) -> MediaErrorView {
    MediaErrorView { kind, message }
}

fn error_of(kind: &str, message: String) -> (e: MediaError)
    ensures
        e@ == media_error(kind@, message@),
{
    MediaError { kind: String::from_str(kind), message }
}

fn error_text(kind: &str, message: &str) -> (e: MediaError)
    ensures
        e@ == media_error(kind@, message@),
{
    error_of(kind, String::from_str(message))
}

pub open spec fn media_type_name(t: MediaType) -> Seq<char> {
    match t {
        MediaType::Video => "video"@,
        MediaType::Audio => "audio"@,
        MediaType::Image => "image"@,
    }
}

/// The library's description of `m`, stamped with `imported_at`: the codec
/// is given as the video codec for video and images and as the audio codec
/// for audio; zero sizes and frame rates are left out.
pub open spec fn media_info_of(m: MediaItemView, imported_at: Seq<char>) -> MediaInfoView {
    MediaInfoView {
        id: hyphenated(m.id),
        name: m.name,
        path: m.path,
        media_type: media_type_name(m.media_type),
        duration: m.duration,
        width: if m.width > 0 {
            Some(m.width)
        } else {
            None
        },
        height: if m.height > 0 {
            Some(m.height)
        } else {
            None
        },
        video_codec: if m.media_type == MediaType::Audio {
            None
        } else {
            Some(m.codec)
        },
        audio_codec: if m.media_type == MediaType::Audio {
            Some(m.codec)
        } else {
            None
        },
        frame_rate: if m.frame_rate > 0 {
            Some(m.frame_rate)
        } else {
            None
        },
        total_frames: if m.frame_rate > 0 && m.duration > 0 {
            Some(frame_count(m.duration, m.frame_rate))
        } else {
            None
        },
        bit_depth: None,
        sample_rate: None,
        audio_channels: None,
        file_size: m.file_size,
        imported_at,
        thumbnail_path: m.thumbnail_path,
    }
}

/// Describes a stored media item, stamped with `imported_at`.
pub fn media_info_for(m: &StoredMedia, imported_at: String) -> (info: MediaItem)
    ensures
        info@ == media_info_of(m@, imported_at@),
{
    let audio = match m.media_type {
        MediaType::Audio => true,
        _ => false,
    };
    let kind = match m.media_type {
        MediaType::Video => String::from_str("video"),
        MediaType::Audio => String::from_str("audio"),
        MediaType::Image => String::from_str("image"),
    };
    MediaItem {
        id: uuid_text(m.id),
        name: m.name.clone(),
        path: m.path.clone(),
        media_type: kind,
        duration: m.duration,
        width: if m.width > 0 {
            Some(m.width)
        } else {
            None
        },
        height: if m.height > 0 {
            Some(m.height)
        } else {
            None
        },
        video_codec: if audio {
            None
        } else {
            Some(m.codec.clone())
        },
        audio_codec: if audio {
            Some(m.codec.clone())
        } else {
            None
        },
        frame_rate: if m.frame_rate > 0 {
            Some(m.frame_rate)
        } else {
            None
        },
        total_frames: if m.frame_rate > 0 && m.duration > 0 {
            Some(crate::commands::preview::frames_in(m.duration, m.frame_rate))
        } else {
            None
        },
        bit_depth: None,
        sample_rate: None,
        audio_channels: None,
        file_size: m.file_size,
        imported_at,
        thumbnail_path: crate::deep_copy::copy_option(&m.thumbnail_path),
    }
}

/// Describes a stored media item, stamped with the current time.
fn describe(m: &StoredMedia) -> (info: MediaItem)
    ensures
        info@ == media_info_of(m@, info@.imported_at),
{
    media_info_for(m, now_rfc3339())
}

// ---------------------------------------------------------------------------
// File names
// ---------------------------------------------------------------------------

/// What `std::path::Path::file_name` gives for a path text, as text.
pub uninterp spec fn spec_file_name(path: Seq<char>) -> Option<Seq<char>>;

/// The position of the last `.` in `name`, or -1 when it has none.
pub open spec fn last_dot(name: Seq<char>) -> int
    decreases name.len(),
{
    if name.len() == 0 {
        -1
    } else if name.last() == '.' {
        name.len() - 1
    } else {
        last_dot(name.drop_last())
    }
}

/// The extension of a file name as `std::path::Path::extension` documents
/// it: nothing when the name has no `.`, or its only `.` begins it;
/// otherwise the part after the last `.`.
pub open spec fn extension_of_name(name: Seq<char>) -> Option<Seq<char>> {
    let k = last_dot(name);
    if k <= 0 {
        None
    } else {
        Some(name.subrange(k + 1, name.len() as int))
    }
}

/// What `std::path::Path::extension` gives for a path text, as text: the
/// extension of its file name, and nothing when it has no file name.
pub open spec fn spec_extension(path: Seq<char>) -> Option<Seq<char>> {
    match spec_file_name(path) {
        Some(name) => extension_of_name(name),
        None => None,
    }
}

/// What `str::to_lowercase` gives for a text.
pub uninterp spec fn spec_lowercase(s: Seq<char>) -> Seq<char>;

/// Calls `std::path::Path::file_name` on `path`: its last component, or
/// nothing when the path ends in `..` or has no component. A `&str` path is
/// valid UTF-8, so the component converts back to text. The result is
/// `spec_file_name` of the path.
#[verifier::external_body]
fn file_name_of(path: &str) -> (name: Option<String>)
    ensures
        opt_string_view(name) == spec_file_name(path@),
{
    match std::path::Path::new(path).file_name() {
        Some(name) => match name.to_str() {
            Some(text) => Some(text.to_string()),
            None => None,
        },
        None => None,
    }
}

/// Calls `std::path::Path::extension` on `path`: the part of the file name
/// after its last `.`, or nothing when there is no file name, no `.` in it,
/// or the only `.` starts it, as std documents it; that is `spec_extension`
/// of the path.
#[verifier::external_body]
fn extension_of(path: &str) -> (ext: Option<String>)
    ensures
        opt_string_view(ext) == spec_extension(path@),
{
    match std::path::Path::new(path).extension() {
        Some(ext) => match ext.to_str() {
            Some(text) => Some(text.to_string()),
            None => None,
        },
        None => None,
    }
}

/// Calls `str::to_lowercase`: the Unicode lower-case form of `s`. The
/// result is `spec_lowercase` of the text.
#[verifier::external_body]
fn lowercase(s: &str) -> (lower: String)
    ensures
        lower@ == spec_lowercase(s@),
{
    s.to_lowercase()
}

/// The name under which a file is imported: its file name, or "unknown".
pub open spec fn import_name(path: Seq<char>) -> Seq<char> {
    match spec_file_name(path) {
        Some(n) => n,
        None => "unknown"@,
    }
}

/// The lower-case extension of a path ("" when it has none).
pub open spec fn lower_extension(path: Seq<char>) -> Seq<char> {
    spec_lowercase(
        match spec_extension(path) {
            Some(e) => e,
            None => Seq::empty(),
        },
    )
}

pub open spec fn is_video_extension(e: Seq<char>) -> bool {
    e == "mp4"@ || e == "mov"@ || e == "mkv"@ || e == "avi"@ || e == "webm"@ || e == "flv"@ || e == "ts"@
        || e == "m4v"@ || e == "wmv"@
}

pub open spec fn is_audio_extension(e: Seq<char>) -> bool {
    e == "mp3"@ || e == "wav"@ || e == "flac"@ || e == "ogg"@ || e == "aac"@ || e == "m4a"@ || e == "wma"@
}

/// The kind of media a lower-case extension stands for; anything not known
/// as video or audio is taken as an image.
pub open spec fn media_type_of_extension(e: Seq<char>) -> MediaType {
    if is_video_extension(e) {
        MediaType::Video
    } else if is_audio_extension(e) {
        MediaType::Audio
    } else {
        MediaType::Image
    }
}

fn is_text(s: &String, t: &str) -> (b: bool)
    ensures
        b == (s@ == t@),
{
    s.eq(&String::from_str(t))
}

/// The kind of media that the lower-case extension `e` stands for: video
/// for mp4, mov, mkv, avi, webm, flv, ts, m4v and wmv; audio for mp3, wav,
/// flac, ogg, aac, m4a and wma; an image for anything else.
pub fn classify(e: &String) -> (t: MediaType)
    ensures
        t == media_type_of_extension(e@),
{
    if is_text(e, "mp4") || is_text(e, "mov") || is_text(e, "mkv") || is_text(e, "avi") || is_text(e, "webm")
        || is_text(e, "flv") || is_text(e, "ts") || is_text(e, "m4v") || is_text(e, "wmv") {
        MediaType::Video
    } else if is_text(e, "mp3") || is_text(e, "wav") || is_text(e, "flac") || is_text(e, "ogg") || is_text(
        e,
        "aac",
    ) || is_text(e, "m4a") || is_text(e, "wma") {
        MediaType::Audio
    } else {
        MediaType::Image
    }
}

// ---------------------------------------------------------------------------
// import_media
// ---------------------------------------------------------------------------

/// The item stored for a file imported from `path` with id `id`: named
/// after the file, typed by its extension, with nothing measured yet.
pub open spec fn imported_item(path: Seq<char>, id: u128) -> MediaItemView {
    MediaItemView {
        id,
        name: import_name(path),
        path,
        media_type: media_type_of_extension(lower_extension(path)),
        duration: 0,
        width: 0,
        height: 0,
        frame_rate: 0,
        codec: Seq::empty(),
        bitrate: 0,
        file_size: 0,
        thumbnail_path: None,
    }
}

pub open spec fn import_record(rid: u128, ts: i64, path: Seq<char>, id: u128) -> ActionRecordView {
    record_view(
        rid,
        "import_media"@,
        "Imported media '"@ + import_name(path) + "'"@,
        ts,
        Json::Object(seq![("media_id"@, Json::Str(hyphenated(id))), ("path"@, Json::Str(path))]),
    )
}

/// The fresh values one import step draws: the item's id, the record's id
/// and time, and the time stamp of the description.
pub struct ImportDraw {
    pub id: u128,
    pub rid: u128,
    pub ts: i64,
    pub stamp: Seq<char>,
}

/// The media pool, undo state and descriptions after importing `paths` in
/// order into the project `base` with the media `pool`, each with the values
/// of the same position of `draws`; blank paths are skipped. Each import is
/// recorded with the project before and after it.
pub open spec fn import_steps(
    base: ProjectView,
    pool: Seq<MediaItemView>,
    u: UndoView,
    paths: Seq<Seq<char>>,
    draws: Seq<ImportDraw>,
) -> (Seq<MediaItemView>, UndoView, Seq<MediaInfoView>)
    decreases paths.len(),
{
    if paths.len() == 0 {
        (pool, u, Seq::empty())
    } else {
        let (p0, u0, i0) = import_steps(base, pool, u, paths.drop_last(), draws.drop_last());
        let path = paths.last();
        let d = draws[paths.len() - 1];
        if blank(path) {
            (p0, u0, i0)
        } else {
            let item = imported_item(path, d.id);
            let rec = with_change(
                import_record(d.rid, d.ts, path, d.id),
                Some(ProjectView { media_pool: p0, ..base }),
                Some(ProjectView { media_pool: p0.push(item), ..base }),
            );
            (p0.push(item), spec_push(u0, rec), i0.push(media_info_of(item, d.stamp)))
        }
    }
}

/// Why importing `paths` fails, if it does.
pub open spec fn import_check(paths: Seq<Seq<char>>, s: ProjectStateView) -> Option<MediaErrorView> {
    if paths.len() == 0 {
        Some(media_error("validation"@, "No media paths provided. Pass at least one file path."@))
    } else if s.current is None {
        Some(
            media_error(
                "no_active_project"@,
                "No active project. Open or create a project before importing media."@,
            ),
        )
    } else {
        None
    }
}

/// What a successful import leaves, for the values drawn.
pub open spec fn import_outcome(
    paths: Seq<Seq<char>>,
    s: ProjectStateView,
    u: UndoView,
    s2: ProjectStateView,
    u2: UndoView,
    infos: Seq<MediaInfoView>,
    draws: Seq<ImportDraw>,
) -> bool {
    let p = s.current->0;
    let (pool, u3, i3) = import_steps(p, p.media_pool, u, paths, draws);
    &&& draws.len() == paths.len()
    &&& infos == i3
    &&& u2 == u3
    &&& s2 == state_after(s, ProjectView { media_pool: pool, ..p })
}

/// Imports the files at `paths` into the open project's media library, in
/// order, skipping blank paths: each becomes a media item named after its
/// file and typed by its extension, and each import is recorded.
pub fn import_media(paths: Vec<String>, project_state: &mut ProjectState, undo_manager: &mut UndoManager) -> (r:
    Result<Vec<MediaItem>, MediaError>)
    ensures
        r is Ok <==> import_check(views(paths@), old(project_state)@) is None,
        r matches Err(e) ==> Some(e@) == import_check(views(paths@), old(project_state)@)
            && final(project_state)@ == old(project_state)@ && final(undo_manager)@ == old(undo_manager)@,
        r matches Ok(items) ==> exists|draws: Seq<ImportDraw>| #[trigger] import_outcome(
            views(paths@),
            old(project_state)@,
            old(undo_manager)@,
            final(project_state)@,
            final(undo_manager)@,
            views(items@),
            draws,
        ),
{
    if paths.len() == 0 {
        return Err(error_text("validation", "No media paths provided. Pass at least one file path."));
    }
    let mut project = match project_state.get_current_project() {
        Some(p) => p,
        None => {
            return Err(
                error_text("no_active_project", "No active project. Open or create a project before importing media."),
            );
        },
    };
    let ghost p0 = project@;
    let ghost u0 = undo_manager@;
    let ghost pv = views(paths@);
    let ghost mut draws: Seq<ImportDraw> = Seq::empty();
    let mut items: Vec<MediaItem> = Vec::new();
    let mut i: usize = 0;
    while i < paths.len()
        invariant
            i <= paths.len(),
            pv == views(paths@),
            draws.len() == i,
            ({
                let (pool, u3, i3) = import_steps(p0, p0.media_pool, u0, pv.take(i as int), draws);
                &&& project@ == ProjectView { media_pool: pool, ..p0 }
                &&& undo_manager@ == u3
                &&& views(items@) == i3
            }),
        decreases paths.len() - i,
    {
        let ghost before_paths = pv.take(i as int);
        let ghost before_draws = draws;
        assert(pv.take(i + 1).drop_last() =~= before_paths);
        assert(pv.take(i + 1).last() == pv[i as int]);
        let path = &paths[i];
        assert(path@ == pv[i as int]);
        if is_blank(path.as_str()) {
            proof {
                draws = draws.push(ImportDraw { id: 0, rid: 0, ts: 0, stamp: Seq::empty() });
                assert(draws.drop_last() =~= before_draws);
            }
        } else {
            let name = match file_name_of(path.as_str()) {
                Some(n) => n,
                None => String::from_str("unknown"),
            };
            let ext_text = match extension_of(path.as_str()) {
                Some(e) => e,
                None => String::new(),
            };
            let ext = lowercase(ext_text.as_str());
            assert(ext@ == lower_extension(path@));
            assert(name@ == import_name(path@));
            let kind = classify(&ext);
            let id = uuid_new_v4();
            let item = StoredMedia {
                id,
                name: name.clone(),
                path: path.clone(),
                media_type: kind,
                duration: 0,
                width: 0,
                height: 0,
                frame_rate: 0,
                codec: String::new(),
                bitrate: 0,
                file_size: 0,
                thumbnail_path: None,
            };
            assert(item@ == imported_item(path@, id));
            let rid = uuid_new_v4();
            let ts = now_millis();
            let mut members: Vec<(String, JsonValue)> = Vec::new();
            members.push(str_member("media_id", uuid_text(id)));
            members.push(str_member("path", path.clone()));
            let ghost mv = crate::json::members_view(members@);
            let record = ActionRecord {
                id: rid,
                action_type: String::from_str("import_media"),
                description: cat3("Imported media '", name.as_str(), "'"),
                timestamp: ts,
                data: json_object(members),
                change: None,
            };
            assert(record@ == import_record(rid, ts, path@, id)) by {
                assert(mv =~= seq![("media_id"@, Json::Str(hyphenated(id))), ("path"@, Json::Str(path@))]);
            }
            let info = describe(&item);
            let before = project.deep_copy();
            proof {
                draws = draws.push(ImportDraw { id, rid, ts, stamp: info@.imported_at });
                assert(draws.drop_last() =~= before_draws);
                lemma_views_push(items@, info);
                lemma_views_push(project.media_pool@, item);
            }
            items.push(info);
            project.media_pool.push(item);
            let after = project.deep_copy();
            let mut record = record;
            record.change = Some(ProjectChange { before: Some(before), after: Some(after) });
            undo_manager.push_action(record);
        }
        i = i + 1;
    }
    assert(pv.take(i as int) =~= pv);
    project_state.update_project(project);
    assert(import_outcome(pv, old(project_state)@, old(undo_manager)@, project_state@, undo_manager@, views(items@), draws));
    let ghost iv = views(items@);
    let r: Result<Vec<MediaItem>, MediaError> = Ok(items);
    assert(views(r->Ok_0@) == iv);
    r
}

// ---------------------------------------------------------------------------
// get_media_info, remove_media, list_media
// ---------------------------------------------------------------------------

/// Why finding the media item `id` of the open project fails, if it does.
pub open spec fn lookup_check(id: Seq<char>, s: ProjectStateView) -> Option<MediaErrorView> {
    if blank(id) {
        Some(media_error("validation"@, "Media ID must not be empty."@))
    } else if s.current is None {
        Some(media_error("no_active_project"@, "No active project."@))
    } else {
        match spec_uuid_parse(id) {
            Err(e) => Some(media_error("invalid_id"@, "Invalid media ID format: "@ + e)),
            Ok(mid) => {
                if !any(s.current->0.media_pool, media_has_id(mid)) {
                    Some(media_error("media_not_found"@, "Media item '"@ + id + "' not found."@))
                } else {
                    None
                }
            },
        }
    }
}

/// The position of the media item that the text `id` names.
pub open spec fn media_pos(p: ProjectView, id: Seq<char>) -> int {
    first(p.media_pool, media_has_id(parsed_media_id(id)))
}

fn find_stored(pool: &Vec<StoredMedia>, id: u128) -> (r: Option<usize>)
    ensures
        r matches Some(i) ==> is_first(views(pool@), media_has_id(id), i as int),
        r is None ==> !any(views(pool@), media_has_id(id)),
{
    let mut i: usize = 0;
    while i < pool.len()
        invariant
            i <= pool.len(),
            forall|j: int| 0 <= j < i ==> !media_has_id(id)(#[trigger] views(pool@)[j]),
        decreases pool.len() - i,
    {
        if pool[i].id == id {
            return Some(i);
        }
        i = i + 1;
    }
    None
}

fn lookup(id: &String, project: &Project) -> (r: Result<usize, MediaError>)
    requires
        !blank(id@),
    ensures
        r is Ok <==> spec_uuid_parse(id@) is Ok && any(project@.media_pool, media_has_id(parsed_media_id(id@))),
        r matches Err(e) ==> Some(e@) == lookup_check(id@, ProjectStateView { current: Some(project@), recent: Seq::empty() }),
        r matches Ok(i) ==> i == media_pos(project@, id@) && i < project@.media_pool.len(),
{
    let mid = match uuid_parse(id.as_str()) {
        Ok(v) => v,
        Err(e) => {
            return Err(error_of("invalid_id", cat("Invalid media ID format: ", e.as_str())));
        },
    };
    match find_stored(&project.media_pool, mid) {
        Some(i) => {
            proof {
                lemma_first(views(project.media_pool@), media_has_id(mid), i as int);
            }
            Ok(i)
        },
        None => Err(error_of("media_not_found", cat3("Media item '", id.as_str(), "' not found."))),
    }
}

/// Describes the media item `id` of the open project.
pub fn get_media_info(id: String, project_state: &ProjectState) -> (r: Result<MediaItem, MediaError>)
    ensures
        r is Ok <==> lookup_check(id@, project_state@) is None,
        r matches Err(e) ==> Some(e@) == lookup_check(id@, project_state@),
        r matches Ok(info) ==> {
            let p = project_state@.current->0;
            info@ == media_info_of(p.media_pool[media_pos(p, id@)], info@.imported_at)
        },
{
    if is_blank(id.as_str()) {
        return Err(error_text("validation", "Media ID must not be empty."));
    }
    let project = match &project_state.current_project {
        Some(p) => p,
        None => {
            return Err(error_text("no_active_project", "No active project."));
        },
    };
    let i = match lookup(&id, project) {
        Ok(i) => i,
        Err(e) => {
            return Err(e);
        },
    };
    let info = describe(&project.media_pool[i]);
    let ghost iv = info@;
    let r: Result<MediaItem, MediaError> = Ok(info);
    assert(r->Ok_0@ == iv);
    r
}

pub open spec fn remove_media_record(rid: u128, ts: i64, id: Seq<char>, m: MediaItemView) -> ActionRecordView {
    record_view(
        rid,
        "remove_media"@,
        "Removed media '"@ + m.name + "'"@,
        ts,
        Json::Object(
            seq![("media_id"@, Json::Str(id)), ("path"@, Json::Str(m.path)), ("name"@, Json::Str(m.name))],
        ),
    )
}

pub open spec fn remove_media_outcome(
    id: Seq<char>,
    s: ProjectStateView,
    u: UndoView,
    s2: ProjectStateView,
    u2: UndoView,
    rid: u128,
    ts: i64,
) -> bool {
    let p = s.current->0;
    let k = media_pos(p, id);
    &&& s2 == state_after(s, ProjectView { media_pool: p.media_pool.remove(k), ..p })
    &&& u2 == spec_push(u, with_change(remove_media_record(rid, ts, id, p.media_pool[k]), s.current, s2.current))
}

/// Removes the media item `id` from the open project's library and records
/// the action.
pub fn remove_media(id: String, project_state: &mut ProjectState, undo_manager: &mut UndoManager) -> (r:
    Result<bool, MediaError>)
    ensures
        r is Ok <==> lookup_check(id@, old(project_state)@) is None,
        r matches Ok(b) ==> b,
        r matches Err(e) ==> Some(e@) == lookup_check(id@, old(project_state)@)
            && final(project_state)@ == old(project_state)@ && final(undo_manager)@ == old(undo_manager)@,
        r is Ok ==> exists|rid: u128, ts: i64| #[trigger] remove_media_outcome(
            id@,
            old(project_state)@,
            old(undo_manager)@,
            final(project_state)@,
            final(undo_manager)@,
            rid,
            ts,
        ),
{
    if is_blank(id.as_str()) {
        return Err(error_text("validation", "Media ID must not be empty."));
    }
    let mut project = match project_state.get_current_project() {
        Some(p) => p,
        None => {
            return Err(error_text("no_active_project", "No active project."));
        },
    };
    let k = match lookup(&id, &project) {
        Ok(i) => i,
        Err(e) => {
            return Err(e);
        },
    };
    let ghost p0 = project@;
    let removed = project.media_pool.remove(k);
    assert(views(project.media_pool@) =~= p0.media_pool.remove(k as int));
    let rid = uuid_new_v4();
    let ts = now_millis();
    let mut members: Vec<(String, JsonValue)> = Vec::new();
    members.push(str_member("media_id", id.clone()));
    members.push(str_member("path", removed.path.clone()));
    members.push(str_member("name", removed.name.clone()));
    let ghost mv = crate::json::members_view(members@);
    let record = ActionRecord {
        id: rid,
        action_type: String::from_str("remove_media"),
        description: cat3("Removed media '", removed.name.as_str(), "'"),
        timestamp: ts,
        data: json_object(members),
        change: None,
    };
    assert(record@ == remove_media_record(rid, ts, id@, removed@)) by {
        assert(mv =~= seq![
            ("media_id"@, Json::Str(id@)),
            ("path"@, Json::Str(removed@.path)),
            ("name"@, Json::Str(removed@.name)),
        ]);
    }
    record_edit(project_state, undo_manager, record, project);
    assert(remove_media_outcome(id@, old(project_state)@, old(undo_manager)@, project_state@, undo_manager@, rid, ts));
    Ok(true)
}

/// Describes every media item of the open project, in library order.
pub fn list_media(project_state: &ProjectState) -> (r: Result<Vec<MediaItem>, MediaError>)
    ensures
        r is Err <==> project_state@.current is None,
        r matches Err(e) ==> e@ == media_error("no_active_project"@, "No active project."@),
        r matches Ok(items) ==> {
            let pool = project_state@.current->0.media_pool;
            &&& items@.len() == pool.len()
            &&& forall|k: int| 0 <= k < pool.len() ==> (#[trigger] items@[k])@ == media_info_of(pool[k], items@[k]@.imported_at)
        },
{
    let project = match &project_state.current_project {
        Some(p) => p,
        None => {
            return Err(error_text("no_active_project", "No active project."));
        },
    };
    let pool = &project.media_pool;
    let mut items: Vec<MediaItem> = Vec::new();
    let mut i: usize = 0;
    while i < pool.len()
        invariant
            i <= pool.len(),
            items@.len() == i,
            forall|k: int| 0 <= k < i ==> (#[trigger] items@[k])@ == media_info_of(views(pool@)[k], items@[k]@.imported_at),
        decreases pool.len() - i,
    {
        let info = describe(&pool[i]);
        items.push(info);
        i = i + 1;
    }
    Ok(items)
}

/// Each lower-case extension of a video format (mp4, mov, mkv, avi, webm,
/// flv, ts, m4v, wmv) makes an imported file a video, each of an audio
/// format (mp3, wav, flac, ogg, aac, m4a, wma) makes it audio, and a file
/// with no extension is taken as an image.
pub proof fn law_known_extensions_classify()
    ensures
        media_type_of_extension("mp4"@) == MediaType::Video,
        media_type_of_extension("mov"@) == MediaType::Video,
        media_type_of_extension("mkv"@) == MediaType::Video,
        media_type_of_extension("avi"@) == MediaType::Video,
        media_type_of_extension("webm"@) == MediaType::Video,
        media_type_of_extension("flv"@) == MediaType::Video,
        media_type_of_extension("ts"@) == MediaType::Video,
        media_type_of_extension("m4v"@) == MediaType::Video,
        media_type_of_extension("wmv"@) == MediaType::Video,
        media_type_of_extension("mp3"@) == MediaType::Audio,
        media_type_of_extension("wav"@) == MediaType::Audio,
        media_type_of_extension("flac"@) == MediaType::Audio,
        media_type_of_extension("ogg"@) == MediaType::Audio,
        media_type_of_extension("aac"@) == MediaType::Audio,
        media_type_of_extension("m4a"@) == MediaType::Audio,
        media_type_of_extension("wma"@) == MediaType::Audio,
        media_type_of_extension(Seq::empty()) == MediaType::Image,
{
    reveal_strlit("mp4");
    reveal_strlit("mov");
    reveal_strlit("mkv");
    reveal_strlit("avi");
    reveal_strlit("webm");
    reveal_strlit("flv");
    reveal_strlit("ts");
    reveal_strlit("m4v");
    reveal_strlit("wmv");
    reveal_strlit("mp3");
    reveal_strlit("wav");
    reveal_strlit("flac");
    reveal_strlit("ogg");
    reveal_strlit("aac");
    reveal_strlit("m4a");
    reveal_strlit("wma");
    assert("mp3"@[2] != "mp4"@[2]);
    assert("mp3"@[1] != "mov"@[1]);
    assert("mp3"@[1] != "mkv"@[1]);
    assert("mp3"@[0] != "avi"@[0]);
    assert("mp3"@.len() != "webm"@.len());
    assert("mp3"@[0] != "flv"@[0]);
    assert("mp3"@.len() != "ts"@.len());
    assert("mp3"@[1] != "m4v"@[1]);
    assert("mp3"@[0] != "wmv"@[0]);
    assert("wav"@[0] != "mp4"@[0]);
    assert("wav"@[0] != "mov"@[0]);
    assert("wav"@[0] != "mkv"@[0]);
    assert("wav"@[0] != "avi"@[0]);
    assert("wav"@.len() != "webm"@.len());
    assert("wav"@[0] != "flv"@[0]);
    assert("wav"@.len() != "ts"@.len());
    assert("wav"@[0] != "m4v"@[0]);
    assert("wav"@[1] != "wmv"@[1]);
    assert("flac"@.len() != "mp4"@.len());
    assert("flac"@.len() != "mov"@.len());
    assert("flac"@.len() != "mkv"@.len());
    assert("flac"@.len() != "avi"@.len());
    assert("flac"@[0] != "webm"@[0]);
    assert("flac"@.len() != "flv"@.len());
    assert("flac"@.len() != "ts"@.len());
    assert("flac"@.len() != "m4v"@.len());
    assert("flac"@.len() != "wmv"@.len());
    assert("ogg"@[0] != "mp4"@[0]);
    assert("ogg"@[0] != "mov"@[0]);
    assert("ogg"@[0] != "mkv"@[0]);
    assert("ogg"@[0] != "avi"@[0]);
    assert("ogg"@.len() != "webm"@.len());
    assert("ogg"@[0] != "flv"@[0]);
    assert("ogg"@.len() != "ts"@.len());
    assert("ogg"@[0] != "m4v"@[0]);
    assert("ogg"@[0] != "wmv"@[0]);
    assert("aac"@[0] != "mp4"@[0]);
    assert("aac"@[0] != "mov"@[0]);
    assert("aac"@[0] != "mkv"@[0]);
    assert("aac"@[1] != "avi"@[1]);
    assert("aac"@.len() != "webm"@.len());
    assert("aac"@[0] != "flv"@[0]);
    assert("aac"@.len() != "ts"@.len());
    assert("aac"@[0] != "m4v"@[0]);
    assert("aac"@[0] != "wmv"@[0]);
    assert("m4a"@[1] != "mp4"@[1]);
    assert("m4a"@[1] != "mov"@[1]);
    assert("m4a"@[1] != "mkv"@[1]);
    assert("m4a"@[0] != "avi"@[0]);
    assert("m4a"@.len() != "webm"@.len());
    assert("m4a"@[0] != "flv"@[0]);
    assert("m4a"@.len() != "ts"@.len());
    assert("m4a"@[2] != "m4v"@[2]);
    assert("m4a"@[0] != "wmv"@[0]);
    assert("wma"@[0] != "mp4"@[0]);
    assert("wma"@[0] != "mov"@[0]);
    assert("wma"@[0] != "mkv"@[0]);
    assert("wma"@[0] != "avi"@[0]);
    assert("wma"@.len() != "webm"@.len());
    assert("wma"@[0] != "flv"@[0]);
    assert("wma"@.len() != "ts"@.len());
    assert("wma"@[0] != "m4v"@[0]);
    assert("wma"@[2] != "wmv"@[2]);
}

/// An imported file whose lower-case extension is that of a video format is
/// stored as a video, and one of an audio format as audio.
pub proof fn law_imported_item_kind(path: Seq<char>, id: u128)
    ensures
        lower_extension(path) == "mkv"@ || lower_extension(path) == "mp4"@ || lower_extension(path) == "mov"@
            || lower_extension(path) == "avi"@ || lower_extension(path) == "webm"@ || lower_extension(path)
            == "flv"@ || lower_extension(path) == "ts"@ || lower_extension(path) == "m4v"@ || lower_extension(path)
            == "wmv"@ ==> imported_item(path, id).media_type == MediaType::Video,
        lower_extension(path) == "mp3"@ || lower_extension(path) == "wav"@ || lower_extension(path) == "flac"@
            || lower_extension(path) == "ogg"@ || lower_extension(path) == "aac"@ || lower_extension(path)
            == "m4a"@ || lower_extension(path) == "wma"@ ==> imported_item(path, id).media_type == MediaType::Audio,
{
    law_known_extensions_classify();
}

/// A successful `remove_media` takes out of the media library exactly the
/// item asked for, keeping the others in their order, and changes nothing
/// else of the project.
pub proof fn law_remove_media_takes_out_that_item(
    id: Seq<char>,
    s: ProjectStateView,
    u: UndoView,
    s2: ProjectStateView,
    u2: UndoView,
    rid: u128,
    ts: i64,
)
    requires
        lookup_check(id, s) is None,
        remove_media_outcome(id, s, u, s2, u2, rid, ts),
    ensures
        ({
            let p = s.current->0;
            let p2 = s2.current->0;
            let k = media_pos(p, id);
            &&& 0 <= k < p.media_pool.len()
            &&& p.media_pool[k].id == spec_uuid_parse(id)->Ok_0
            &&& p2.media_pool == p.media_pool.remove(k)
            &&& p2.timeline == p.timeline
            &&& p2.settings == p.settings
            &&& p2.id == p.id && p2.name == p.name
        }),
{
    let pool = s.current->0.media_pool;
    let mid = parsed_media_id(id);
    let w = choose|i: int| 0 <= i < pool.len() && #[trigger] media_has_id(mid)(pool[i]);
    lemma_exists_first(pool, media_has_id(mid), w);
}

/// The paths that are not blank, in order.
pub open spec fn kept_paths(paths: Seq<Seq<char>>) -> Seq<Seq<char>>
    decreases paths.len(),
{
    if paths.len() == 0 {
        Seq::empty()
    } else if blank(paths.last()) {
        kept_paths(paths.drop_last())
    } else {
        kept_paths(paths.drop_last()).push(paths.last())
    }
}

/// Importing files keeps the media library's items and adds one item after
/// them for each path that is not blank, in the order of the paths: the
/// item has that path, is named after the file (or "unknown" when the path
/// names none), is typed by the file's extension, and is described in the
/// answer at the same position. Each import is recorded once.
pub proof fn law_import_adds_one_item_per_path(
    base: ProjectView,
    pool: Seq<MediaItemView>,
    u: UndoView,
    paths: Seq<Seq<char>>,
    draws: Seq<ImportDraw>,
)
    requires
        draws.len() == paths.len(),
    ensures
        ({
            let (pool2, u2, infos) = import_steps(base, pool, u, paths, draws);
            let kept = kept_paths(paths);
            &&& pool2.len() == pool.len() + kept.len()
            &&& infos.len() == kept.len()
            &&& pool2.take(pool.len() as int) == pool
            &&& forall|k: int| 0 <= k < kept.len() ==> {
                let item = #[trigger] pool2[pool.len() + k];
                &&& item.path == kept[k]
                &&& (spec_file_name(kept[k]) matches Some(n) ==> item.name == n)
                &&& (spec_file_name(kept[k]) is None ==> item.name == "unknown"@)
                &&& item.media_type == media_type_of_extension(lower_extension(kept[k]))
                &&& infos[k].id == hyphenated(item.id)
                &&& infos[k].path == kept[k]
            }
        }),
    decreases paths.len(),
{
    if paths.len() > 0 {
        law_import_adds_one_item_per_path(base, pool, u, paths.drop_last(), draws.drop_last());
        let (p0, u0, i0) = import_steps(base, pool, u, paths.drop_last(), draws.drop_last());
        let kept0 = kept_paths(paths.drop_last());
        let (pool2, u2, infos) = import_steps(base, pool, u, paths, draws);
        let kept = kept_paths(paths);
        if !blank(paths.last()) {
            assert(pool2 == p0.push(imported_item(paths.last(), draws[paths.len() - 1].id)));
            assert(pool2.take(pool.len() as int) =~= p0.take(pool.len() as int));
            assert forall|k: int| 0 <= k < kept.len() implies {
                let item = #[trigger] pool2[pool.len() + k];
                &&& item.path == kept[k]
                &&& (spec_file_name(kept[k]) matches Some(n) ==> item.name == n)
                &&& (spec_file_name(kept[k]) is None ==> item.name == "unknown"@)
                &&& item.media_type == media_type_of_extension(lower_extension(kept[k]))
                &&& infos[k].id == hyphenated(item.id)
                &&& infos[k].path == kept[k]
            } by {
                if k < kept0.len() {
                    assert(pool2[pool.len() + k] == p0[pool.len() + k]);
                    assert(kept[k] == kept0[k]);
                    assert(infos[k] == i0[k]);
                }
            }
        }
    }
}

/// The library's description of an item names its kind ("video",
/// "audio" or "image", a different name for each), gives its codec as the
/// audio codec for audio and as the video codec otherwise, reports a size,
/// rate and frame count only when they are known, and keeps the item's id,
/// name and path.
pub proof fn law_media_info_describes_item(m: MediaItemView, stamp: Seq<char>)
    ensures
        ({
            let i = media_info_of(m, stamp);
            &&& (m.media_type == MediaType::Video <==> i.media_type == "video"@)
            &&& (m.media_type == MediaType::Audio <==> i.media_type == "audio"@)
            &&& (m.media_type == MediaType::Image <==> i.media_type == "image"@)
            &&& (m.media_type == MediaType::Audio ==> i.audio_codec == Some(m.codec) && i.video_codec is None)
            &&& (m.media_type != MediaType::Audio ==> i.video_codec == Some(m.codec) && i.audio_codec is None)
            &&& (i.width is Some <==> m.width > 0)
            &&& (i.height is Some <==> m.height > 0)
            &&& (i.frame_rate is Some <==> m.frame_rate > 0)
            &&& (i.total_frames is Some <==> m.frame_rate > 0 && m.duration > 0)
            &&& i.id == hyphenated(m.id) && i.name == m.name && i.path == m.path
            &&& i.imported_at == stamp
        }),
{
    reveal_strlit("video");
    reveal_strlit("audio");
    reveal_strlit("image");
    assert("video"@[0] != "audio"@[0]);
    assert("video"@[0] != "image"@[0]);
    assert("audio"@[0] != "image"@[0]);
}

/// Looking up a media item finds the first item of the library whose id is
/// the one the text names.
pub proof fn law_lookup_finds_named_item(id: Seq<char>, s: ProjectStateView)
    requires
        lookup_check(id, s) is None,
    ensures
        ({
            let pool = s.current->0.media_pool;
            let k = media_pos(s.current->0, id);
            &&& 0 <= k < pool.len()
            &&& pool[k].id == spec_uuid_parse(id)->Ok_0
            &&& forall|j: int| 0 <= j < k ==> (#[trigger] pool[j]).id != pool[k].id
        }),
{
    let pool = s.current->0.media_pool;
    let mid = parsed_media_id(id);
    let w = choose|i: int| 0 <= i < pool.len() && #[trigger] media_has_id(mid)(pool[i]);
    lemma_exists_first(pool, media_has_id(mid), w);
    let k = media_pos(s.current->0, id);
    assert forall|j: int| 0 <= j < k implies (#[trigger] pool[j]).id != pool[k].id by {
        assert(!media_has_id(mid)(pool[j]));
    }
}

} // verus!
