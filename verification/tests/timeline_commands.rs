use flowcut::commands::project::create_project;
use flowcut::commands::timeline::{
    add_clip_to_track, add_track, add_transition, get_timeline_state, move_clip, remove_clip_from_track,
    remove_track, remove_transition, split_clip, trim_clip,
};
use flowcut::project::ProjectState;
use flowcut::utils::UndoManager;

const MISSING: &str = "00000000-0000-0000-0000-000000000000";

fn open_project() -> (ProjectState, UndoManager) {
    let mut ps = ProjectState::new();
    let mut um = UndoManager::new();
    create_project("Demo".to_string(), "/tmp/demo".to_string(), &mut ps, &mut um).ok().unwrap();
    (ps, um)
}

fn err_kind<T>(r: Result<T, flowcut::commands::timeline::TimelineError>) -> (String, String) {
    match r {
        Ok(_) => panic!("expected an error"),
        Err(e) => (e.kind, e.message),
    }
}

#[test]
fn add_track_gives_track_info() {
    let (mut ps, mut um) = open_project();
    let t = add_track("video".to_string(), "V1".to_string(), &mut ps, &mut um).ok().unwrap();
    assert_eq!(t.track_type, "video");
    assert_eq!(t.name, "V1");
    assert_eq!(t.order, 0);
    assert_eq!(t.volume, 1000);
    assert_eq!(t.opacity, 1000);
    assert_eq!(t.clip_count, 0);
    assert!(!t.locked);
    assert!(t.visible);
    assert_eq!(t.id.len(), 36);
    let a = add_track("audio".to_string(), "A1".to_string(), &mut ps, &mut um).ok().unwrap();
    assert_eq!(a.order, 1);
    assert_eq!(a.track_type, "audio");
    let last = um.get_undo_history().pop().unwrap();
    assert_eq!(last.action_type, "add_track");
    assert_eq!(last.description, "Added track 'A1' (audio)");
}

#[test]
fn add_track_rejects_bad_input() {
    let (mut ps, mut um) = open_project();
    let (kind, message) = err_kind(add_track("subtitle".to_string(), "S".to_string(), &mut ps, &mut um));
    assert_eq!(kind, "validation");
    assert_eq!(message, "Track type must be 'video', 'audio', or 'text', got 'subtitle'.");
    let (kind, message) = err_kind(add_track("text".to_string(), "  ".to_string(), &mut ps, &mut um));
    assert_eq!(kind, "validation");
    assert_eq!(message, "Track name must not be empty.");
    let mut empty = ProjectState::new();
    let (kind, _) = err_kind(add_track("video".to_string(), "V".to_string(), &mut empty, &mut um));
    assert_eq!(kind, "no_active_project");
}

#[test]
fn add_clip_places_clip_and_extends_timeline() {
    let (mut ps, mut um) = open_project();
    let t = add_track("video".to_string(), "V1".to_string(), &mut ps, &mut um).ok().unwrap();
    let c = add_clip_to_track(t.id.clone(), "media-1".to_string(), 1_000_000, 5_000_000, &mut ps, &mut um)
        .ok()
        .unwrap();
    assert_eq!(c.track_id, t.id);
    assert_eq!(c.media_id, "media-1");
    assert_eq!(c.start_time, 1_000_000);
    assert_eq!(c.duration, 5_000_000);
    assert_eq!(c.in_point, 0);
    assert_eq!(c.out_point, 5_000_000);
    assert_eq!(c.label, None);
    assert_eq!(c.volume, 1000);
    let st = get_timeline_state(&ps).ok().unwrap();
    assert_eq!(st.duration, 6_000_000);
    assert_eq!(st.clips.len(), 1);
    assert_eq!(st.tracks[0].clip_count, 1);
    assert_eq!(st.cursor_position, 0);
}

#[test]
fn add_clip_errors() {
    let (mut ps, mut um) = open_project();
    let t = add_track("video".to_string(), "V1".to_string(), &mut ps, &mut um).ok().unwrap();
    let (k, m) = err_kind(add_clip_to_track(" ".to_string(), "m".to_string(), 0, 1, &mut ps, &mut um));
    assert_eq!((k.as_str(), m.as_str()), ("validation", "Track ID must not be empty."));
    let (k, _) = err_kind(add_clip_to_track(t.id.clone(), "".to_string(), 0, 1, &mut ps, &mut um));
    assert_eq!(k, "validation");
    let (k, m) = err_kind(add_clip_to_track(t.id.clone(), "m".to_string(), -1, 1, &mut ps, &mut um));
    assert_eq!((k.as_str(), m.as_str()), ("validation", "Start time must not be negative."));
    let (k, m) = err_kind(add_clip_to_track(t.id.clone(), "m".to_string(), 0, 0, &mut ps, &mut um));
    assert_eq!((k.as_str(), m.as_str()), ("validation", "Clip duration must be positive."));
    let (k, m) = err_kind(add_clip_to_track("not-a-uuid".to_string(), "m".to_string(), 0, 1, &mut ps, &mut um));
    assert_eq!(k, "invalid_track_id");
    assert!(m.starts_with("Invalid track ID format: "));
    let (k, m) = err_kind(add_clip_to_track(MISSING.to_string(), "m".to_string(), 0, 1, &mut ps, &mut um));
    assert_eq!(k, "track_not_found");
    assert_eq!(m, format!("Track '{}' not found.", MISSING));
}

#[test]
fn split_cuts_clip_in_two() {
    let (mut ps, mut um) = open_project();
    let t = add_track("video".to_string(), "V1".to_string(), &mut ps, &mut um).ok().unwrap();
    let c = add_clip_to_track(t.id.clone(), "m".to_string(), 0, 5_000_000, &mut ps, &mut um).ok().unwrap();
    let parts = split_clip(t.id.clone(), c.id.clone(), 2_000_000, &mut ps, &mut um).ok().unwrap();
    assert_eq!(parts.len(), 2);
    assert_eq!(parts[0].start_time, 0);
    assert_eq!(parts[0].duration, 2_000_000);
    assert_eq!(parts[0].in_point, 0);
    assert_eq!(parts[0].out_point, 2_000_000);
    assert_eq!(parts[1].start_time, 2_000_000);
    assert_eq!(parts[1].duration, 3_000_000);
    assert_eq!(parts[1].in_point, 2_000_000);
    assert_eq!(parts[1].out_point, 5_000_000);
    assert_ne!(parts[0].id, c.id);
    assert_ne!(parts[1].id, parts[0].id);
    let st = get_timeline_state(&ps).ok().unwrap();
    assert_eq!(st.clips.len(), 2);
    assert_eq!(st.clips[0].id, parts[0].id);
    let last = um.get_undo_history().pop().unwrap();
    assert_eq!(last.action_type, "split_clip");
    assert_eq!(last.description, format!("Split clip '{}' at time 2000000", c.id));
}

#[test]
fn split_outside_clip_is_refused() {
    let (mut ps, mut um) = open_project();
    let t = add_track("video".to_string(), "V1".to_string(), &mut ps, &mut um).ok().unwrap();
    let c = add_clip_to_track(t.id.clone(), "m".to_string(), 1_000, 5_000, &mut ps, &mut um).ok().unwrap();
    let (k, m) = err_kind(split_clip(t.id.clone(), c.id.clone(), 1_000, &mut ps, &mut um));
    assert_eq!(k, "validation");
    assert_eq!(m, "Split time 1000 must be within the clip range [1000, 6000).");
    let (k, m) = err_kind(split_clip(t.id.clone(), c.id.clone(), -5, &mut ps, &mut um));
    assert_eq!((k.as_str(), m.as_str()), ("validation", "Split time must not be negative."));
    let (k, m) = err_kind(split_clip(t.id.clone(), MISSING.to_string(), 2_000, &mut ps, &mut um));
    assert_eq!(k, "clip_not_found");
    assert_eq!(m, format!("Clip '{}' not found.", MISSING));
}

#[test]
fn split_at_half_speed_cuts_source_at_half() {
    let (mut ps, mut um) = open_project();
    let t = add_track("video".to_string(), "V1".to_string(), &mut ps, &mut um).ok().unwrap();
    let c = add_clip_to_track(t.id.clone(), "m".to_string(), 0, 4_000, &mut ps, &mut um).ok().unwrap();
    let mut p = ps.get_current_project().unwrap();
    p.timeline.tracks[0].clips[0].speed = 500;
    ps.update_project(p);
    let parts = split_clip(t.id.clone(), c.id.clone(), 1_001, &mut ps, &mut um).ok().unwrap();
    assert_eq!(parts[0].out_point, 500);
    assert_eq!(parts[1].in_point, 500);
}

#[test]
fn trim_cuts_both_ends() {
    let (mut ps, mut um) = open_project();
    let t = add_track("video".to_string(), "V1".to_string(), &mut ps, &mut um).ok().unwrap();
    let c = add_clip_to_track(t.id.clone(), "m".to_string(), 0, 5_000_000, &mut ps, &mut um).ok().unwrap();
    let r = trim_clip(t.id.clone(), c.id.clone(), 1_000_000, 1_000_000, &mut ps, &mut um).ok().unwrap();
    assert_eq!(r.start_time, 1_000_000);
    assert_eq!(r.duration, 3_000_000);
    assert_eq!(r.in_point, 1_000_000);
    assert_eq!(r.out_point, 4_000_000);
    let st = get_timeline_state(&ps).ok().unwrap();
    assert_eq!(st.duration, 4_000_000);
    let (k, m) = err_kind(trim_clip(t.id.clone(), c.id.clone(), 2_000_000, 1_000_000, &mut ps, &mut um));
    assert_eq!(k, "validation");
    assert_eq!(m, "Trim values would result in zero or negative duration (remaining: 0 microseconds).");
    let (k, m) = err_kind(trim_clip(t.id.clone(), c.id.clone(), -1, 0, &mut ps, &mut um));
    assert_eq!((k.as_str(), m.as_str()), ("validation", "Start trim must not be negative."));
    let (k, m) = err_kind(trim_clip(t.id.clone(), c.id.clone(), 0, -1, &mut ps, &mut um));
    assert_eq!((k.as_str(), m.as_str()), ("validation", "End trim must not be negative."));
}

#[test]
fn move_clip_changes_start_and_duration_of_timeline() {
    let (mut ps, mut um) = open_project();
    let t = add_track("video".to_string(), "V1".to_string(), &mut ps, &mut um).ok().unwrap();
    let c = add_clip_to_track(t.id.clone(), "m".to_string(), 0, 1_000, &mut ps, &mut um).ok().unwrap();
    assert_eq!(move_clip(t.id.clone(), c.id.clone(), 9_000, &mut ps, &mut um).ok(), Some(true));
    let st = get_timeline_state(&ps).ok().unwrap();
    assert_eq!(st.clips[0].start_time, 9_000);
    assert_eq!(st.duration, 10_000);
    assert_eq!(move_clip(t.id.clone(), c.id.clone(), 0, &mut ps, &mut um).ok(), Some(true));
    let back = get_timeline_state(&ps).ok().unwrap();
    assert_eq!(back.duration, 1_000);
    assert_eq!(back.clips[0].start_time, 0);
    assert_eq!(back.clips[0].duration, 1_000);
    let (k, m) = err_kind(move_clip(t.id.clone(), c.id.clone(), -1, &mut ps, &mut um));
    assert_eq!((k.as_str(), m.as_str()), ("validation", "New start time must not be negative."));
    let last = um.get_undo_history().pop().unwrap();
    assert_eq!(last.description, format!("Moved clip '{}' to start_time=0", c.id));
}

#[test]
fn remove_clip_and_track() {
    let (mut ps, mut um) = open_project();
    let t = add_track("video".to_string(), "V1".to_string(), &mut ps, &mut um).ok().unwrap();
    let c = add_clip_to_track(t.id.clone(), "m".to_string(), 0, 1_000, &mut ps, &mut um).ok().unwrap();
    add_clip_to_track(t.id.clone(), "m".to_string(), 0, 3_000, &mut ps, &mut um).ok().unwrap();
    assert_eq!(remove_clip_from_track(t.id.clone(), c.id.clone(), &mut ps, &mut um).ok(), Some(true));
    let st = get_timeline_state(&ps).ok().unwrap();
    assert_eq!(st.clips.len(), 1);
    assert_eq!(st.duration, 3_000);
    let (k, _) = err_kind(remove_clip_from_track(t.id.clone(), c.id.clone(), &mut ps, &mut um));
    assert_eq!(k, "clip_not_found");
    assert_eq!(remove_track(t.id.clone(), &mut ps, &mut um).ok(), Some(true));
    let st = get_timeline_state(&ps).ok().unwrap();
    assert!(st.tracks.is_empty());
    assert!(st.clips.is_empty());
    assert_eq!(st.duration, 0);
    let last = um.get_undo_history().pop().unwrap();
    assert_eq!(last.action_type, "remove_track");
    assert_eq!(last.description, "Removed track 'V1'");
    let (k, m) = err_kind(remove_track(t.id.clone(), &mut ps, &mut um));
    assert_eq!(k, "track_not_found");
    assert_eq!(m, format!("Track '{}' not found.", t.id));
    let (k, m) = err_kind(remove_track("".to_string(), &mut ps, &mut um));
    assert_eq!((k.as_str(), m.as_str()), ("validation", "Track ID must not be empty."));
}

#[test]
fn locked_track_refuses_clips() {
    let (mut ps, mut um) = open_project();
    let t = add_track("video".to_string(), "V1".to_string(), &mut ps, &mut um).ok().unwrap();
    let mut p = ps.get_current_project().unwrap();
    p.timeline.tracks[0].locked = true;
    ps.update_project(p);
    let (k, m) = err_kind(add_clip_to_track(t.id.clone(), "m".to_string(), 0, 1, &mut ps, &mut um));
    assert_eq!(k, "track_locked");
    assert_eq!(m, format!("Track '{}' is locked and cannot be modified.", t.id));
}

#[test]
fn transitions_are_named_on_clips() {
    let (mut ps, mut um) = open_project();
    let t = add_track("video".to_string(), "V1".to_string(), &mut ps, &mut um).ok().unwrap();
    let a = add_clip_to_track(t.id.clone(), "m".to_string(), 0, 1_000, &mut ps, &mut um).ok().unwrap();
    let b = add_clip_to_track(t.id.clone(), "m".to_string(), 1_000, 1_000, &mut ps, &mut um).ok().unwrap();
    let tr = add_transition(a.id.clone(), b.id.clone(), "crossfade".to_string(), 500_000, &mut ps, &mut um)
        .ok()
        .unwrap();
    assert_eq!(tr.from_clip_id, a.id);
    assert_eq!(tr.to_clip_id, b.id);
    assert_eq!(tr.transition_type, "crossfade");
    assert_eq!(tr.duration, 500_000);
    let st = get_timeline_state(&ps).ok().unwrap();
    assert_eq!(st.transitions.len(), 1);
    assert_eq!(st.transitions[0].from_clip_id, a.id);
    assert_eq!(st.transitions[0].to_clip_id, "");
    assert_eq!(st.transitions[0].transition_type, "crossfade");
    assert_eq!(st.transitions[0].duration, 500_000);
    let last = um.get_undo_history().pop().unwrap();
    assert_eq!(last.description, "Added 'crossfade' transition");
    let (k, m) = err_kind(add_transition(a.id.clone(), MISSING.to_string(), "x".to_string(), 1, &mut ps, &mut um));
    assert_eq!(k, "clip_not_found");
    assert_eq!(m, format!("To-clip '{}' not found.", MISSING));
    let (k, m) = err_kind(add_transition(MISSING.to_string(), b.id.clone(), "x".to_string(), 1, &mut ps, &mut um));
    assert_eq!(k, "clip_not_found");
    assert_eq!(m, format!("From-clip '{}' not found.", MISSING));
    let (k, m) = err_kind(add_transition(a.id.clone(), b.id.clone(), "x".to_string(), 0, &mut ps, &mut um));
    assert_eq!((k.as_str(), m.as_str()), ("validation", "Transition duration must be positive."));
    let (k, _) = err_kind(add_transition("bad".to_string(), b.id.clone(), "x".to_string(), 1, &mut ps, &mut um));
    assert_eq!(k, "invalid_from_clip_id");
    // The failed calls left the transitions as they were.
    assert_eq!(get_timeline_state(&ps).ok().unwrap().transitions.len(), 1);
}

#[test]
fn remove_transition_takes_it_off_the_clip() {
    let (mut ps, mut um) = open_project();
    let t = add_track("video".to_string(), "V1".to_string(), &mut ps, &mut um).ok().unwrap();
    let a = add_clip_to_track(t.id.clone(), "m".to_string(), 0, 1_000, &mut ps, &mut um).ok().unwrap();
    let b = add_clip_to_track(t.id.clone(), "m".to_string(), 1_000, 1_000, &mut ps, &mut um).ok().unwrap();
    let x = add_transition(a.id.clone(), b.id.clone(), "crossfade".to_string(), 500_000, &mut ps, &mut um)
        .ok()
        .unwrap();
    let y = add_transition(a.id.clone(), b.id.clone(), "wipe".to_string(), 500_000, &mut ps, &mut um).ok().unwrap();
    // The timeline lists each transition under the id it was given.
    let st = get_timeline_state(&ps).ok().unwrap();
    let ids: Vec<String> = st.transitions.iter().map(|t| t.id.clone()).collect();
    assert_eq!(ids, vec![x.id.clone(), y.id.clone()]);
    let before = um.undo_count();
    assert_eq!(remove_transition(x.id.clone(), &mut ps, &mut um).ok(), Some(true));
    assert_eq!(um.undo_count(), before + 1);
    let last = um.get_undo_history().pop().unwrap();
    assert_eq!(last.description, format!("Removed transition '{}'", x.id));
    let p = ps.get_current_project().unwrap();
    let clip = &p.timeline.tracks[0].clips[0];
    assert_eq!(clip.transitions.len(), 1);
    assert_eq!(clip.transitions[0].name, "wipe");
    let st = get_timeline_state(&ps).ok().unwrap();
    assert_eq!(st.transitions.len(), 1);
    assert_eq!(st.transitions[0].id, y.id);
    // Removed once, it is gone.
    let (k, m) = err_kind(remove_transition(x.id.clone(), &mut ps, &mut um));
    assert_eq!(k, "transition_not_found");
    assert_eq!(m, format!("Transition '{}' not found.", x.id));
    assert_eq!(um.undo_count(), before + 1);
}

#[test]
fn remove_transition_checks() {
    let (mut ps, mut um) = open_project();
    let (k, m) = err_kind(remove_transition(" ".to_string(), &mut ps, &mut um));
    assert_eq!((k.as_str(), m.as_str()), ("validation", "Transition ID must not be empty."));
    let (k, _) = err_kind(remove_transition("t".to_string(), &mut ProjectState::new(), &mut um));
    assert_eq!(k, "no_active_project");
    let (k, m) = err_kind(remove_transition("t-1".to_string(), &mut ps, &mut um));
    assert_eq!(k, "invalid_transition_id");
    assert!(m.starts_with("Invalid transition ID format: "));
    let (k, _) = err_kind(remove_transition(MISSING.to_string(), &mut ps, &mut um));
    assert_eq!(k, "transition_not_found");
}

#[test]
fn locked_track_refuses_clip_edits() {
    let (mut ps, mut um) = open_project();
    let t = add_track("video".to_string(), "V1".to_string(), &mut ps, &mut um).ok().unwrap();
    let c = add_clip_to_track(t.id.clone(), "m".to_string(), 0, 4_000_000, &mut ps, &mut um).ok().unwrap();
    let mut p = ps.get_current_project().unwrap();
    p.timeline.tracks[0].locked = true;
    ps.update_project(p);
    let before = um.undo_count();
    let locked = format!("Track '{}' is locked and cannot be modified.", t.id);
    let (k, m) = err_kind(remove_clip_from_track(t.id.clone(), c.id.clone(), &mut ps, &mut um));
    assert_eq!((k.as_str(), m.as_str()), ("track_locked", locked.as_str()));
    let (k, m) = err_kind(move_clip(t.id.clone(), c.id.clone(), 1_000_000, &mut ps, &mut um));
    assert_eq!((k.as_str(), m.as_str()), ("track_locked", locked.as_str()));
    let (k, m) = err_kind(split_clip(t.id.clone(), c.id.clone(), 2_000_000, &mut ps, &mut um));
    assert_eq!((k.as_str(), m.as_str()), ("track_locked", locked.as_str()));
    let (k, m) = err_kind(trim_clip(t.id.clone(), c.id.clone(), 1_000, 1_000, &mut ps, &mut um));
    assert_eq!((k.as_str(), m.as_str()), ("track_locked", locked.as_str()));
    assert_eq!(um.undo_count(), before);
    let p = ps.get_current_project().unwrap();
    assert_eq!(p.timeline.tracks[0].clips.len(), 1);
    assert_eq!(p.timeline.tracks[0].clips[0].start_time, 0);
    assert_eq!(p.timeline.tracks[0].clips[0].duration, 4_000_000);
    // A missing clip is reported before the lock.
    let (k, _) = err_kind(move_clip(t.id.clone(), MISSING.to_string(), 0, &mut ps, &mut um));
    assert_eq!(k, "clip_not_found");
}

#[test]
fn clips_stay_ordered_by_start_time() {
    let (mut ps, mut um) = open_project();
    let t = add_track("video".to_string(), "V1".to_string(), &mut ps, &mut um).ok().unwrap();
    let c5 = add_clip_to_track(t.id.clone(), "m".to_string(), 5_000, 100, &mut ps, &mut um).ok().unwrap();
    let c1 = add_clip_to_track(t.id.clone(), "m".to_string(), 1_000, 100, &mut ps, &mut um).ok().unwrap();
    let c3 = add_clip_to_track(t.id.clone(), "m".to_string(), 3_000, 100, &mut ps, &mut um).ok().unwrap();
    let d1 = add_clip_to_track(t.id.clone(), "m".to_string(), 1_000, 100, &mut ps, &mut um).ok().unwrap();
    let st = get_timeline_state(&ps).ok().unwrap();
    let ids: Vec<String> = st.clips.iter().map(|c| c.id.clone()).collect();
    // Clips that start together keep the order in which they were added.
    assert_eq!(ids, vec![c1.id, d1.id, c3.id, c5.id]);
    let starts: Vec<i64> = st.clips.iter().map(|c| c.start_time).collect();
    assert_eq!(starts, vec![1_000, 1_000, 3_000, 5_000]);
    assert_eq!(st.duration, 5_100);
}

#[test]
fn timeline_state_without_project() {
    let ps = ProjectState::new();
    let (k, m) = err_kind(get_timeline_state(&ps));
    assert_eq!((k.as_str(), m.as_str()), ("no_active_project", "No active project."));
}

#[test]
fn failed_edit_leaves_undo_history() {
    let (mut ps, mut um) = open_project();
    let before = um.undo_count();
    let _ = add_track("nope".to_string(), "X".to_string(), &mut ps, &mut um);
    assert_eq!(um.undo_count(), before);
    assert!(get_timeline_state(&ps).ok().unwrap().tracks.is_empty());
}

#[test]
fn add_then_remove_clip_gives_timeline_back() {
    let (mut ps, mut um) = open_project();
    let t = add_track("audio".to_string(), "A".to_string(), &mut ps, &mut um).ok().unwrap();
    add_clip_to_track(t.id.clone(), "m".to_string(), 0, 2_000, &mut ps, &mut um).ok().unwrap();
    let before = get_timeline_state(&ps).ok().unwrap();
    let c = add_clip_to_track(t.id.clone(), "m".to_string(), 5_000, 5_000, &mut ps, &mut um).ok().unwrap();
    assert_eq!(get_timeline_state(&ps).ok().unwrap().duration, 10_000);
    remove_clip_from_track(t.id.clone(), c.id.clone(), &mut ps, &mut um).ok().unwrap();
    let after = get_timeline_state(&ps).ok().unwrap();
    assert_eq!(after.duration, before.duration);
    assert_eq!(after.clips.len(), before.clips.len());
    assert_eq!(after.clips[0].id, before.clips[0].id);
    assert_eq!(after.tracks[0].clip_count, 1);
}

#[test]
fn cuts_keep_the_source_span_at_the_clip_speed() {
    let (mut ps, mut um) = open_project();
    let t = add_track("video".to_string(), "V1".to_string(), &mut ps, &mut um).ok().unwrap();
    let c = add_clip_to_track(t.id.clone(), "m".to_string(), 0, 4_000_000, &mut ps, &mut um).ok().unwrap();
    let mut p = ps.get_current_project().unwrap();
    p.timeline.tracks[0].clips[0].speed = 1500;
    p.timeline.tracks[0].clips[0].out_point = 6_000_000;
    ps.update_project(p);
    let parts = split_clip(t.id.clone(), c.id.clone(), 1_000_001, &mut ps, &mut um).ok().unwrap();
    // 1.000001 s at 1.5x covers 1.5000015 s of source, cut down to the microsecond.
    assert_eq!(parts[0].out_point, 1_500_001);
    assert_eq!(parts[1].in_point, 1_500_001);
    assert_eq!(parts[1].out_point, 6_000_000);
    assert_eq!(parts[0].duration + parts[1].duration, 4_000_000);
    let trimmed = trim_clip(t.id.clone(), parts[1].id.clone(), 1_000, 2_000, &mut ps, &mut um).ok().unwrap();
    assert_eq!(trimmed.in_point, 1_500_001 + 1_500);
    assert_eq!(trimmed.out_point, 6_000_000 - 3_000);
    assert_eq!(trimmed.duration, 2_999_999 - 3_000);
}

#[test]
fn removing_every_added_transition_leaves_the_clip_as_before() {
    let (mut ps, mut um) = open_project();
    let t = add_track("video".to_string(), "V1".to_string(), &mut ps, &mut um).ok().unwrap();
    let a = add_clip_to_track(t.id.clone(), "m".to_string(), 0, 1_000, &mut ps, &mut um).ok().unwrap();
    let b = add_clip_to_track(t.id.clone(), "m".to_string(), 1_000, 1_000, &mut ps, &mut um).ok().unwrap();
    let x = add_transition(a.id.clone(), b.id.clone(), "fade".to_string(), 10, &mut ps, &mut um).ok().unwrap();
    assert_eq!(ps.get_current_project().unwrap().timeline.tracks[0].clips[0].transitions.len(), 1);
    remove_transition(x.id, &mut ps, &mut um).ok().unwrap();
    let p = ps.get_current_project().unwrap();
    assert!(p.timeline.tracks[0].clips[0].transitions.is_empty());
    assert!(p.timeline.tracks[0].clips[1].transitions.is_empty());
    assert!(get_timeline_state(&ps).ok().unwrap().transitions.is_empty());
}

#[test]
fn split_move_and_trim_keep_clips_ordered() {
    let (mut ps, mut um) = open_project();
    let t = add_track("video".to_string(), "V1".to_string(), &mut ps, &mut um).ok().unwrap();
    let a = add_clip_to_track(t.id.clone(), "m".to_string(), 0, 10_000, &mut ps, &mut um).ok().unwrap();
    let b = add_clip_to_track(t.id.clone(), "m".to_string(), 20_000, 10_000, &mut ps, &mut um).ok().unwrap();
    // The right part of a split goes before the later clip, not at the end.
    let parts = split_clip(t.id.clone(), a.id.clone(), 4_000, &mut ps, &mut um).ok().unwrap();
    let ids = |ps: &ProjectState| -> Vec<String> {
        get_timeline_state(ps).ok().unwrap().clips.iter().map(|c| c.id.clone()).collect()
    };
    assert_eq!(ids(&ps), vec![parts[0].id.clone(), parts[1].id.clone(), b.id.clone()]);
    // Moving the later clip to the front puts it first.
    move_clip(t.id.clone(), b.id.clone(), 1_000, &mut ps, &mut um).ok().unwrap();
    assert_eq!(ids(&ps), vec![parts[0].id.clone(), b.id.clone(), parts[1].id.clone()]);
    // Trimming the first part's start past the others moves it behind them.
    trim_clip(t.id.clone(), parts[0].id.clone(), 3_500, 0, &mut ps, &mut um).ok().unwrap();
    assert_eq!(ids(&ps), vec![b.id.clone(), parts[0].id.clone(), parts[1].id.clone()]);
    let starts: Vec<i64> = get_timeline_state(&ps).ok().unwrap().clips.iter().map(|c| c.start_time).collect();
    assert_eq!(starts, vec![1_000, 3_500, 4_000]);
}
