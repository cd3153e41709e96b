use flowcut::commands::undo::{get_undo_history, redo_action, undo_action};
use flowcut::json::JsonValue;
use flowcut::project::ProjectState;
use flowcut::utils::{ActionRecord, UndoManager};

fn record(id: u128, kind: &str, ms: i64) -> ActionRecord {
    ActionRecord {
        id,
        action_type: kind.to_string(),
        description: kind.to_string(),
        timestamp: ms,
        data: JsonValue::Int(id as i64),
        change: None,
    }
}

#[test]
fn undo_and_redo_report_the_record() {
    let mut ps = ProjectState::new();
    let mut um = UndoManager::new();
    let e = undo_action(&mut um, &mut ps).err().unwrap();
    assert_eq!((e.kind.as_str(), e.message.as_str()), ("empty_stack", "Nothing to undo: the undo stack is empty."));
    let e = redo_action(&mut um, &mut ps).err().unwrap();
    assert_eq!((e.kind.as_str(), e.message.as_str()), ("empty_stack", "Nothing to redo: the redo stack is empty."));
    assert_eq!((um.undo_count(), um.redo_count()), (0, 0));
    um.push_action(record(1, "a", 0));
    um.push_action(record(2, "b", 1_000));
    let undone = undo_action(&mut um, &mut ps).ok().unwrap().unwrap();
    assert_eq!(undone.id, "00000000-0000-0000-0000-000000000002");
    assert_eq!(undone.action_type, "b");
    assert!(undone.undone);
    assert_eq!(undone.sequence, 1);
    assert_eq!(undone.timestamp, "1970-01-01T00:00:01+00:00");
    assert_eq!(um.redo_count(), 1);
    let redone = redo_action(&mut um, &mut ps).ok().unwrap().unwrap();
    assert_eq!(redone.id, undone.id);
    assert!(!redone.undone);
    assert_eq!(redone.sequence, 1);
    assert_eq!(um.undo_count(), 2);
}

#[test]
fn history_lists_undo_then_redo_in_order() {
    let mut ps = ProjectState::new();
    let mut um = UndoManager::new();
    for i in 1..=4u128 {
        um.push_action(record(i, "x", 0));
    }
    undo_action(&mut um, &mut ps).ok().unwrap();
    undo_action(&mut um, &mut ps).ok().unwrap();
    let h = get_undo_history(&um).ok().unwrap();
    let ids: Vec<String> = h.iter().map(|r| r.id.clone()).collect();
    assert_eq!(
        ids,
        vec![
            "00000000-0000-0000-0000-000000000001",
            "00000000-0000-0000-0000-000000000002",
            "00000000-0000-0000-0000-000000000003",
            "00000000-0000-0000-0000-000000000004",
        ]
    );
    let undone: Vec<bool> = h.iter().map(|r| r.undone).collect();
    assert_eq!(undone, vec![false, false, true, true]);
    let seq: Vec<u64> = h.iter().map(|r| r.sequence).collect();
    assert_eq!(seq, vec![0, 1, 2, 3]);
}

use flowcut::commands::project::create_project;
use flowcut::commands::timeline::{add_clip_to_track, add_track, get_timeline_state, move_clip, remove_clip_from_track};

#[test]
fn undo_reverts_the_project_and_redo_reapplies() {
    let mut ps = ProjectState::new();
    let mut um = UndoManager::new();
    create_project("Demo".to_string(), "/tmp/demo".to_string(), &mut ps, &mut um).ok().unwrap();
    let t = add_track("video".to_string(), "V1".to_string(), &mut ps, &mut um).ok().unwrap();
    let c = add_clip_to_track(t.id.clone(), "m".to_string(), 0, 2_000_000, &mut ps, &mut um).ok().unwrap();
    move_clip(t.id.clone(), c.id.clone(), 5_000_000, &mut ps, &mut um).ok().unwrap();
    assert_eq!(get_timeline_state(&ps).ok().unwrap().clips[0].start_time, 5_000_000);
    // Undoing the move puts the clip back.
    let undone = undo_action(&mut um, &mut ps).ok().unwrap().unwrap();
    assert_eq!(undone.action_type, "move_clip");
    let st = get_timeline_state(&ps).ok().unwrap();
    assert_eq!(st.clips[0].start_time, 0);
    assert_eq!(st.duration, 2_000_000);
    // Undoing the addition takes the clip off the track.
    undo_action(&mut um, &mut ps).ok().unwrap();
    let st = get_timeline_state(&ps).ok().unwrap();
    assert!(st.clips.is_empty());
    assert_eq!(st.tracks.len(), 1);
    // Redoing both brings the clip back where the move left it.
    redo_action(&mut um, &mut ps).ok().unwrap();
    redo_action(&mut um, &mut ps).ok().unwrap();
    let st = get_timeline_state(&ps).ok().unwrap();
    assert_eq!(st.clips.len(), 1);
    assert_eq!(st.clips[0].id, c.id);
    assert_eq!(st.clips[0].start_time, 5_000_000);
    assert_eq!(um.redo_count(), 0);
}

#[test]
fn undo_of_a_removal_brings_the_clip_back() {
    let mut ps = ProjectState::new();
    let mut um = UndoManager::new();
    create_project("Demo".to_string(), "/tmp/demo".to_string(), &mut ps, &mut um).ok().unwrap();
    let t = add_track("video".to_string(), "V1".to_string(), &mut ps, &mut um).ok().unwrap();
    let c = add_clip_to_track(t.id.clone(), "m".to_string(), 1_000, 2_000, &mut ps, &mut um).ok().unwrap();
    let before = ps.get_current_project().unwrap();
    remove_clip_from_track(t.id.clone(), c.id.clone(), &mut ps, &mut um).ok().unwrap();
    undo_action(&mut um, &mut ps).ok().unwrap();
    let after = ps.get_current_project().unwrap();
    assert_eq!(after.timeline.tracks[0].clips.len(), 1);
    assert_eq!(after.timeline.tracks[0].clips[0].id, before.timeline.tracks[0].clips[0].id);
    assert_eq!(after.timeline.duration, before.timeline.duration);
}

#[test]
fn undo_of_creating_a_project_closes_it() {
    let mut ps = ProjectState::new();
    let mut um = UndoManager::new();
    create_project("Demo".to_string(), "/tmp/demo".to_string(), &mut ps, &mut um).ok().unwrap();
    undo_action(&mut um, &mut ps).ok().unwrap();
    assert!(ps.get_current_project().is_none());
    redo_action(&mut um, &mut ps).ok().unwrap();
    assert_eq!(ps.get_current_project().unwrap().name, "Demo");
}

#[test]
fn undo_refuses_when_another_project_is_open() {
    let mut ps = ProjectState::new();
    let mut um = UndoManager::new();
    create_project("Demo".to_string(), "/tmp/demo".to_string(), &mut ps, &mut um).ok().unwrap();
    add_track("video".to_string(), "V1".to_string(), &mut ps, &mut um).ok().unwrap();
    ps.close_project();
    let e = undo_action(&mut um, &mut ps).err().unwrap();
    assert_eq!(e.kind, "undo_apply_failed");
    assert_eq!(e.message, "The open project is not the one this action changed; it cannot be undone.");
    assert_eq!(um.undo_count(), 2);
    assert!(ps.get_current_project().is_none());
}
