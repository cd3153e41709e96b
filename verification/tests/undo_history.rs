use flowcut::json::JsonValue;
use flowcut::utils::{default_shortcuts, ActionRecord, UndoManager};

fn record(id: u128, kind: &str) -> ActionRecord {
    ActionRecord {
        id,
        action_type: kind.to_string(),
        description: format!("did {}", kind),
        timestamp: 1_700_000_000_000,
        data: JsonValue::Null,
        change: None,
    }
}

#[test]
fn new_manager_is_empty_with_limit_100() {
    let m = UndoManager::new();
    assert!(!m.can_undo());
    assert!(!m.can_redo());
    assert_eq!(m.undo_count(), 0);
    assert_eq!(m.redo_count(), 0);
    assert_eq!(m.max_history, 100);
}

#[test]
fn undo_then_redo_moves_the_record_back() {
    let mut m = UndoManager::new();
    m.push_action(record(1, "a"));
    m.push_action(record(2, "b"));
    let undone = m.undo().unwrap();
    assert_eq!(undone.id, 2);
    assert_eq!(m.undo_count(), 1);
    assert_eq!(m.redo_count(), 1);
    let redone = m.redo().unwrap();
    assert_eq!(redone.id, 2);
    assert_eq!(m.undo_count(), 2);
    assert_eq!(m.redo_count(), 0);
    let history = m.get_undo_history();
    assert_eq!(history.iter().map(|r| r.id).collect::<Vec<_>>(), vec![1, 2]);
}

#[test]
fn undo_and_redo_on_empty_stacks_give_nothing() {
    let mut m = UndoManager::new();
    assert!(m.undo().is_none());
    assert!(m.redo().is_none());
    assert_eq!(m.undo_count(), 0);
}

#[test]
fn recording_clears_the_redo_stack() {
    let mut m = UndoManager::new();
    m.push_action(record(1, "a"));
    m.push_action(record(2, "b"));
    m.undo();
    assert!(m.can_redo());
    m.push_action(record(3, "c"));
    assert!(!m.can_redo());
    assert!(m.redo().is_none());
    let ids: Vec<u128> = m.get_undo_history().iter().map(|r| r.id).collect();
    assert_eq!(ids, vec![1, 3]);
}

#[test]
fn history_limit_drops_oldest_records() {
    let mut m = UndoManager::new();
    m.set_max_history(3);
    for i in 0..5u128 {
        m.push_action(record(i, "x"));
    }
    let ids: Vec<u128> = m.get_undo_history().iter().map(|r| r.id).collect();
    assert_eq!(ids, vec![2, 3, 4]);
}

#[test]
fn hundred_and_one_records_keep_the_newest_hundred() {
    let mut m = UndoManager::new();
    for i in 0..101u128 {
        m.push_action(record(i, "x"));
    }
    assert_eq!(m.undo_count(), 100);
    assert_eq!(m.get_undo_history()[0].id, 1);
}

#[test]
fn limit_zero_keeps_nothing() {
    let mut m = UndoManager::new();
    m.set_max_history(0);
    m.push_action(record(7, "x"));
    assert_eq!(m.undo_count(), 0);
    assert!(m.undo().is_none());
}

#[test]
fn clear_empties_both_stacks_and_keeps_limit() {
    let mut m = UndoManager::new();
    m.set_max_history(5);
    m.push_action(record(1, "a"));
    m.push_action(record(2, "b"));
    m.undo();
    m.clear();
    assert_eq!(m.undo_count(), 0);
    assert_eq!(m.redo_count(), 0);
    assert_eq!(m.max_history, 5);
}

#[test]
fn redo_history_lists_undone_records_oldest_first() {
    let mut m = UndoManager::new();
    m.push_action(record(1, "a"));
    m.push_action(record(2, "b"));
    m.undo();
    m.undo();
    let ids: Vec<u128> = m.get_redo_history().iter().map(|r| r.id).collect();
    assert_eq!(ids, vec![2, 1]);
}

#[test]
fn record_copy_keeps_fields() {
    let r = record(9, "z");
    let c = r.copy();
    assert_eq!(c.id, 9);
    assert_eq!(c.action_type, "z");
    assert_eq!(c.description, "did z");
    assert_eq!(c.timestamp, 1_700_000_000_000);
}

#[test]
fn default_shortcuts_are_listed_in_order() {
    let s = default_shortcuts();
    assert_eq!(s.len(), 27);
    assert_eq!(s[0].action, "undo");
    assert_eq!(s[0].key, "z");
    assert_eq!(s[0].modifiers, vec!["ctrl".to_string()]);
    assert_eq!(s[8].action, "split_clip");
    assert_eq!(s[8].key, "s");
    assert!(s[8].modifiers.is_empty());
    assert_eq!(s[1].action, "redo");
    assert_eq!(s[1].modifiers, vec!["ctrl".to_string(), "shift".to_string()]);
    assert_eq!(s[22].action, "export");
    assert_eq!(s[22].modifiers, vec!["ctrl".to_string()]);
    assert_eq!(s[2].key, "Space");
    assert!(s[2].modifiers.is_empty());
    assert_eq!(s[26].action, "select_none");
    assert_eq!(s[26].key, "Escape");
    assert_eq!(s[26].description, "Clear the current selection");
}
