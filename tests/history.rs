use rusty_notepad::{ChangeKind, EditHistory};

fn texts(v: &Vec<String>) -> Vec<&str> {
    v.iter().map(|s| s.as_str()).collect()
}

fn edited(steps: &[&str]) -> EditHistory {
    let mut h = EditHistory::new();
    for s in steps {
        h.on_user_edit(s.to_string());
    }
    h
}

#[test]
fn new_history_is_empty() {
    let h = EditHistory::new();
    assert_eq!(h.current_text(), "");
    assert!(h.undo_snapshots().is_empty());
    assert!(h.redo_snapshots().is_empty());
    assert!(!h.can_undo());
    assert!(!h.can_redo());
}

#[test]
fn edit_pushes_previous_text() {
    let mut h = edited(&["hello"]);
    h.undo();
    assert_eq!(texts(h.redo_snapshots()), vec!["hello"]);
    h.on_user_edit("world".to_string());
    assert_eq!(h.current_text(), "world");
    assert_eq!(texts(h.undo_snapshots()), vec![""]);
    assert!(h.redo_snapshots().is_empty());
    h.on_user_edit("world!".to_string());
    assert_eq!(texts(h.undo_snapshots()), vec!["", "world"]);
}

#[test]
fn unchanged_text_is_not_an_edit() {
    let mut h = edited(&["a"]);
    h.on_user_edit("a".to_string());
    assert_eq!(texts(h.undo_snapshots()), vec![""]);
}

#[test]
fn undo_then_redo_restores_edit() {
    let mut h = edited(&["a", "ab"]);
    h.undo();
    assert_eq!(h.current_text(), "a");
    h.redo();
    assert_eq!(h.current_text(), "ab");
    assert_eq!(texts(h.undo_snapshots()), vec!["", "a"]);
    assert!(h.redo_snapshots().is_empty());
}

#[test]
fn new_edit_discards_redo() {
    let mut h = edited(&["a", "b"]);
    h.undo();
    assert_eq!(h.current_text(), "a");
    assert!(h.can_redo());
    h.on_user_edit("c".to_string());
    assert!(h.redo_snapshots().is_empty());
    h.redo();
    assert_eq!(h.current_text(), "c");
    assert_eq!(texts(h.undo_snapshots()), vec!["", "a"]);
}

#[test]
fn emptying_buffer_clears_history() {
    let mut h = edited(&["a", "ab", "abc"]);
    h.undo();
    h.on_user_edit(String::new());
    assert_eq!(h.current_text(), "");
    assert!(h.undo_snapshots().is_empty());
    assert!(h.redo_snapshots().is_empty());
    h.undo();
    h.redo();
    assert_eq!(h.current_text(), "");
    assert!(h.undo_snapshots().is_empty());
    assert!(h.redo_snapshots().is_empty());
}

#[test]
fn undo_without_history_is_noop() {
    let mut h = EditHistory::new();
    h.undo();
    assert_eq!(h.current_text(), "");
    assert!(h.undo_snapshots().is_empty());
    assert!(h.redo_snapshots().is_empty());
    let mut h = edited(&["x"]);
    h.undo();
    h.undo();
    assert_eq!(h.current_text(), "");
    assert_eq!(texts(h.redo_snapshots()), vec!["x"]);
}

#[test]
fn redo_without_history_is_noop() {
    let mut h = edited(&["x", "xy"]);
    h.redo();
    assert_eq!(h.current_text(), "xy");
    assert_eq!(texts(h.undo_snapshots()), vec!["", "x"]);
    assert!(h.redo_snapshots().is_empty());
}

#[test]
fn multi_step_sequence() {
    let mut h = edited(&["a", "ab", "abc"]);
    assert_eq!(texts(h.undo_snapshots()), vec!["", "a", "ab"]);
    h.undo();
    assert_eq!(h.current_text(), "ab");
    assert_eq!(texts(h.undo_snapshots()), vec!["", "a"]);
    assert_eq!(texts(h.redo_snapshots()), vec!["abc"]);
    h.undo();
    assert_eq!(h.current_text(), "a");
    assert_eq!(texts(h.redo_snapshots()), vec!["abc", "ab"]);
    h.redo();
    assert_eq!(h.current_text(), "ab");
    assert_eq!(texts(h.redo_snapshots()), vec!["abc"]);
    assert_eq!(texts(h.undo_snapshots()), vec!["", "a"]);
}

#[test]
fn undo_back_to_empty_keeps_redo() {
    let mut h = edited(&["a"]);
    h.undo();
    assert_eq!(h.current_text(), "");
    assert_eq!(texts(h.redo_snapshots()), vec!["a"]);
    h.redo();
    assert_eq!(h.current_text(), "a");
}

#[test]
fn replay_notifications_record_nothing() {
    let mut h = edited(&["a", "ab"]);
    h.undo();
    h.record_if_needed(&"ab".to_string(), &"a".to_string(), ChangeKind::UndoReplay);
    h.record_if_needed(&"a".to_string(), &String::new(), ChangeKind::RedoReplay);
    assert_eq!(texts(h.undo_snapshots()), vec![""]);
    assert_eq!(texts(h.redo_snapshots()), vec!["ab"]);
}

#[test]
fn user_edit_notification_pushes_old_text() {
    let mut h = edited(&["a", "ab"]);
    h.undo();
    h.record_if_needed(&"a".to_string(), &"az".to_string(), ChangeKind::UserEdit);
    assert_eq!(texts(h.undo_snapshots()), vec!["", "a"]);
    assert!(h.redo_snapshots().is_empty());
    assert_eq!(h.current_text(), "a");
}

#[test]
fn user_edit_notification_to_empty_clears() {
    let mut h = edited(&["a", "ab"]);
    h.undo();
    h.record_if_needed(&"a".to_string(), &String::new(), ChangeKind::UserEdit);
    assert!(h.undo_snapshots().is_empty());
    assert!(h.redo_snapshots().is_empty());
}

#[test]
fn set_current_text_drops_history() {
    let mut h = edited(&["a", "ab"]);
    h.undo();
    h.set_current_text("loaded".to_string());
    assert_eq!(h.current_text(), "loaded");
    assert!(h.undo_snapshots().is_empty());
    assert!(h.redo_snapshots().is_empty());
}
