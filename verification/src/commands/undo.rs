//! Undo commands: step back and forth through the action history and list
//! it in order.

use vstd::prelude::*;

use crate::ids::{hyphenated, rfc3339_of_millis, spec_rfc3339_millis, uuid_text};
use crate::json::{Json, JsonValue};
use crate::project::{info_of, spec_recent_after_update, ProjectState, ProjectStateView, ProjectView};
use crate::utils::{
    keep_newest, spec_push, spec_redo, spec_undo, with_change, ActionRecord as StoredRecord, ActionRecordView,
    UndoManager, UndoView,
};
use vstd::string::StringExecFns;

verus! {

/// An action of the history as the history panel shows it.
pub struct ActionRecord {
    pub id: String,
    pub action_type: String,
    pub description: String,
    /// When the action was performed, as RFC 3339 text ("" when the instant
    /// cannot be written).
    pub timestamp: String,
    pub payload: JsonValue,
    /// Whether the action sits on the redo stack.
    pub undone: bool,
    /// Its position in the history, oldest first, from 0.
    pub sequence: u64,
}

pub struct HistoryEntryView {
    pub id: Seq<char>,
    pub action_type: Seq<char>,
    pub description: Seq<char>,
    pub timestamp: Seq<char>,
    pub payload: Json,
    pub undone: bool,
    pub sequence: u64,
}

impl View for ActionRecord {
    type V = HistoryEntryView;

    open spec fn view(&self) -> HistoryEntryView {
        HistoryEntryView {
            id: self.id@,
            action_type: self.action_type@,
            description: self.description@,
            timestamp: self.timestamp@,
            payload: self.payload@,
            undone: self.undone,
            sequence: self.sequence,
        }
    }
}

/// Why an undo command failed: a category and a message.
pub struct UndoError {
    pub kind: String,
    pub message: String,
}

pub struct UndoErrorView {
    pub kind: Seq<char>,
    pub message: Seq<char>,
}

impl View for UndoError {
    type V = UndoErrorView;

    open spec fn view(&self) -> UndoErrorView {
        UndoErrorView { kind: self.kind@, message: self.message@ }
    }
}

/// The error given when the stack an undo or redo would take from is empty.
pub open spec fn empty_stack_error(message: Seq<char>) -> UndoErrorView {
    UndoErrorView { kind: "empty_stack"@, message }
}

fn empty_stack(message: &str) -> (e: UndoError)
    ensures
        e@ == empty_stack_error(message@),
{
    UndoError { kind: String::from_str("empty_stack"), message: String::from_str(message) }
}

/// The RFC 3339 text of an instant in milliseconds ("" when it cannot be
/// written).
pub open spec fn stamp_text(ms: i64) -> Seq<char> {
    match spec_rfc3339_millis(ms) {
        Some(t) => t,
        None => Seq::empty(),
    }
}

/// The history entry of `r` at position `sequence`.
pub open spec fn entry_of(r: ActionRecordView, undone: bool, sequence: u64) -> HistoryEntryView {
    HistoryEntryView {
        id: hyphenated(r.id),
        action_type: r.action_type,
        description: r.description,
        timestamp: stamp_text(r.timestamp),
        payload: r.data,
        undone,
        sequence,
    }
}

fn entry_for(r: &StoredRecord, undone: bool, sequence: u64) -> (e: ActionRecord)
    ensures
        e@ == entry_of(r@, undone, sequence),
{
    let timestamp = match rfc3339_of_millis(r.timestamp) {
        Some(t) => t,
        None => String::new(),
    };
    ActionRecord {
        id: uuid_text(r.id),
        action_type: r.action_type.clone(),
        description: r.description.clone(),
        timestamp,
        payload: r.data.copy(),
        undone,
        sequence,
    }
}

/// The whole history, oldest first: the undo stack as it stands, then the
/// redo stack from its top (the next action to redo) down, each entry
/// numbered by its position.
pub open spec fn history(v: UndoView) -> Seq<HistoryEntryView> {
    let n = v.undo.len();
    let m = v.redo.len();
    Seq::new(
        n + m,
        |k: int|
            if k < n {
                entry_of(v.undo[k], false, k as u64)
            } else {
                entry_of(v.redo[m - 1 - (k - n)], true, k as u64)
            },
    )
}

/// Whether the open project `current` is the project a snapshot `snap` was
/// taken of: the same project by id, or no project in either.
pub open spec fn same_project(current: Option<ProjectView>, snap: Option<ProjectView>) -> bool {
    match (current, snap) {
        (Some(c), Some(p)) => c.id == p.id,
        (None, None) => true,
        _ => false,
    }
}

/// The state `s` with the snapshot `snap` made the open project (none when
/// it is `None`); a project put back refreshes its recent entry.
pub open spec fn restored(s: ProjectStateView, snap: Option<ProjectView>) -> ProjectStateView {
    match snap {
        Some(p) => ProjectStateView { current: Some(p), recent: spec_recent_after_update(s.recent, info_of(p)) },
        None => ProjectStateView { current: None, recent: s.recent },
    }
}

pub open spec fn undo_error(kind: Seq<char>, message: Seq<char>) -> UndoErrorView {
    UndoErrorView { kind, message }
}

/// Why undoing fails in the state `s` with the history `u`, if it does:
/// nothing to undo, or the open project is not the one the action left.
pub open spec fn undo_check(s: ProjectStateView, u: UndoView) -> Option<UndoErrorView> {
    if u.undo.len() == 0 {
        Some(empty_stack_error("Nothing to undo: the undo stack is empty."@))
    } else {
        match u.undo.last().change {
            Some(ch) => if same_project(s.current, ch.after) {
                None
            } else {
                Some(
                    undo_error(
                        "undo_apply_failed"@,
                        "The open project is not the one this action changed; it cannot be undone."@,
                    ),
                )
            },
            None => None,
        }
    }
}

/// Why redoing fails in the state `s` with the history `u`, if it does:
/// nothing to redo, or the open project is not the one the action started
/// from.
pub open spec fn redo_check(s: ProjectStateView, u: UndoView) -> Option<UndoErrorView> {
    if u.redo.len() == 0 {
        Some(empty_stack_error("Nothing to redo: the redo stack is empty."@))
    } else {
        match u.redo.last().change {
            Some(ch) => if same_project(s.current, ch.before) {
                None
            } else {
                Some(
                    undo_error(
                        "undo_apply_failed"@,
                        "The open project is not the one this action changed; it cannot be redone."@,
                    ),
                )
            },
            None => None,
        }
    }
}

/// The state after undoing `r` in `s`: the project as it was before the
/// action, when `r` holds it; otherwise `s` unchanged.
pub open spec fn state_after_undo(s: ProjectStateView, r: ActionRecordView) -> ProjectStateView {
    match r.change {
        Some(ch) => restored(s, ch.before),
        None => s,
    }
}

/// The state after redoing `r` in `s`: the project as the action left it,
/// when `r` holds it; otherwise `s` unchanged.
pub open spec fn state_after_redo(s: ProjectStateView, r: ActionRecordView) -> ProjectStateView {
    match r.change {
        Some(ch) => restored(s, ch.after),
        None => s,
    }
}

/// Puts back the project held by `change` (`before` when `to_before`, else
/// `after`), if the record holds one.
fn apply_change(project_state: &mut ProjectState, change: &Option<crate::utils::ProjectChange>, to_before: bool)
    ensures
        final(project_state)@ == (match change {
            Some(ch) => restored(old(project_state)@, if to_before { ch@.before } else { ch@.after }),
            None => old(project_state)@,
        }),
{
    match change {
        Some(ch) => {
            let snap = if to_before {
                crate::deep_copy::copy_option(&ch.before)
            } else {
                crate::deep_copy::copy_option(&ch.after)
            };
            project_state.restore(snap);
        },
        None => {},
    }
}

fn open_matches(project_state: &ProjectState, snap: &Option<crate::project::Project>) -> (b: bool)
    ensures
        b == same_project(project_state@.current, crate::project::project_option_view(*snap)),
{
    match (&project_state.current_project, snap) {
        (Some(c), Some(p)) => c.id == p.id,
        (None, None) => true,
        _ => false,
    }
}

/// Undoes the most recent action: the open project goes back to what it was
/// before the action, the action moves to the redo stack, and it is given
/// back, marked as undone, with its position in the history. With nothing
/// to undo the answer is an `empty_stack` error; when the open project is
/// not the one the action left, an `undo_apply_failed` error. On an error
/// nothing changes.
pub fn undo_action(undo_manager: &mut UndoManager, project_state: &mut ProjectState) -> (r: Result<
    Option<ActionRecord>,
    UndoError,
>)
    ensures
        r is Err <==> undo_check(old(project_state)@, old(undo_manager)@) is Some,
        r matches Err(e) ==> Some(e@) == undo_check(old(project_state)@, old(undo_manager)@)
            && final(undo_manager)@ == old(undo_manager)@ && final(project_state)@ == old(project_state)@,
        r matches Ok(o) ==> {
            &&& final(undo_manager)@ == spec_undo(old(undo_manager)@).0
            &&& final(project_state)@ == state_after_undo(old(project_state)@, old(undo_manager)@.undo.last())
            &&& o matches Some(e) && e@ == entry_of(
                old(undo_manager)@.undo.last(),
                true,
                (old(undo_manager)@.undo.len() - 1) as u64,
            )
        },
{
    let n = undo_manager.undo_count();
    if n == 0 {
        return Err(empty_stack("Nothing to undo: the undo stack is empty."));
    }
    let top = &undo_manager.undo_stack[n - 1];
    assert(top@ == old(undo_manager)@.undo.last());
    match &top.change {
        Some(ch) => {
            if !open_matches(project_state, &ch.after) {
                return Err(
                    UndoError {
                        kind: String::from_str("undo_apply_failed"),
                        message: String::from_str(
                            "The open project is not the one this action changed; it cannot be undone.",
                        ),
                    },
                );
            }
        },
        None => {},
    }
    let record = match undo_manager.undo() {
        Some(record) => record,
        None => {
            return Err(empty_stack("Nothing to undo: the undo stack is empty."));
        },
    };
    apply_change(project_state, &record.change, true);
    let e = entry_for(&record, true, (n - 1) as u64);
    let ghost ev = e@;
    let r: Result<Option<ActionRecord>, UndoError> = Ok(Some(e));
    assert(r->Ok_0->Some_0@ == ev);
    r
}

/// Redoes the most recently undone action: the open project becomes what
/// the action left, the action moves back to the undo stack, and it is
/// given back, marked as not undone, with its position in the history. With
/// nothing to redo the answer is an `empty_stack` error; when the open
/// project is not the one the action started from, an `undo_apply_failed`
/// error. On an error nothing changes.
pub fn redo_action(undo_manager: &mut UndoManager, project_state: &mut ProjectState) -> (r: Result<
    Option<ActionRecord>,
    UndoError,
>)
    ensures
        r is Err <==> redo_check(old(project_state)@, old(undo_manager)@) is Some,
        r matches Err(e) ==> Some(e@) == redo_check(old(project_state)@, old(undo_manager)@)
            && final(undo_manager)@ == old(undo_manager)@ && final(project_state)@ == old(project_state)@,
        r matches Ok(o) ==> {
            &&& final(undo_manager)@ == spec_redo(old(undo_manager)@).0
            &&& final(project_state)@ == state_after_redo(old(project_state)@, old(undo_manager)@.redo.last())
            &&& o matches Some(e) && e@ == entry_of(
                old(undo_manager)@.redo.last(),
                false,
                old(undo_manager)@.undo.len() as u64,
            )
        },
{
    let n = undo_manager.undo_count();
    let m = undo_manager.redo_count();
    if m == 0 {
        return Err(empty_stack("Nothing to redo: the redo stack is empty."));
    }
    let top = &undo_manager.redo_stack[m - 1];
    assert(top@ == old(undo_manager)@.redo.last());
    match &top.change {
        Some(ch) => {
            if !open_matches(project_state, &ch.before) {
                return Err(
                    UndoError {
                        kind: String::from_str("undo_apply_failed"),
                        message: String::from_str(
                            "The open project is not the one this action changed; it cannot be redone.",
                        ),
                    },
                );
            }
        },
        None => {},
    }
    let record = match undo_manager.redo() {
        Some(record) => record,
        None => {
            return Err(empty_stack("Nothing to redo: the redo stack is empty."));
        },
    };
    apply_change(project_state, &record.change, false);
    let e = entry_for(&record, false, n as u64);
    let ghost ev = e@;
    let r: Result<Option<ActionRecord>, UndoError> = Ok(Some(e));
    assert(r->Ok_0->Some_0@ == ev);
    r
}

/// The whole history, oldest first, each entry marked undone or not and
/// numbered by its position.
pub fn get_undo_history(undo_manager: &UndoManager) -> (r: Result<Vec<ActionRecord>, UndoError>)
    ensures
        r matches Ok(h) && h@.len() == history(undo_manager@).len() && forall|k: int|
            0 <= k < h@.len() ==> (#[trigger] h@[k])@ == history(undo_manager@)[k],
{
    let ghost hv = history(undo_manager@);
    let undo = &undo_manager.undo_stack;
    let redo = &undo_manager.redo_stack;
    let mut out: Vec<ActionRecord> = Vec::new();
    let mut i: usize = 0;
    while i < undo.len()
        invariant
            i <= undo.len(),
            hv == history(undo_manager@),
            undo == &undo_manager.undo_stack,
            out@.len() == i,
            forall|k: int| 0 <= k < i ==> (#[trigger] out@[k])@ == hv[k],
        decreases undo.len() - i,
    {
        let e = entry_for(&undo[i], false, i as u64);
        assert(e@ == hv[i as int]);
        out.push(e);
        i = i + 1;
    }
    let mut j: usize = redo.len();
    while j > 0
        invariant
            j <= redo.len(),
            hv == history(undo_manager@),
            undo == &undo_manager.undo_stack,
            redo == &undo_manager.redo_stack,
            out@.len() == undo.len() + (redo.len() - j),
            forall|k: int| 0 <= k < out@.len() ==> (#[trigger] out@[k])@ == hv[k],
        decreases j,
    {
        j = j - 1;
        let pos = out.len();
        assert(pos == undo.len() + (redo.len() - 1 - j));
        let e = entry_for(&redo[j], true, pos as u64);
        assert(e@ == hv[pos as int]);
        out.push(e);
    }
    Ok(out)
}

/// The history lists every record of both stacks once, numbered 0, 1, 2,
/// ... in order: first the undo stack, not undone, oldest first; then the
/// undone records, the next one to redo first.
pub proof fn law_history_in_order(v: UndoView)
    requires
        v.undo.len() + v.redo.len() <= u64::MAX,
    ensures
        history(v).len() == v.undo.len() + v.redo.len(),
        forall|k: int| 0 <= k < history(v).len() ==> (#[trigger] history(v)[k]).sequence == k,
        forall|k: int| 0 <= k < history(v).len() ==> ((#[trigger] history(v)[k]).undone <==> k >= v.undo.len()),
        v.redo.len() > 0 ==> history(v)[v.undo.len() as int] == entry_of(v.redo.last(), true, v.undo.len() as u64),
{
}

/// Undoing an action just recorded with the open project `before` it and
/// the open project of `s2` after it puts `before` back, and redoing it then
/// puts the project of `s2` back, with the history as it was after the
/// action. Every editing command records its action this way.
pub proof fn law_undo_then_redo_edit(before: Option<ProjectView>, s2: ProjectStateView, u: UndoView, rec: ActionRecordView)
    requires
        s2.current is Some,
        u.max_history > 0,
    ensures
        ({
            let u2 = spec_push(u, with_change(rec, before, s2.current));
            let s3 = state_after_undo(s2, u2.undo.last());
            let u3 = spec_undo(u2).0;
            let s4 = state_after_redo(s3, u3.redo.last());
            &&& undo_check(s2, u2) is None
            &&& s3.current == before
            &&& redo_check(s3, u3) is None
            &&& s4.current == s2.current
            &&& spec_redo(u3).0 == u2
        }),
{
    let r = with_change(rec, before, s2.current);
    let pushed = u.undo.push(r);
    let kept = keep_newest(pushed, u.max_history);
    if pushed.len() > u.max_history {
        assert(kept.len() == u.max_history);
        assert(kept.last() == pushed.last());
    }
    assert(kept.len() > 0 && kept.last() == r);
    let u2 = spec_push(u, r);
    let u3 = spec_undo(u2).0;
    assert(u3.redo.last() == r);
    assert(u3.undo.push(r) =~= u2.undo);
    assert(u3.redo.drop_last() =~= u2.redo);
}

} // verus!
