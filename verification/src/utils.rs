//! The undo/redo history of editor actions.
//!
//! `UndoManager` keeps two stacks. Recording an action pushes it onto the
//! undo stack and empties the redo stack; undoing moves the top of the undo
//! stack onto the redo stack; redoing moves it back. The undo stack keeps at
//! most `max_history` records: when a new record makes it longer, the oldest
//! records are dropped. A record of an edit keeps the open project as it
//! was before and after the edit, which the undo and redo commands put back.

use vstd::prelude::*;

use crate::deep_copy::{copy_option, DeepCopy};
use crate::json::{Json, JsonValue};
use crate::project::{
    info_of, project_option_view, spec_recent_after_update, Project, ProjectState, ProjectStateView, ProjectView,
};
use vstd::string::StringExecFns;

verus! {

/// The open project just before and just after an action: undoing the
/// action puts `before` back, redoing it puts `after` back.
pub struct ProjectChange {
    pub before: Option<Project>,
    pub after: Option<Project>,
}

pub struct ProjectChangeView {
    pub before: Option<ProjectView>,
    pub after: Option<ProjectView>,
}

impl View for ProjectChange {
    type V = ProjectChangeView;

    open spec fn view(&self) -> ProjectChangeView {
        ProjectChangeView { before: project_option_view(self.before), after: project_option_view(self.after) }
    }
}

impl ProjectChange {
    /// A copy of this change with the same value.
    pub fn copy(&self) -> (r: ProjectChange)
        ensures
            r@ == self@,
    {
        ProjectChange { before: copy_option(&self.before), after: copy_option(&self.after) }
    }
}

/// A record of a user action that can be undone.
///
/// `timestamp` is the moment the action was first performed, in
/// milliseconds since the Unix epoch; it is kept across undo and redo.
/// `data` describes the action; `change`, when present, holds the open
/// project before and after it, which undo and redo put back.
pub struct ActionRecord {
    pub id: u128,
    pub action_type: String,
    pub description: String,
    pub timestamp: i64,
    pub data: JsonValue,
    pub change: Option<ProjectChange>,
}

/// The value of an `ActionRecord`.
pub struct ActionRecordView {
    pub id: u128,
    pub action_type: Seq<char>,
    pub description: Seq<char>,
    pub timestamp: i64,
    pub data: Json,
    pub change: Option<ProjectChangeView>,
}

impl View for ActionRecord {
    type V = ActionRecordView;

    open spec fn view(&self) -> ActionRecordView {
        ActionRecordView {
            id: self.id,
            action_type: self.action_type@,
            description: self.description@,
            timestamp: self.timestamp,
            data: self.data@,
            change: match self.change {
                Some(c) => Some(c@),
                None => None,
            },
        }
    }
}

/// `r` carrying the open project before and after its action.
pub open spec fn with_change(r: ActionRecordView, before: Option<ProjectView>, after: Option<ProjectView>) -> ActionRecordView {
    ActionRecordView { change: Some(ProjectChangeView { before, after }), ..r }
}

impl ActionRecord {
    /// A copy of this record with the same value.
    pub fn copy(&self) -> (r: ActionRecord)
        ensures
            r@ == self@,
    {
        ActionRecord {
            id: self.id,
            action_type: self.action_type.clone(),
            description: self.description.clone(),
            timestamp: self.timestamp,
            data: self.data.copy(),
            change: match &self.change {
                Some(c) => Some(c.copy()),
                None => None,
            },
        }
    }
}

/// The values of a sequence of records.
pub open spec fn records_view(s: Seq<ActionRecord>) -> Seq<ActionRecordView> {
    s.map_values(|r: ActionRecord| r@)
}

/// Copies a list of records, keeping their order and values.
pub fn copy_records(v: &Vec<ActionRecord>) -> (r: Vec<ActionRecord>)
    ensures
        records_view(r@) == records_view(v@),
{
    let mut out: Vec<ActionRecord> = Vec::new();
    let mut i: usize = 0;
    while i < v.len()
        invariant
            i <= v.len(),
            out@.len() == i,
            forall|j: int| 0 <= j < i ==> (#[trigger] out@[j])@ == v@[j]@,
        decreases v.len() - i,
    {
        out.push(v[i].copy());
        i = i + 1;
    }
    assert(records_view(out@) =~= records_view(v@));
    out
}

/// The value of an undo manager: its two stacks (oldest first) and the
/// history limit.
pub struct UndoView {
    pub undo: Seq<ActionRecordView>,
    pub redo: Seq<ActionRecordView>,
    pub max_history: nat,
}

/// The last `max` entries of `s` (all of `s` when it is not longer).
pub open spec fn keep_newest<A>(s: Seq<A>, max: nat) -> Seq<A> {
    if s.len() > max {
        s.subrange(s.len() - max, s.len() as int)
    } else {
        s
    }
}

/// The state after recording `r` in `v`.
pub open spec fn spec_push(v: UndoView, r: ActionRecordView) -> UndoView {
    UndoView {
        undo: keep_newest(v.undo.push(r), v.max_history),
        redo: Seq::empty(),
        max_history: v.max_history,
    }
}

/// The state after an undo in `v`, and the record undone.
pub open spec fn spec_undo(v: UndoView) -> (UndoView, Option<ActionRecordView>) {
    if v.undo.len() == 0 {
        (v, None)
    } else {
        (
            UndoView { undo: v.undo.drop_last(), redo: v.redo.push(v.undo.last()), ..v },
            Some(v.undo.last()),
        )
    }
}

/// The state after a redo in `v`, and the record redone.
pub open spec fn spec_redo(v: UndoView) -> (UndoView, Option<ActionRecordView>) {
    if v.redo.len() == 0 {
        (v, None)
    } else {
        (
            UndoView { undo: v.undo.push(v.redo.last()), redo: v.redo.drop_last(), ..v },
            Some(v.redo.last()),
        )
    }
}

/// The undo/redo manager.
pub struct UndoManager {
    /// Actions that can be undone, most recent last.
    pub undo_stack: Vec<ActionRecord>,
    /// Actions that can be redone, most recently undone last.
    pub redo_stack: Vec<ActionRecord>,
    /// The most records the undo stack keeps after a new record.
    pub max_history: usize,
}

impl View for UndoManager {
    type V = UndoView;

    open spec fn view(&self) -> UndoView {
        UndoView {
            undo: records_view(self.undo_stack@),
            redo: records_view(self.redo_stack@),
            max_history: self.max_history as nat,
        }
    }
}

impl UndoManager {
    /// An empty history with a limit of 100 records.
    pub fn new() -> (m: UndoManager)
        ensures
            m@.undo == Seq::<ActionRecordView>::empty(),
            m@.redo == Seq::<ActionRecordView>::empty(),
            m@.max_history == 100,
    {
        let m = UndoManager { undo_stack: Vec::new(), redo_stack: Vec::new(), max_history: 100 };
        assert(m@.undo =~= Seq::<ActionRecordView>::empty());
        assert(m@.redo =~= Seq::<ActionRecordView>::empty());
        m
    }

    /// Records a new action: the redo stack is emptied, the record goes on
    /// top of the undo stack, and the oldest records are dropped beyond the
    /// history limit.
    pub fn push_action(&mut self, record: ActionRecord)
        ensures
            final(self)@ == spec_push(old(self)@, record@),
    {
        let ghost r = record@;
        self.redo_stack.clear();
        self.undo_stack.push(record);
        let max = self.max_history;
        if self.undo_stack.len() > max {
            let excess = self.undo_stack.len() - max;
            let kept = self.undo_stack.split_off(excess);
            self.undo_stack = kept;
        }
        assert(self@.redo =~= Seq::<ActionRecordView>::empty());
        assert(self@.undo =~= keep_newest(old(self)@.undo.push(r), old(self)@.max_history));
    }

    /// Moves the most recent action from the undo stack to the redo stack and
    /// returns it; `None`, with nothing changed, when there is nothing to undo.
    pub fn undo(&mut self) -> (r: Option<ActionRecord>)
        ensures
            final(self)@ == spec_undo(old(self)@).0,
            r matches Some(rec) ==> spec_undo(old(self)@).1 == Some(rec@),
            r is None <==> spec_undo(old(self)@).1 is None,
    {
        match self.undo_stack.pop() {
            Some(record) => {
                self.redo_stack.push(record.copy());
                assert(self@.redo =~= old(self)@.redo.push(record@));
                assert(self@.undo =~= old(self)@.undo.drop_last());
                Some(record)
            },
            None => None,
        }
    }

    /// Moves the most recently undone action from the redo stack back to the
    /// undo stack and returns it; `None`, with nothing changed, when there is
    /// nothing to redo.
    pub fn redo(&mut self) -> (r: Option<ActionRecord>)
        ensures
            final(self)@ == spec_redo(old(self)@).0,
            r matches Some(rec) ==> spec_redo(old(self)@).1 == Some(rec@),
            r is None <==> spec_redo(old(self)@).1 is None,
    {
        match self.redo_stack.pop() {
            Some(record) => {
                self.undo_stack.push(record.copy());
                assert(self@.undo =~= old(self)@.undo.push(record@));
                assert(self@.redo =~= old(self)@.redo.drop_last());
                Some(record)
            },
            None => None,
        }
    }

    /// Whether there is an action to undo.
    pub fn can_undo(&self) -> (b: bool)
        ensures
            b == (self@.undo.len() > 0),
    {
        !self.undo_stack.is_empty()
    }

    /// Whether there is an action to redo.
    pub fn can_redo(&self) -> (b: bool)
        ensures
            b == (self@.redo.len() > 0),
    {
        !self.redo_stack.is_empty()
    }

    /// The number of actions on the undo stack.
    pub fn undo_count(&self) -> (n: usize)
        ensures
            n == self@.undo.len(),
    {
        self.undo_stack.len()
    }

    /// The number of actions on the redo stack.
    pub fn redo_count(&self) -> (n: usize)
        ensures
            n == self@.redo.len(),
    {
        self.redo_stack.len()
    }

    /// A copy of the undo history, oldest first.
    pub fn get_undo_history(&self) -> (h: Vec<ActionRecord>)
        ensures
            records_view(h@) == self@.undo,
    {
        copy_records(&self.undo_stack)
    }

    /// A copy of the redo history, oldest first.
    pub fn get_redo_history(&self) -> (h: Vec<ActionRecord>)
        ensures
            records_view(h@) == self@.redo,
    {
        copy_records(&self.redo_stack)
    }

    /// Empties both stacks; the history limit is kept.
    pub fn clear(&mut self)
        ensures
            final(self)@.undo == Seq::<ActionRecordView>::empty(),
            final(self)@.redo == Seq::<ActionRecordView>::empty(),
            final(self)@.max_history == old(self)@.max_history,
    {
        self.undo_stack.clear();
        self.redo_stack.clear();
        assert(self@.undo =~= Seq::<ActionRecordView>::empty());
        assert(self@.redo =~= Seq::<ActionRecordView>::empty());
    }

    /// Sets the history limit; the stacks are left as they are until the
    /// next recorded action.
    pub fn set_max_history(&mut self, max: usize)
        ensures
            final(self)@ == (UndoView { max_history: max as nat, ..old(self)@ }),
    {
        self.max_history = max;
    }
}

/// Redo right after an undo puts back exactly what the undo took away: both
/// stacks are as before, and the record redone is the record undone.
pub proof fn law_redo_reverses_undo(v: UndoView)
    requires
        v.undo.len() > 0,
    ensures
        spec_redo(spec_undo(v).0).0 == v,
        spec_redo(spec_undo(v).0).1 == spec_undo(v).1,
{
    assert(spec_undo(v).0.redo.drop_last() =~= v.redo);
    assert(spec_undo(v).0.undo.push(v.undo.last()) =~= v.undo);
}

/// Undo right after a redo puts back exactly what the redo took away.
pub proof fn law_undo_reverses_redo(v: UndoView)
    requires
        v.redo.len() > 0,
    ensures
        spec_undo(spec_redo(v).0).0 == v,
        spec_undo(spec_redo(v).0).1 == spec_redo(v).1,
{
    assert(spec_redo(v).0.undo.drop_last() =~= v.undo);
    assert(spec_redo(v).0.redo.push(v.redo.last()) =~= v.redo);
}

/// Undo and redo move records between the stacks and lose none.
pub proof fn law_undo_redo_keep_records(v: UndoView)
    ensures
        spec_undo(v).0.undo.len() + spec_undo(v).0.redo.len() == v.undo.len() + v.redo.len(),
        spec_redo(v).0.undo.len() + spec_redo(v).0.redo.len() == v.undo.len() + v.redo.len(),
        spec_undo(v).0.max_history == v.max_history,
        spec_redo(v).0.max_history == v.max_history,
{
}

/// After an action is recorded there is nothing to redo, the undo stack
/// holds at most `max_history` records, and undo gives back the new record
/// whenever the limit is not zero.
pub proof fn law_record_then_undo(v: UndoView, r: ActionRecordView)
    ensures
        spec_push(v, r).redo.len() == 0,
        spec_redo(spec_push(v, r)).1 is None,
        spec_push(v, r).undo.len() <= v.max_history,
        v.max_history > 0 ==> spec_undo(spec_push(v, r)).1 == Some(r),
        v.undo.len() < v.max_history ==> spec_push(v, r).undo == v.undo.push(r),
{
}

impl Default for UndoManager {
    fn default() -> (m: UndoManager)
        ensures
            m@.undo == Seq::<ActionRecordView>::empty(),
            m@.redo == Seq::<ActionRecordView>::empty(),
            m@.max_history == 100,
    {
        UndoManager::new()
    }
}

/// A keyboard shortcut binding for an editor action.
///
/// `modifiers` uses the identifiers "ctrl", "alt", "shift" and "super".
pub struct ShortcutDefinition {
    pub action: String,
    pub key: String,
    pub modifiers: Vec<String>,
    pub description: String,
}

/// The value of a `ShortcutDefinition`.
pub struct ShortcutView {
    pub action: Seq<char>,
    pub key: Seq<char>,
    pub modifiers: Seq<Seq<char>>,
    pub description: Seq<char>,
}

/// The values of a list of strings.
pub open spec fn strings_view(v: Seq<String>) -> Seq<Seq<char>> {
    v.map_values(|s: String| s@)
}

impl View for ShortcutDefinition {
    type V = ShortcutView;

    open spec fn view(&self) -> ShortcutView {
        ShortcutView {
            action: self.action@,
            key: self.key@,
            modifiers: strings_view(self.modifiers@),
            description: self.description@,
        }
    }
}

pub open spec fn shortcut_view(
    action: Seq<char>,
    key: Seq<char>,
    modifiers: Seq<Seq<char>>,
    description: Seq<char>,
) -> ShortcutView {
    ShortcutView { action, key, modifiers, description }
}

/// The values of a list of shortcut definitions.
pub open spec fn shortcuts_view(v: Seq<ShortcutDefinition>) -> Seq<ShortcutView> {
    v.map_values(|s: ShortcutDefinition| s@)
}

/// The default binding at position `i` of the list (the last one past its end).
pub open spec fn default_shortcut_at(i: int) -> ShortcutView {
    if i == 0 {
        shortcut_view("undo"@, "z"@, seq!["ctrl"@], "Undo the last action"@)
    } else if i == 1 {
        shortcut_view("redo"@, "z"@, seq!["ctrl"@, "shift"@], "Redo the last undone action"@)
    } else if i == 2 {
        shortcut_view("play_pause"@, "Space"@, seq![], "Toggle play/pause on the timeline"@)
    } else if i == 3 {
        shortcut_view("stop"@, "Escape"@, seq![], "Stop playback and return to start"@)
    } else if i == 4 {
        shortcut_view("seek_start"@, "Home"@, seq![], "Seek to the beginning of the timeline"@)
    } else if i == 5 {
        shortcut_view("seek_end"@, "End"@, seq![], "Seek to the end of the timeline"@)
    } else if i == 6 {
        shortcut_view("step_forward"@, "ArrowRight"@, seq![], "Step forward one frame"@)
    } else if i == 7 {
        shortcut_view("step_backward"@, "ArrowLeft"@, seq![], "Step backward one frame"@)
    } else if i == 8 {
        shortcut_view("split_clip"@, "s"@, seq![], "Split the clip at the cursor position"@)
    } else if i == 9 {
        shortcut_view("delete_clip"@, "Delete"@, seq![], "Delete the selected clip"@)
    } else if i == 10 {
        shortcut_view("ripple_delete"@, "Delete"@, seq!["shift"@], "Delete clip and close the gap (ripple delete)"@)
    } else if i == 11 {
        shortcut_view("duplicate_clip"@, "d"@, seq!["ctrl"@], "Duplicate the selected clip"@)
    } else if i == 12 {
        shortcut_view("copy"@, "c"@, seq!["ctrl"@], "Copy the selected clip(s) to clipboard"@)
    } else if i == 13 {
        shortcut_view("paste"@, "v"@, seq!["ctrl"@], "Paste clipboard content at cursor position"@)
    } else if i == 14 {
        shortcut_view("cut"@, "x"@, seq!["ctrl"@], "Cut the selected clip(s) to clipboard"@)
    } else if i == 15 {
        shortcut_view("add_track"@, "t"@, seq!["ctrl"@], "Add a new track to the timeline"@)
    } else if i == 16 {
        shortcut_view("lock_track"@, "l"@, seq!["ctrl"@, "shift"@], "Lock/unlock the selected track"@)
    } else if i == 17 {
        shortcut_view("mute_track"@, "m"@, seq!["ctrl"@, "shift"@], "Mute/unmute the selected audio track"@)
    } else if i == 18 {
        shortcut_view("zoom_in"@, "+"@, seq![], "Zoom in on the timeline"@)
    } else if i == 19 {
        shortcut_view("zoom_out"@, "-"@, seq![], "Zoom out on the timeline"@)
    } else if i == 20 {
        shortcut_view("zoom_fit"@, "0"@, seq!["ctrl"@], "Zoom to fit the entire timeline"@)
    } else if i == 21 {
        shortcut_view("add_marker"@, "m"@, seq![], "Add a marker at the current cursor position"@)
    } else if i == 22 {
        shortcut_view("export"@, "e"@, seq!["ctrl"@], "Open the export dialog"@)
    } else if i == 23 {
        shortcut_view("save_project"@, "s"@, seq!["ctrl"@], "Save the current project"@)
    } else if i == 24 {
        shortcut_view("save_project_as"@, "s"@, seq!["ctrl"@, "shift"@], "Save the project to a new file"@)
    } else if i == 25 {
        shortcut_view("select_all"@, "a"@, seq!["ctrl"@], "Select all clips on the timeline"@)
    } else {
        shortcut_view("select_none"@, "Escape"@, seq!["shift"@], "Clear the current selection"@)
    }
}

/// The default shortcut bindings, in the order in which they are listed.
pub open spec fn spec_default_shortcuts() -> Seq<ShortcutView> {
    Seq::new(27, |i: int| default_shortcut_at(i))
}

fn modifier_list0() -> (v: Vec<String>)
    ensures
        strings_view(v@) == Seq::<Seq<char>>::empty(),
{
    let v: Vec<String> = Vec::new();
    assert(strings_view(v@) =~= Seq::<Seq<char>>::empty());
    v
}

fn modifier_list1(a: &str) -> (v: Vec<String>)
    ensures
        strings_view(v@) == seq![a@],
{
    let mut v: Vec<String> = Vec::new();
    v.push(String::from_str(a));
    assert(strings_view(v@) =~= seq![a@]);
    v
}

fn modifier_list2(a: &str, b: &str) -> (v: Vec<String>)
    ensures
        strings_view(v@) == seq![a@, b@],
{
    let mut v: Vec<String> = Vec::new();
    v.push(String::from_str(a));
    v.push(String::from_str(b));
    assert(strings_view(v@) =~= seq![a@, b@]);
    v
}

fn shortcut(action: &str, key: &str, modifiers: Vec<String>, description: &str) -> (s:
    ShortcutDefinition)
    ensures
        s@ == shortcut_view(action@, key@, strings_view(modifiers@), description@),
{
    ShortcutDefinition {
        action: String::from_str(action),
        key: String::from_str(key),
        modifiers,
        description: String::from_str(description),
    }
}

/// The default keyboard shortcuts of the editor.
pub fn default_shortcuts() -> (v: Vec<ShortcutDefinition>)
    ensures
        shortcuts_view(v@) == spec_default_shortcuts(),
{
    let mut v: Vec<ShortcutDefinition> = Vec::new();
    v.push(shortcut("undo", "z", modifier_list1("ctrl"), "Undo the last action"));
    v.push(shortcut("redo", "z", modifier_list2("ctrl", "shift"), "Redo the last undone action"));
    v.push(shortcut("play_pause", "Space", modifier_list0(), "Toggle play/pause on the timeline"));
    v.push(shortcut("stop", "Escape", modifier_list0(), "Stop playback and return to start"));
    v.push(shortcut("seek_start", "Home", modifier_list0(), "Seek to the beginning of the timeline"));
    v.push(shortcut("seek_end", "End", modifier_list0(), "Seek to the end of the timeline"));
    v.push(shortcut("step_forward", "ArrowRight", modifier_list0(), "Step forward one frame"));
    v.push(shortcut("step_backward", "ArrowLeft", modifier_list0(), "Step backward one frame"));
    v.push(shortcut("split_clip", "s", modifier_list0(), "Split the clip at the cursor position"));
    v.push(shortcut("delete_clip", "Delete", modifier_list0(), "Delete the selected clip"));
    v.push(shortcut("ripple_delete", "Delete", modifier_list1("shift"), "Delete clip and close the gap (ripple delete)"));
    v.push(shortcut("duplicate_clip", "d", modifier_list1("ctrl"), "Duplicate the selected clip"));
    v.push(shortcut("copy", "c", modifier_list1("ctrl"), "Copy the selected clip(s) to clipboard"));
    v.push(shortcut("paste", "v", modifier_list1("ctrl"), "Paste clipboard content at cursor position"));
    v.push(shortcut("cut", "x", modifier_list1("ctrl"), "Cut the selected clip(s) to clipboard"));
    v.push(shortcut("add_track", "t", modifier_list1("ctrl"), "Add a new track to the timeline"));
    v.push(shortcut("lock_track", "l", modifier_list2("ctrl", "shift"), "Lock/unlock the selected track"));
    v.push(shortcut("mute_track", "m", modifier_list2("ctrl", "shift"), "Mute/unmute the selected audio track"));
    v.push(shortcut("zoom_in", "+", modifier_list0(), "Zoom in on the timeline"));
    v.push(shortcut("zoom_out", "-", modifier_list0(), "Zoom out on the timeline"));
    v.push(shortcut("zoom_fit", "0", modifier_list1("ctrl"), "Zoom to fit the entire timeline"));
    v.push(shortcut("add_marker", "m", modifier_list0(), "Add a marker at the current cursor position"));
    v.push(shortcut("export", "e", modifier_list1("ctrl"), "Open the export dialog"));
    v.push(shortcut("save_project", "s", modifier_list1("ctrl"), "Save the current project"));
    v.push(shortcut("save_project_as", "s", modifier_list2("ctrl", "shift"), "Save the project to a new file"));
    v.push(shortcut("select_all", "a", modifier_list1("ctrl"), "Select all clips on the timeline"));
    v.push(shortcut("select_none", "Escape", modifier_list1("shift"), "Clear the current selection"));
    assert(shortcuts_view(v@) =~= spec_default_shortcuts());
    v
}

/// Makes `project` the open project in place of the one it was edited
/// from, and records `record` for the edit with the open project before and
/// after it, so that undo and redo can put either back.
pub fn record_edit(
    project_state: &mut ProjectState,
    undo_manager: &mut UndoManager,
    record: ActionRecord,
    project: Project,
)
    requires
        old(project_state)@.current is Some,
    ensures
        final(project_state)@ == (ProjectStateView {
            current: Some(project@),
            recent: spec_recent_after_update(old(project_state)@.recent, info_of(project@)),
        }),
        final(undo_manager)@ == spec_push(
            old(undo_manager)@,
            with_change(record@, old(project_state)@.current, Some(project@)),
        ),
{
    let before = project_state.get_current_project();
    let after = project.deep_copy();
    let mut record = record;
    record.change = Some(ProjectChange { before, after: Some(after) });
    undo_manager.push_action(record);
    project_state.update_project(project);
}

/// Whether two bindings differ in key or modifiers.
pub open spec fn bindings_differ(a: ShortcutView, b: ShortcutView) -> bool {
    a.key != b.key || a.modifiers != b.modifiers
}

/// No two default bindings share a key and modifiers.
pub proof fn law_default_bindings_distinct()
    ensures
        forall|i: int, j: int|
            0 <= i < j < spec_default_shortcuts().len() ==> bindings_differ(
                #[trigger] spec_default_shortcuts()[i],
                #[trigger] spec_default_shortcuts()[j],
            ),
{
    reveal_strlit("z");
    reveal_strlit("Space");
    reveal_strlit("Escape");
    reveal_strlit("Home");
    reveal_strlit("End");
    reveal_strlit("ArrowRight");
    reveal_strlit("ArrowLeft");
    reveal_strlit("s");
    reveal_strlit("Delete");
    reveal_strlit("d");
    reveal_strlit("c");
    reveal_strlit("v");
    reveal_strlit("x");
    reveal_strlit("t");
    reveal_strlit("l");
    reveal_strlit("m");
    reveal_strlit("+");
    reveal_strlit("-");
    reveal_strlit("0");
    reveal_strlit("e");
    reveal_strlit("a");
    reveal_strlit("ctrl");
    reveal_strlit("shift");
    let d = spec_default_shortcuts();
    assert forall|i: int, j: int| 0 <= i < j < d.len() implies bindings_differ(#[trigger] d[i], #[trigger] d[j]) by {
        let a = default_shortcut_at(i);
        let b = default_shortcut_at(j);
        assert(d[i] == a && d[j] == b);
        if a.key == b.key && a.modifiers == b.modifiers {
            assert(a.key.len() == b.key.len());
            assert(a.key[0] == b.key[0]);
            assert(a.modifiers.len() == b.modifiers.len());
        }
    }
}


/// Whether `list` binds `action` to `key` with `modifiers`.
pub open spec fn binds(list: Seq<ShortcutView>, action: Seq<char>, key: Seq<char>, modifiers: Seq<Seq<char>>) -> bool {
    exists|i: int| 0 <= i < list.len() && (#[trigger] list[i]).action == action && list[i].key == key && list[i].modifiers == modifiers
}

/// The default bindings are those of the editor's documented shortcut
/// table: Ctrl+S saves, Ctrl+E exports, Ctrl+Z undoes, Ctrl+Shift+Z redoes,
/// Space plays or pauses, S splits at the playhead, Delete deletes the
/// selected clip, + and - zoom, the arrow keys step a frame, Ctrl+A selects
/// all, and Ctrl+X, Ctrl+C and Ctrl+V cut, copy and paste.
pub proof fn law_defaults_follow_documented_table()
    ensures
        binds(spec_default_shortcuts(), "save_project"@, "s"@, seq!["ctrl"@]),
        binds(spec_default_shortcuts(), "export"@, "e"@, seq!["ctrl"@]),
        binds(spec_default_shortcuts(), "undo"@, "z"@, seq!["ctrl"@]),
        binds(spec_default_shortcuts(), "redo"@, "z"@, seq!["ctrl"@, "shift"@]),
        binds(spec_default_shortcuts(), "play_pause"@, "Space"@, seq![]),
        binds(spec_default_shortcuts(), "split_clip"@, "s"@, seq![]),
        binds(spec_default_shortcuts(), "delete_clip"@, "Delete"@, seq![]),
        binds(spec_default_shortcuts(), "zoom_in"@, "+"@, seq![]),
        binds(spec_default_shortcuts(), "zoom_out"@, "-"@, seq![]),
        binds(spec_default_shortcuts(), "step_backward"@, "ArrowLeft"@, seq![]),
        binds(spec_default_shortcuts(), "step_forward"@, "ArrowRight"@, seq![]),
        binds(spec_default_shortcuts(), "select_all"@, "a"@, seq!["ctrl"@]),
        binds(spec_default_shortcuts(), "cut"@, "x"@, seq!["ctrl"@]),
        binds(spec_default_shortcuts(), "copy"@, "c"@, seq!["ctrl"@]),
        binds(spec_default_shortcuts(), "paste"@, "v"@, seq!["ctrl"@]),
{
    let d = spec_default_shortcuts();
    assert(d[23] == default_shortcut_at(23));
    assert(d[22] == default_shortcut_at(22));
    assert(d[0] == default_shortcut_at(0));
    assert(d[1] == default_shortcut_at(1));
    assert(d[2] == default_shortcut_at(2));
    assert(d[8] == default_shortcut_at(8));
    assert(d[9] == default_shortcut_at(9));
    assert(d[18] == default_shortcut_at(18));
    assert(d[19] == default_shortcut_at(19));
    assert(d[7] == default_shortcut_at(7));
    assert(d[6] == default_shortcut_at(6));
    assert(d[25] == default_shortcut_at(25));
    assert(d[14] == default_shortcut_at(14));
    assert(d[12] == default_shortcut_at(12));
    assert(d[13] == default_shortcut_at(13));
}

} // verus!
