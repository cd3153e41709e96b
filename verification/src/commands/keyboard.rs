//! Keyboard shortcut commands: list the bindings in force and rebind an
//! action in the open project.

use vstd::prelude::*;

use crate::commands::timeline::state_after;
use crate::deep_copy::{copy_vec, views};
use crate::project::{ProjectSettingsView, ProjectState, ProjectStateView, ProjectView, ShortcutOverride, ShortcutOverrideView};
use crate::search::{any, first, is_first, lemma_exists_first, lemma_first};
use crate::text::{blank, cat, cat3, is_blank};
use crate::utils::{
    default_shortcut_at, default_shortcuts, law_default_bindings_distinct, spec_default_shortcuts, strings_view,
    ShortcutView,
};
use vstd::string::StringExecFns;

verus! {

/// A shortcut as the settings panel shows it.
pub struct ShortcutDefinition {
    pub action: String,
    pub key: String,
    pub modifiers: Vec<String>,
    pub description: String,
    /// Where the shortcut applies; "global" for all of them.
    pub context: String,
    pub customizable: bool,
    pub default_key: String,
    pub default_modifiers: Vec<String>,
}

pub struct ShortcutDefinitionView {
    pub action: Seq<char>,
    pub key: Seq<char>,
    pub modifiers: Seq<Seq<char>>,
    pub description: Seq<char>,
    pub context: Seq<char>,
    pub customizable: bool,
    pub default_key: Seq<char>,
    pub default_modifiers: Seq<Seq<char>>,
}

impl View for ShortcutDefinition {
    type V = ShortcutDefinitionView;

    open spec fn view(&self) -> ShortcutDefinitionView {
        ShortcutDefinitionView {
            action: self.action@,
            key: self.key@,
            modifiers: strings_view(self.modifiers@),
            description: self.description@,
            context: self.context@,
            customizable: self.customizable,
            default_key: self.default_key@,
            default_modifiers: strings_view(self.default_modifiers@),
        }
    }
}

/// Why a shortcut command failed: a category and a message.
pub struct ShortcutError {
    pub kind: String,
    pub message: String,
}

pub struct ShortcutErrorView {
    pub kind: Seq<char>,
    pub message: Seq<char>,
}

impl View for ShortcutError {
    type V = ShortcutErrorView;

    open spec fn view(&self) -> ShortcutErrorView {
        ShortcutErrorView { kind: self.kind@, message: self.message@ }
    }
}

pub open spec fn shortcut_error(kind: Seq<char>, message: Seq<char>) -> ShortcutErrorView {
    ShortcutErrorView { kind, message }
}

fn error_of(kind: &str, message: String) -> (e: ShortcutError)
    ensures
        e@ == shortcut_error(kind@, message@),
{
    ShortcutError { kind: String::from_str(kind), message }
}

pub open spec fn overrides_action(action: Seq<char>) -> spec_fn(ShortcutOverrideView) -> bool {
    |o: ShortcutOverrideView| o.action == action
}

/// The user's bindings in the open project; none when no project is open.
pub open spec fn current_overrides(s: ProjectStateView) -> Seq<ShortcutOverrideView> {
    match s.current {
        Some(p) => p.settings.shortcut_overrides,
        None => Seq::empty(),
    }
}

/// The binding in force for the default `d`: the user's own where one was
/// set for its action, else the default.
pub open spec fn in_force(d: ShortcutView, ov: Seq<ShortcutOverrideView>) -> ShortcutView {
    if any(ov, overrides_action(d.action)) {
        let o = ov[first(ov, overrides_action(d.action))];
        ShortcutView { key: o.key, modifiers: o.modifiers, ..d }
    } else {
        d
    }
}

/// The bindings in force, one per default binding, in the same order.
pub open spec fn bindings_in_force(ov: Seq<ShortcutOverrideView>) -> Seq<ShortcutView> {
    spec_default_shortcuts().map_values(|d: ShortcutView| in_force(d, ov))
}

/// A binding as the settings panel lists it: global, customizable, with the
/// key and modifiers in force and the default ones beside them.
pub open spec fn listed_shortcut(s: ShortcutView, ov: Seq<ShortcutOverrideView>) -> ShortcutDefinitionView {
    let b = in_force(s, ov);
    ShortcutDefinitionView {
        action: s.action,
        key: b.key,
        modifiers: b.modifiers,
        description: s.description,
        context: "global"@,
        customizable: true,
        default_key: s.key,
        default_modifiers: s.modifiers,
    }
}

fn copy_strings(v: &Vec<String>) -> (r: Vec<String>)
    ensures
        strings_view(r@) == strings_view(v@),
        views(r@) == strings_view(v@),
{
    let r = copy_vec(v);
    assert(strings_view(r@) =~= views(r@));
    assert(strings_view(v@) =~= views(v@));
    r
}

fn find_override(ov: &Vec<ShortcutOverride>, action: &String) -> (r: Option<usize>)
    ensures
        r matches Some(i) ==> is_first(views(ov@), overrides_action(action@), i as int),
        r is None ==> !any(views(ov@), overrides_action(action@)),
{
    let mut i: usize = 0;
    while i < ov.len()
        invariant
            i <= ov.len(),
            forall|j: int| 0 <= j < i ==> !overrides_action(action@)(#[trigger] views(ov@)[j]),
        decreases ov.len() - i,
    {
        if ov[i].action.eq(action) {
            return Some(i);
        }
        i = i + 1;
    }
    None
}

/// The user's bindings in the open project, copied.
fn overrides_in(project_state: &ProjectState) -> (r: Vec<ShortcutOverride>)
    ensures
        views(r@) == current_overrides(project_state@),
{
    match &project_state.current_project {
        Some(p) => copy_vec(&p.settings.shortcut_overrides),
        None => {
            let v: Vec<ShortcutOverride> = Vec::new();
            assert(views(v@) =~= Seq::<ShortcutOverrideView>::empty());
            v
        },
    }
}

/// The key and modifiers in force for the default `d`.
fn binding_in_force(d: &crate::utils::ShortcutDefinition, ov: &Vec<ShortcutOverride>) -> (r: (String, Vec<String>))
    ensures
        r.0@ == in_force(d@, views(ov@)).key,
        strings_view(r.1@) == in_force(d@, views(ov@)).modifiers,
{
    match find_override(ov, &d.action) {
        Some(i) => {
            proof {
                lemma_first(views(ov@), overrides_action(d@.action), i as int);
            }
            let o = &ov[i];
            assert(views(ov@)[i as int] == o@);
            (o.key.clone(), copy_strings(&o.modifiers))
        },
        None => (d.key.clone(), copy_strings(&d.modifiers)),
    }
}

/// The shortcut bindings: one per default binding, in the same order, each
/// global and customizable, with the key and modifiers in force in the open
/// project (the user's own where one was set) and the default ones beside
/// them. With no project open the defaults are in force.
pub fn get_shortcuts(project_state: &ProjectState) -> (r: Result<Vec<ShortcutDefinition>, ShortcutError>)
    ensures
        r matches Ok(v) && v@.len() == spec_default_shortcuts().len() && forall|i: int|
            0 <= i < v@.len() ==> (#[trigger] v@[i])@ == listed_shortcut(
                spec_default_shortcuts()[i],
                current_overrides(project_state@),
            ),
{
    let defaults = default_shortcuts();
    let overrides = overrides_in(project_state);
    let ghost ov = views(overrides@);
    let ghost d = crate::utils::shortcuts_view(defaults@);
    let mut out: Vec<ShortcutDefinition> = Vec::new();
    let mut i: usize = 0;
    while i < defaults.len()
        invariant
            i <= defaults.len(),
            d == crate::utils::shortcuts_view(defaults@),
            d == spec_default_shortcuts(),
            ov == views(overrides@),
            ov == current_overrides(project_state@),
            out@.len() == i,
            forall|j: int| 0 <= j < i ==> (#[trigger] out@[j])@ == listed_shortcut(d[j], ov),
        decreases defaults.len() - i,
    {
        let s = &defaults[i];
        let (key, modifiers) = binding_in_force(s, &overrides);
        let item = ShortcutDefinition {
            action: s.action.clone(),
            key,
            modifiers,
            description: s.description.clone(),
            context: String::from_str("global"),
            customizable: true,
            default_key: s.key.clone(),
            default_modifiers: copy_strings(&s.modifiers),
        };
        assert(d[i as int] == s@);
        assert(item@ == listed_shortcut(d[i as int], ov));
        out.push(item);
        i = i + 1;
    }
    Ok(out)
}

/// Whether `m` names a modifier key.
pub open spec fn valid_modifier(m: Seq<char>) -> bool {
    m == "ctrl"@ || m == "alt"@ || m == "shift"@ || m == "meta"@
}

pub open spec fn invalid_modifier() -> spec_fn(Seq<char>) -> bool {
    |m: Seq<char>| !valid_modifier(m)
}

/// The texts of `parts` with `sep` between each two.
pub open spec fn joined(parts: Seq<Seq<char>>, sep: Seq<char>) -> Seq<char>
    decreases parts.len(),
{
    if parts.len() == 0 {
        Seq::empty()
    } else if parts.len() == 1 {
        parts[0]
    } else {
        joined(parts.drop_last(), sep) + sep + parts.last()
    }
}

pub open spec fn binds_action(action: Seq<char>) -> spec_fn(ShortcutView) -> bool {
    |s: ShortcutView| s.action == action
}

/// Whether `s` binds `key` with `modifiers` to an action other than `action`.
pub open spec fn conflicts(action: Seq<char>, key: Seq<char>, modifiers: Seq<Seq<char>>) -> spec_fn(
    ShortcutView,
) -> bool {
    |s: ShortcutView| s.key == key && s.modifiers == modifiers && s.action != action
}

/// Why binding `key` with `modifiers` to `action` in the state `s` is
/// refused, if it is. A binding conflicts when another action has it in
/// force in the open project.
pub open spec fn set_shortcut_check(
    action: Seq<char>,
    key: Seq<char>,
    modifiers: Seq<Seq<char>>,
    s: ProjectStateView,
) -> Option<ShortcutErrorView> {
    let defaults = spec_default_shortcuts();
    let bindings = bindings_in_force(current_overrides(s));
    if blank(action) {
        Some(shortcut_error("validation"@, "Action identifier must not be empty."@))
    } else if blank(key) {
        Some(shortcut_error("validation"@, "Key must not be empty."@))
    } else if any(modifiers, invalid_modifier()) {
        Some(
            shortcut_error(
                "validation"@,
                "Invalid modifier '"@ + modifiers[first(modifiers, invalid_modifier())]
                    + "'. Valid modifiers are: ctrl, alt, shift, meta."@,
            ),
        )
    } else if s.current is None {
        Some(shortcut_error("no_active_project"@, "No active project. Shortcuts are managed per-project."@))
    } else if !any(defaults, binds_action(action)) {
        Some(shortcut_error("action_not_found"@, "Action '"@ + action + "' not found in shortcut definitions."@))
    } else if any(bindings, conflicts(action, key, modifiers)) {
        Some(
            shortcut_error(
                "conflict"@,
                "Key '"@ + key + "' with modifiers ["@ + joined(modifiers, "+"@) + "] conflicts with action '"@
                    + bindings[first(bindings, conflicts(action, key, modifiers))].action
                    + "'. Resolve the conflict before applying."@,
            ),
        )
    } else {
        None
    }
}

/// `ov` with `action` bound to `key` and `modifiers`: its override replaced
/// where it has one, else a new one added at the end.
pub open spec fn overrides_after_set(
    ov: Seq<ShortcutOverrideView>,
    action: Seq<char>,
    key: Seq<char>,
    modifiers: Seq<Seq<char>>,
) -> Seq<ShortcutOverrideView> {
    let o = ShortcutOverrideView { action, key, modifiers };
    if any(ov, overrides_action(action)) {
        ov.update(first(ov, overrides_action(action)), o)
    } else {
        ov.push(o)
    }
}

/// `p` with `action` bound to `key` and `modifiers` in its settings.
pub open spec fn project_after_set(
    p: ProjectView,
    action: Seq<char>,
    key: Seq<char>,
    modifiers: Seq<Seq<char>>,
) -> ProjectView {
    ProjectView {
        settings: ProjectSettingsView {
            shortcut_overrides: overrides_after_set(p.settings.shortcut_overrides, action, key, modifiers),
            ..p.settings
        },
        ..p
    }
}

fn is_valid_modifier(m: &String) -> (b: bool)
    ensures
        b == valid_modifier(m@),
{
    m.eq(&String::from_str("ctrl")) || m.eq(&String::from_str("alt")) || m.eq(&String::from_str("shift"))
        || m.eq(&String::from_str("meta"))
}

fn same_strings(a: &Vec<String>, b: &Vec<String>) -> (r: bool)
    ensures
        r == (strings_view(a@) == strings_view(b@)),
{
    if a.len() != b.len() {
        assert(strings_view(a@).len() != strings_view(b@).len());
        return false;
    }
    let mut i: usize = 0;
    while i < a.len()
        invariant
            i <= a.len(),
            a.len() == b.len(),
            forall|j: int| 0 <= j < i ==> (#[trigger] strings_view(a@)[j]) == strings_view(b@)[j],
        decreases a.len() - i,
    {
        if !a[i].eq(&b[i]) {
            assert(strings_view(a@)[i as int] != strings_view(b@)[i as int]);
            return false;
        }
        i = i + 1;
    }
    assert(strings_view(a@) =~= strings_view(b@));
    true
}

fn join_with_plus(parts: &Vec<String>) -> (r: String)
    ensures
        r@ == joined(strings_view(parts@), "+"@),
{
    let ghost pv = strings_view(parts@);
    let mut out = String::new();
    let mut i: usize = 0;
    while i < parts.len()
        invariant
            i <= parts.len(),
            pv == strings_view(parts@),
            out@ == joined(pv.take(i as int), "+"@),
        decreases parts.len() - i,
    {
        assert(pv.take(i + 1).drop_last() =~= pv.take(i as int));
        if i == 0 {
            out = parts[i].clone();
            assert(pv.take(1) =~= seq![pv[0]]);
        } else {
            out = cat3(out.as_str(), "+", parts[i].as_str());
        }
        i = i + 1;
    }
    assert(pv.take(i as int) =~= pv);
    out
}

/// Binds `action` to `key` with `modifiers` in the open project: the
/// modifiers must be among ctrl, alt, shift and meta, a project must be
/// open, the action must have a default binding, and no other action may
/// have the same key and modifiers in force. The binding is stored in the
/// project's settings, in place of the action's earlier one if it had one.
pub fn set_shortcut(action: String, key: String, modifiers: Vec<String>, project_state: &mut ProjectState) -> (r:
    Result<bool, ShortcutError>)
    ensures
        r is Ok <==> set_shortcut_check(action@, key@, strings_view(modifiers@), old(project_state)@) is None,
        r matches Err(e) ==> Some(e@) == set_shortcut_check(
            action@,
            key@,
            strings_view(modifiers@),
            old(project_state)@,
        ) && final(project_state)@ == old(project_state)@,
        r matches Ok(b) ==> b && final(project_state)@ == state_after(
            old(project_state)@,
            project_after_set(old(project_state)@.current->0, action@, key@, strings_view(modifiers@)),
        ),
{
    let ghost mv = strings_view(modifiers@);
    if is_blank(action.as_str()) {
        return Err(error_of("validation", String::from_str("Action identifier must not be empty.")));
    }
    if is_blank(key.as_str()) {
        return Err(error_of("validation", String::from_str("Key must not be empty.")));
    }
    let mut i: usize = 0;
    while i < modifiers.len()
        invariant
            i <= modifiers.len(),
            mv == strings_view(modifiers@),
            !blank(action@),
            !blank(key@),
            forall|j: int| 0 <= j < i ==> !invalid_modifier()(#[trigger] mv[j]),
        decreases modifiers.len() - i,
    {
        if !is_valid_modifier(&modifiers[i]) {
            assert(mv[i as int] == modifiers@[i as int]@);
            proof {
                lemma_first(mv, invalid_modifier(), i as int);
            }
            return Err(
                error_of(
                    "validation",
                    cat3(
                        "Invalid modifier '",
                        modifiers[i].as_str(),
                        "'. Valid modifiers are: ctrl, alt, shift, meta.",
                    ),
                ),
            );
        }
        i = i + 1;
    }
    let mut project = match project_state.get_current_project() {
        Some(p) => p,
        None => {
            return Err(
                error_of(
                    "no_active_project",
                    String::from_str("No active project. Shortcuts are managed per-project."),
                ),
            );
        },
    };
    let ghost p0 = project@;
    let defaults = default_shortcuts();
    let ghost d = crate::utils::shortcuts_view(defaults@);
    let mut k: usize = 0;
    let mut found = false;
    while k < defaults.len()
        invariant
            k <= defaults.len(),
            d == crate::utils::shortcuts_view(defaults@),
            d == spec_default_shortcuts(),
            found <==> exists|j: int| 0 <= j < k && binds_action(action@)(#[trigger] d[j]),
        decreases defaults.len() - k,
    {
        if defaults[k].action.eq(&action) {
            assert(binds_action(action@)(d[k as int]));
            found = true;
        }
        k = k + 1;
    }
    if !found {
        return Err(
            error_of("action_not_found", cat3("Action '", action.as_str(), "' not found in shortcut definitions.")),
        );
    }
    let ghost ov = p0.settings.shortcut_overrides;
    let ghost bindings = bindings_in_force(ov);
    let mut c: usize = 0;
    while c < defaults.len()
        invariant
            c <= defaults.len(),
            d == crate::utils::shortcuts_view(defaults@),
            d == spec_default_shortcuts(),
            mv == strings_view(modifiers@),
            p0 == project@,
            ov == p0.settings.shortcut_overrides,
            bindings == bindings_in_force(ov),
            old(project_state)@.current == Some(p0),
            !blank(action@),
            !blank(key@),
            !any(mv, invalid_modifier()),
            any(d, binds_action(action@)),
            forall|j: int| 0 <= j < c ==> !conflicts(action@, key@, mv)(#[trigger] bindings[j]),
        decreases defaults.len() - c,
    {
        let s = &defaults[c];
        assert(d[c as int] == s@);
        let (bkey, bmods) = binding_in_force(s, &project.settings.shortcut_overrides);
        assert(bindings[c as int] == in_force(d[c as int], ov));
        if bkey.eq(&key) && same_strings(&bmods, &modifiers) && !s.action.eq(&action) {
            proof {
                lemma_first(bindings, conflicts(action@, key@, mv), c as int);
            }
            let joined_mods = join_with_plus(&modifiers);
            let message = cat(
                cat3("Key '", key.as_str(), "' with modifiers [").as_str(),
                cat(
                    cat3(joined_mods.as_str(), "] conflicts with action '", s.action.as_str()).as_str(),
                    "'. Resolve the conflict before applying.",
                ).as_str(),
            );
            assert(message@ =~= "Key '"@ + key@ + "' with modifiers ["@ + joined(mv, "+"@)
                + "] conflicts with action '"@ + bindings[c as int].action
                + "'. Resolve the conflict before applying."@);
            return Err(error_of("conflict", message));
        }
        c = c + 1;
    }
    let new_binding = ShortcutOverride { action: action.clone(), key: key.clone(), modifiers: copy_strings(&modifiers) };
    assert(new_binding@ == (ShortcutOverrideView { action: action@, key: key@, modifiers: mv }));
    match find_override(&project.settings.shortcut_overrides, &action) {
        Some(j) => {
            proof {
                lemma_first(ov, overrides_action(action@), j as int);
            }
            project.settings.shortcut_overrides.set(j, new_binding);
        },
        None => {
            project.settings.shortcut_overrides.push(new_binding);
        },
    }
    assert(views(project.settings.shortcut_overrides@) =~= overrides_after_set(ov, action@, key@, mv));
    assert(project@ == project_after_set(p0, action@, key@, mv));
    project_state.update_project(project);
    Ok(true)
}

/// Binding `action` to `key` and `modifiers` puts that binding in force for
/// it, and leaves the binding in force of every other action as it was.
pub proof fn law_set_binding_in_force(
    ov: Seq<ShortcutOverrideView>,
    action: Seq<char>,
    key: Seq<char>,
    modifiers: Seq<Seq<char>>,
    d: ShortcutView,
)
    ensures
        d.action == action ==> in_force(d, overrides_after_set(ov, action, key, modifiers)) == (ShortcutView {
            key,
            modifiers,
            ..d
        }),
        d.action != action ==> in_force(d, overrides_after_set(ov, action, key, modifiers)) == in_force(d, ov),
{
    let o = ShortcutOverrideView { action, key, modifiers };
    let ov2 = overrides_after_set(ov, action, key, modifiers);
    let pa = overrides_action(action);
    let pd = overrides_action(d.action);
    if any(ov, pa) {
        let w = choose|i: int| 0 <= i < ov.len() && #[trigger] pa(ov[i]);
        lemma_exists_first(ov, pa, w);
        let f = first(ov, pa);
        assert(ov2 == ov.update(f, o));
        if d.action == action {
            assert(is_first(ov2, pd, f)) by {
                assert forall|j: int| 0 <= j < f implies !pd(#[trigger] ov2[j]) by {
                    assert(ov2[j] == ov[j]);
                }
            }
            lemma_first(ov2, pd, f);
        } else {
            if any(ov, pd) {
                let v = choose|i: int| 0 <= i < ov.len() && #[trigger] pd(ov[i]);
                lemma_exists_first(ov, pd, v);
                let g = first(ov, pd);
                assert(g != f);
                assert(is_first(ov2, pd, g)) by {
                    assert forall|j: int| 0 <= j < g implies !pd(#[trigger] ov2[j]) by {
                        if j != f {
                            assert(ov2[j] == ov[j]);
                        }
                    }
                }
                lemma_first(ov2, pd, g);
            } else {
                assert(!any(ov2, pd)) by {
                    assert forall|j: int| 0 <= j < ov2.len() implies !pd(#[trigger] ov2[j]) by {
                        if j != f {
                            assert(ov2[j] == ov[j]);
                        }
                    }
                }
            }
        }
    } else {
        let n = ov.len() as int;
        assert(ov2 == ov.push(o));
        if d.action == action {
            assert(is_first(ov2, pd, n)) by {
                assert forall|j: int| 0 <= j < n implies !pd(#[trigger] ov2[j]) by {
                    assert(ov2[j] == ov[j]);
                    if pd(ov[j]) {
                        assert(pa(ov[j]));
                    }
                }
            }
            lemma_first(ov2, pd, n);
        } else {
            if any(ov, pd) {
                let v = choose|i: int| 0 <= i < ov.len() && #[trigger] pd(ov[i]);
                lemma_exists_first(ov, pd, v);
                let g = first(ov, pd);
                assert(is_first(ov2, pd, g)) by {
                    assert forall|j: int| 0 <= j < g implies !pd(#[trigger] ov2[j]) by {
                        assert(ov2[j] == ov[j]);
                    }
                }
                lemma_first(ov2, pd, g);
            } else {
                assert(!any(ov2, pd)) by {
                    assert forall|j: int| 0 <= j < ov2.len() implies !pd(#[trigger] ov2[j]) by {
                        if j < n {
                            assert(ov2[j] == ov[j]);
                        }
                    }
                }
            }
        }
    }
}

/// After `set_shortcut` binds `action` to `key` and `modifiers` in the open
/// project, `get_shortcuts` lists that action with the new key and
/// modifiers and its default ones beside them, and every other action as
/// it was listed before.
pub proof fn law_set_then_get(s: ProjectStateView, action: Seq<char>, key: Seq<char>, modifiers: Seq<Seq<char>>, i: int)
    requires
        s.current is Some,
        0 <= i < spec_default_shortcuts().len(),
    ensures
        ({
            let d = spec_default_shortcuts()[i];
            let s2 = state_after(s, project_after_set(s.current->0, action, key, modifiers));
            let before = listed_shortcut(d, current_overrides(s));
            let after = listed_shortcut(d, current_overrides(s2));
            &&& d.action == action ==> after == (ShortcutDefinitionView { key, modifiers, ..before })
            &&& d.action != action ==> after == before
        }),
{
    let d = spec_default_shortcuts()[i];
    let ov = s.current->0.settings.shortcut_overrides;
    law_set_binding_in_force(ov, action, key, modifiers, d);
}

/// With no binding of the user's own stored in the open project, applying
/// any default binding again is accepted: it is valid, its action exists,
/// and no other action has the same key and modifiers.
pub proof fn law_default_binding_accepted(s: ProjectStateView, i: int)
    requires
        s.current is Some,
        current_overrides(s).len() == 0,
        0 <= i < spec_default_shortcuts().len(),
    ensures
        ({
            let d = spec_default_shortcuts()[i];
            set_shortcut_check(d.action, d.key, d.modifiers, s) is None
        }),
{
    let defaults = spec_default_shortcuts();
    let d = defaults[i];
    assert(d == default_shortcut_at(i));
    reveal_strlit("+");
    reveal_strlit("-");
    reveal_strlit("0");
    reveal_strlit("ArrowLeft");
    reveal_strlit("ArrowRight");
    reveal_strlit("Delete");
    reveal_strlit("End");
    reveal_strlit("Escape");
    reveal_strlit("Home");
    reveal_strlit("Space");
    reveal_strlit("a");
    reveal_strlit("add_marker");
    reveal_strlit("add_track");
    reveal_strlit("c");
    reveal_strlit("copy");
    reveal_strlit("cut");
    reveal_strlit("d");
    reveal_strlit("delete_clip");
    reveal_strlit("duplicate_clip");
    reveal_strlit("e");
    reveal_strlit("export");
    reveal_strlit("l");
    reveal_strlit("lock_track");
    reveal_strlit("m");
    reveal_strlit("mute_track");
    reveal_strlit("paste");
    reveal_strlit("play_pause");
    reveal_strlit("redo");
    reveal_strlit("ripple_delete");
    reveal_strlit("s");
    reveal_strlit("save_project");
    reveal_strlit("save_project_as");
    reveal_strlit("seek_end");
    reveal_strlit("seek_start");
    reveal_strlit("select_all");
    reveal_strlit("select_none");
    reveal_strlit("split_clip");
    reveal_strlit("step_backward");
    reveal_strlit("step_forward");
    reveal_strlit("stop");
    reveal_strlit("t");
    reveal_strlit("undo");
    reveal_strlit("v");
    reveal_strlit("x");
    reveal_strlit("z");
    reveal_strlit("zoom_fit");
    reveal_strlit("zoom_in");
    reveal_strlit("zoom_out");
    assert(!blank(d.action)) by {
        assert(!crate::text::unicode_whitespace(d.action[0]));
    }
    assert(!blank(d.key)) by {
        assert(!crate::text::unicode_whitespace(d.key[0]));
    }
    assert(!any(d.modifiers, invalid_modifier())) by {
        assert forall|k: int| 0 <= k < d.modifiers.len() implies !invalid_modifier()(#[trigger] d.modifiers[k]) by {
            assert(valid_modifier(d.modifiers[k]));
        }
    }
    assert(binds_action(d.action)(defaults[i]));
    let ov = current_overrides(s);
    let bindings = bindings_in_force(ov);
    assert(!any(bindings, conflicts(d.action, d.key, d.modifiers))) by {
        law_default_bindings_distinct();
        assert forall|j: int| 0 <= j < bindings.len() implies !conflicts(d.action, d.key, d.modifiers)(
            #[trigger] bindings[j],
        ) by {
            assert(!any(ov, overrides_action(defaults[j].action)));
            assert(bindings[j] == defaults[j]);
            if j < i {
                assert(crate::utils::bindings_differ(defaults[j], defaults[i]));
            } else if i < j {
                assert(crate::utils::bindings_differ(defaults[i], defaults[j]));
            }
        }
    }
}

} // verus!
