//! A key in the editor goes to the one handler whose steps the editor is in:
//! the add-card wizard, the graph steps, the detail steps, the edit steps,
//! the steps that span dashboards, and finally plain browsing.
use vstd::prelude::*;

use crate::browse::{browse_ok, browse_spec, BrowseResult};
use crate::dashboard::Dashboard;
use crate::detail_keys::{detail_key_ok, detail_key_spec, DetailResult, KeyFacts};
use crate::edit_keys::{edit_key_ok, edit_key_spec, EditResult};
use crate::editor::EditorState;
use crate::flat::flat_cards;
use crate::graph_flow::graph_key_spec;
use crate::grid_ops::max_id;
use crate::ha::InstanceRuntime;
use crate::wizard::{key_ok, wizard_spec, Key, KeyResult};
use crate::workspace::{workspace_ok, workspace_spec, WorkspaceResult};

verus! {

/// Which handler took an editor key, and what it answered.
#[derive(Debug)]
pub enum EditorKey {
    Wizard(KeyResult),
    Graph(DetailResult),
    Detail(DetailResult),
    Edit(EditResult),
    Workspace(WorkspaceResult),
    Browse(BrowseResult),
}

/// `ds2` is `ds` with only dashboard `i` replaced, by `e`.
pub open spec fn only_at(ds: Seq<Dashboard>, i: int, e: Dashboard, ds2: Seq<Dashboard>) -> bool {
    ds2 == ds.update(i, e)
}

/// What a key does in the editor (editing dashboard `a.dash_idx` of `ds`):
/// the first handler, in the order above, that does not answer `NotMine`
/// answers; every handler before it answered `NotMine` and changed nothing.
pub open spec fn editor_key_spec(
    a: EditorState,
    ds: Seq<Dashboard>,
    key: Key,
    rts: Seq<InstanceRuntime>,
    f: KeyFacts,
    b: EditorState,
    ds2: Seq<Dashboard>,
    r: EditorKey,
) -> bool {
    let i = a.dash_idx as int;
    let d = ds[i];
    let e = ds2[i];
    let not_wizard = wizard_spec(a, d, key, rts, a, d, KeyResult::NotMine);
    let not_graph = graph_key_spec(a, d, key, rts, a, d, DetailResult::NotMine);
    let not_detail = detail_key_spec(a, d, key, f, a, d, DetailResult::NotMine);
    let not_edit = edit_key_spec(a, d, key, a, d, EditResult::NotMine);
    let not_workspace = workspace_spec(a, ds, key, a, ds, WorkspaceResult::NotMine);
    match r {
        EditorKey::Wizard(k) => !(k is NotMine) && wizard_spec(a, d, key, rts, b, e, k) && only_at(ds, i, e, ds2),
        EditorKey::Graph(g) => not_wizard && !(g is NotMine) && graph_key_spec(a, d, key, rts, b, e, g) && only_at(
            ds,
            i,
            e,
            ds2,
        ),
        EditorKey::Detail(g) => not_wizard && not_graph && !(g is NotMine) && detail_key_spec(a, d, key, f, b, e, g)
            && only_at(ds, i, e, ds2),
        EditorKey::Edit(x) => not_wizard && not_graph && not_detail && !(x is NotMine) && edit_key_spec(a, d, key, b, e, x)
            && only_at(ds, i, e, ds2),
        EditorKey::Workspace(w) => not_wizard && not_graph && not_detail && not_edit && !(w is NotMine) && workspace_spec(
            a,
            ds,
            key,
            b,
            ds2,
            w,
        ),
        EditorKey::Browse(x) => not_wizard && not_graph && not_detail && not_edit && not_workspace && browse_spec(
            a,
            d,
            key,
            b,
            e,
            x,
        ) && only_at(ds, i, e, ds2),
    }
}

/// The dashboard shown once the editor closes after answer `r` (the editor
/// was on dashboard `idx`), or `None` while it stays open.
pub open spec fn shown_after_spec(r: EditorKey, idx: usize) -> Option<usize> {
    match r {
        EditorKey::Edit(EditResult::Exit) | EditorKey::Browse(BrowseResult::Exit) => Some(idx),
        EditorKey::Workspace(WorkspaceResult::Closed { show }) | EditorKey::Workspace(WorkspaceResult::Deleted { show }) => Some(
            show,
        ),
        _ => None,
    }
}

/// The dashboard to show when the editor closes after answer `r`.
pub fn shown_after(r: &EditorKey, idx: usize) -> (s: Option<usize>)
    ensures
        s == shown_after_spec(*r, idx),
{
    match r {
        EditorKey::Edit(EditResult::Exit) | EditorKey::Browse(BrowseResult::Exit) => Some(idx),
        EditorKey::Workspace(WorkspaceResult::Closed { show }) | EditorKey::Workspace(WorkspaceResult::Deleted { show }) => Some(
            *show,
        ),
        _ => None,
    }
}

impl EditorState {
    /// Hand a key to the editor's handlers in turn.
    pub fn editor_key(
        &mut self,
        key: Key,
        dashes: &mut Vec<Dashboard>,
        runtimes: &Vec<InstanceRuntime>,
        facts: &KeyFacts,
    ) -> (r: EditorKey)
        requires
            old(self).dash_idx < old(dashes)@.len(),
            flat_cards(old(dashes)@[old(self).dash_idx as int]).len() < usize::MAX,
            max_id(flat_cards(old(dashes)@[old(self).dash_idx as int])) < u64::MAX,
            key_ok(*old(self), key),
            detail_key_ok(*old(self), key),
            edit_key_ok(*old(self), key),
            workspace_ok(*old(self), old(dashes)@, key),
            browse_ok(*old(self), old(dashes)@[old(self).dash_idx as int], key),
        ensures
            editor_key_spec(*old(self), old(dashes)@, key, runtimes@, *facts, *final(self), final(dashes)@, r),
    {
        let idx = self.dash_idx;
        let ghost a = *self;
        let ghost ds = dashes@;
        let k = self.wizard_key(key, &mut dashes[idx], runtimes);
        if !matches!(k, KeyResult::NotMine) {
            return EditorKey::Wizard(k);
        }
        assert(*self == a);
        assert(dashes@ =~= ds);
        let g = self.graph_key(key, &mut dashes[idx], runtimes);
        if !matches!(g, DetailResult::NotMine) {
            return EditorKey::Graph(g);
        }
        assert(dashes@ =~= ds);
        let g = self.detail_key(key, &mut dashes[idx], facts);
        if !matches!(g, DetailResult::NotMine) {
            return EditorKey::Detail(g);
        }
        assert(dashes@ =~= ds);
        let x = self.edit_key(key, &mut dashes[idx]);
        if !matches!(x, EditResult::NotMine) {
            return EditorKey::Edit(x);
        }
        assert(dashes@ =~= ds);
        let w = self.workspace_key(key, dashes);
        if !matches!(w, WorkspaceResult::NotMine) {
            return EditorKey::Workspace(w);
        }
        EditorKey::Browse(self.browse_key(key, &mut dashes[idx]))
    }
}

/// `u` in the editor with no step open undoes: the dashboard being edited
/// becomes the last snapshot, which leaves the stack, and the editor is
/// marked changed; every other dashboard stays. With no snapshot nothing
/// changes.
pub proof fn law_undo_key(
    a: EditorState,
    ds: Seq<Dashboard>,
    rts: Seq<InstanceRuntime>,
    f: KeyFacts,
    b: EditorState,
    ds2: Seq<Dashboard>,
    r: EditorKey,
)
    requires
        a.mode is Browse,
        a.dash_idx < ds.len(),
        editor_key_spec(a, ds, Key::Char('u'), rts, f, b, ds2, r),
    ensures
        a.undo_stack@.len() > 0 ==> {
            &&& ds2[a.dash_idx as int] == a.undo_stack@.last()
            &&& b.undo_stack@ == a.undo_stack@.drop_last()
            &&& b.dirty
            &&& forall|j: int| 0 <= j < ds.len() && j != a.dash_idx ==> ds2[j] == ds[j]
            &&& ds2.len() == ds.len()
        },
        a.undo_stack@.len() == 0 ==> b == a && ds2 == ds,
{
    let i = a.dash_idx as int;
    if a.undo_stack@.len() == 0 {
        assert(ds.update(i, ds[i]) =~= ds);
    }
}

} // verus!
