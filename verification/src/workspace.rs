//! The editor's steps that work across the list of dashboards: moving or
//! copying a card to another dashboard, choosing a new dashboard's layout,
//! creating and deleting dashboards.
use vstd::prelude::*;

use crate::builder::{find_free_cell, free_cell};
use crate::dashboard::{card_same, Card, CardId, Dashboard, DashboardLayout, Grid, Pos};
use crate::detail_keys::vim_selection;
use crate::editor::{EditorMode, EditorState, GridFocus, TransferOp};
use crate::flat::flat_cards;
use crate::grid_ops::{card_removed, count_fits, free_card_pushed, grid_card_inserted, grid_rows, max_id};
use crate::persist::{decimal, push_decimal};
use crate::screens::Screen;
use crate::strings::to_owned_string;
use crate::wizard::Key;

verus! {

/// The positions of the cards that have one, in order.
pub open spec fn positions_of(cards: Seq<Card>) -> Seq<Pos>
    decreases cards.len(),
{
    if cards.len() == 0 {
        Seq::empty()
    } else {
        positions_of(cards.drop_last()) + match cards.last().pos {
            Some(p) => seq![p],
            None => Seq::empty(),
        }
    }
}

fn positions(d: &Dashboard) -> (r: Vec<Pos>)
    requires
        count_fits(*d),
    ensures
        r@ == positions_of(flat_cards(*d)),
{
    let cards = d.cards_iter();
    let mut out: Vec<Pos> = Vec::new();
    let mut i: usize = 0;
    while i < cards.len()
        invariant
            i <= cards@.len(),
            cards@.len() == flat_cards(*d).len(),
            forall|k: int| 0 <= k < cards@.len() ==> *(#[trigger] cards@[k]) == flat_cards(*d)[k],
            out@ == positions_of(flat_cards(*d).take(i as int)),
        decreases cards.len() - i,
    {
        assert(flat_cards(*d).take(i as int + 1).drop_last() =~= flat_cards(*d).take(i as int));
        assert(flat_cards(*d).take(i as int + 1).last() == *cards@[i as int]);
        match cards[i].pos {
            Some(p) => {
                out.push(p);
            },
            None => {},
        }
        assert(out@ =~= positions_of(flat_cards(*d).take(i as int + 1)));
        i = i + 1;
    }
    assert(flat_cards(*d).take(cards@.len() as int) =~= flat_cards(*d));
    out
}

/// The dashboard at `t` is a grid.
pub open spec fn is_grid_at(ds: Seq<Dashboard>, t: usize) -> bool {
    t < ds.len() && ds[t as int].layout is Grid
}

/// The canvas a free dashboard places cards on (12×8 for anything else).
pub open spec fn canvas_of(d: Dashboard) -> Grid {
    match d.layout {
        DashboardLayout::Free { grid, .. } => grid,
        _ => Grid { cols: 12, rows: 8 },
    }
}

/// The canvas of the dashboard at `t` (12×8 when there is none).
pub open spec fn target_canvas(ds: Seq<Dashboard>, t: usize) -> Grid {
    if t < ds.len() {
        canvas_of(ds[t as int])
    } else {
        Grid { cols: 12, rows: 8 }
    }
}

/// The cells taken on the dashboard at `t`.
pub open spec fn target_cells(ds: Seq<Dashboard>, t: usize) -> Seq<Pos> {
    if t < ds.len() {
        positions_of(flat_cards(ds[t as int]))
    } else {
        Seq::empty()
    }
}

/// What placing `card` on the free dashboard at `t` of `ds` gives, with the
/// message it shows: the first free 3×2 cell, or the top-left corner (and a
/// warning) when none is free.
pub open spec fn placed_free(ds: Seq<Dashboard>, t: usize, card: Card, ds2: Seq<Dashboard>, msg: Option<String>) -> bool {
    exists|spot: Option<Pos>|
        #![trigger free_cell(target_canvas(ds, t), target_cells(ds, t), 3, 2, spot)]
        free_cell(target_canvas(ds, t), target_cells(ds, t), 3, 2, spot) && {
            let placed = Card {
                pos: Some(
                    match spot {
                        Some(p) => p,
                        None => Pos { col: 0, row: 0, w: 3, h: 2 },
                    },
                ),
                ..card
            };
            &&& if t < ds.len() {
                ds2.len() == ds.len() && forall|i: int| 0 <= i < ds.len() && i != t ==> #[trigger] ds2[i] == ds[i]
                    && free_card_pushed(ds[t as int], ds2[t as int], placed)
            } else {
                ds2 == ds
            }
            &&& match spot {
                Some(_) => msg is None,
                None => msg matches Some(m) && m@ == "Card placed at (0,0) — may overlap existing cards"@,
            }
        }
}

/// Moving (or copying) card `src` of the edited dashboard to dashboard `t`
/// gives dashboards `ds2`, editor `b` and message `msg`: a grid target with
/// no row chosen yet asks for its row; otherwise a moved card leaves its
/// dashboard, a copied one gets the target's next id, and the card goes to
/// the chosen column of a grid, or to the first free cell of a free canvas.
pub open spec fn transfer_spec(
    ds: Seq<Dashboard>,
    a: EditorState,
    op: TransferOp,
    src: usize,
    t: usize,
    row: Option<usize>,
    col: Option<usize>,
    ds2: Seq<Dashboard>,
    b: EditorState,
    msg: Option<String>,
) -> bool {
    let ei = a.dash_idx;
    if is_grid_at(ds, t) && row is None {
        ds2 == ds && b == (EditorState {
            mode: EditorMode::PickingTargetGridRow { op, source_card_idx: src, target_dash: t, selected: 0 },
            ..a
        }) && msg is None
    } else if !(ei < ds.len() && src < flat_cards(ds[ei as int]).len()) {
        ds2 == ds && b == a && msg is None
    } else {
        let card = flat_cards(ds[ei as int])[src as int];
        exists|ds1: Seq<Dashboard>, moving: Card|
            #![trigger ds1.len(), moving.id]
            {
                &&& if op == TransferOp::Move {
                    &&& ds1.len() == ds.len()
                    &&& forall|i: int| 0 <= i < ds.len() && i != ei ==> #[trigger] ds1[i] == ds[i]
                    &&& card_removed(ds[ei as int], ds1[ei as int], src, Some(card))
                    &&& moving == card
                    &&& b == (EditorState { selected_card: None, dirty: true, ..a })
                } else {
                    &&& ds1 == ds
                    &&& card_same(
                        moving,
                        Card {
                            id: if t < ds.len() { CardId((max_id(flat_cards(ds[t as int])) + 1) as u64) } else { CardId(1) },
                            ..card
                        },
                    )
                    &&& b == (EditorState { dirty: true, ..a })
                }
                &&& if is_grid_at(ds, t) {
                    &&& msg is None
                    &&& ds2.len() == ds1.len()
                    &&& forall|i: int| 0 <= i < ds1.len() && i != t ==> #[trigger] ds2[i] == ds1[i]
                    &&& grid_card_inserted(
                        ds1[t as int],
                        ds2[t as int],
                        row->0,
                        match col {
                            Some(c) => c,
                            None => 0,
                        },
                        Card { pos: None, ..moving },
                    )
                } else {
                    placed_free(ds1, t, moving, ds2, msg)
                }
            }
    }
}

/// The dashboards can take a card without overflow: their card counts fit
/// and a copy can be given a fresh id.
pub open spec fn transfer_ok(ds: Seq<Dashboard>, t: usize) -> bool {
    &&& forall|i: int| 0 <= i < ds.len() ==> count_fits(#[trigger] ds[i])
    &&& t < ds.len() ==> max_id(flat_cards(ds[t as int])) < u64::MAX
}

/// Move (or copy) card `src` of the edited dashboard to dashboard `t`, to
/// column `col` of row `row` on a grid; returns the message to show, if any.
pub fn transfer_card(
    dashes: &mut Vec<Dashboard>,
    ed: &mut EditorState,
    op: TransferOp,
    src: usize,
    t: usize,
    row: Option<usize>,
    col: Option<usize>,
) -> (msg: Option<String>)
    requires
        transfer_ok(old(dashes)@, t),
    ensures
        transfer_spec(old(dashes)@, *old(ed), op, src, t, row, col, final(dashes)@, *final(ed), msg),
{
    let ghost ds = dashes@;
    let ghost a = *ed;
    let ei = ed.dash_idx;
    let target_is_grid = t < dashes.len() && !dashes[t].is_free();
    if target_is_grid && row.is_none() {
        ed.mode = EditorMode::PickingTargetGridRow { op, source_card_idx: src, target_dash: t, selected: 0 };
        return None;
    }
    if ei >= dashes.len() {
        return None;
    }
    let moving: Card = if op == TransferOp::Move {
        match dashes[ei].remove_card_at(src) {
            Some(c) => {
                ed.selected_card = None;
                c
            },
            None => {
                assert(dashes@ =~= ds);
                return None;
            },
        }
    } else {
        let c = match dashes[ei].card(src) {
            Some(c) => c.duplicate(),
            None => return None,
        };
        let id = if t < dashes.len() {
            dashes[t].next_card_id()
        } else {
            CardId(1)
        };
        Card { id, ..c }
    };
    let ghost ds1 = dashes@;
    let ghost mv = moving;
    proof {
        assert(forall|i: int| 0 <= i < ds1.len() ==> count_fits(#[trigger] ds1[i]));
    }
    ed.dirty = true;
    if target_is_grid {
        let r = match row {
            Some(r) => r,
            None => 0,
        };
        let c = match col {
            Some(c) => c,
            None => 0,
        };
        dashes[t].insert_card_grid(r, c, Card { pos: None, ..moving });
        proof {
            if op == TransferOp::Move {
                assert(forall|i: int| 0 <= i < ds.len() && i != ei ==> #[trigger] ds1[i] == ds[i]);
                assert(card_removed(ds[ei as int], ds1[ei as int], src, Some(flat_cards(ds[ei as int])[src as int])));
            } else {
                assert(ds1 =~= ds);
            }
            assert(forall|i: int| 0 <= i < ds1.len() && i != t ==> #[trigger] dashes@[i] == ds1[i]);
        }
        None
    } else {
        let (canvas, occupied) = if t < dashes.len() {
            let g = match dashes[t].free_grid() {
                Some(g) => g,
                None => Grid { cols: 12, rows: 8 },
            };
            (g, positions(&dashes[t]))
        } else {
            (Grid { cols: 12, rows: 8 }, Vec::new())
        };
        let spot = find_free_cell(canvas, occupied.as_slice(), 3, 2);
        let at = match spot {
            Some(p) => p,
            None => Pos { col: 0, row: 0, w: 3, h: 2 },
        };
        proof {
            assert(canvas == target_canvas(ds1, t));
            assert(occupied@ == target_cells(ds1, t));
        }
        if t < dashes.len() {
            dashes[t].push_card_free(Card { pos: Some(at), ..moving });
        }
        proof {
            if op == TransferOp::Move {
                assert(forall|i: int| 0 <= i < ds.len() && i != ei ==> #[trigger] ds1[i] == ds[i]);
                assert(card_removed(ds[ei as int], ds1[ei as int], src, Some(flat_cards(ds[ei as int])[src as int])));
            } else {
                assert(ds1 =~= ds);
            }
            if t < ds1.len() {
                assert(forall|i: int| 0 <= i < ds1.len() && i != t ==> #[trigger] dashes@[i] == ds1[i]);
            } else {
                assert(dashes@ =~= ds1);
            }
            assert(free_cell(target_canvas(ds1, t), target_cells(ds1, t), 3, 2, spot));
        }
        match spot {
            Some(_) => None,
            None => Some(to_owned_string("Card placed at (0,0) — may overlap existing cards")),
        }
    }
}

/// What a dashboard-level key asks of the caller.
#[derive(Debug)]
pub enum WorkspaceResult {
    /// The editor is in none of these steps; nothing changed.
    NotMine,
    /// The key was handled.
    Done,
    /// The key was handled; show this message.
    Status(String),
    /// The editor closed; show dashboard `show`.
    Closed { show: usize },
    /// The editor closed after deleting its dashboard; show dashboard `show`
    /// and save the dashboards.
    Deleted { show: usize },
}

/// The result that reports transfer message `msg`.
pub open spec fn reported(msg: Option<String>, r: WorkspaceResult) -> bool {
    match msg {
        Some(m) => r == WorkspaceResult::Status(m),
        None => r is Done,
    }
}

/// The dashboard shown after the one at `idx` is removed from `ds` (which
/// now has `n` dashboards): the one before it, or the first.
pub open spec fn shown_after_removal(idx: usize, n: int) -> usize {
    let before: int = if idx > 0 { idx - 1 } else { 0 };
    let last: int = if n > 0 { n - 1 } else { 0 };
    (if before < last { before } else { last }) as usize
}

/// `ds2` is `ds` without the dashboard at `idx` (if there is one).
pub open spec fn removed_at(ds: Seq<Dashboard>, idx: usize, ds2: Seq<Dashboard>) -> bool {
    if idx < ds.len() {
        ds2 == ds.remove(idx as int)
    } else {
        ds2 == ds
    }
}

/// The rows of the grid dashboard at `t` (none for anything else).
pub open spec fn rows_at(ds: Seq<Dashboard>, t: usize) -> int {
    if t < ds.len() {
        grid_rows(ds[t as int]).len() as int
    } else {
        0
    }
}

/// The columns of row `r` of the grid dashboard at `t` (none when there is no such row).
pub open spec fn cols_at(ds: Seq<Dashboard>, t: usize, r: usize) -> int {
    if t < ds.len() && r < grid_rows(ds[t as int]).len() {
        grid_rows(ds[t as int])[r as int].columns@.len() as int
    } else {
        0
    }
}

/// The editor is in one of the dashboard-level steps.
pub open spec fn is_workspace_step(m: EditorMode) -> bool {
    m is PickingTargetDashboard || m is PickingTargetGridRow || m is PickingTargetGridColumn || m is PickingNewDashboardLayout
        || m is ConfirmDeleteDashboard
}

/// What a key does in the dashboard-level steps to editor `a` and
/// dashboards `ds`, giving `b`, `ds2` and `r`.
pub open spec fn workspace_spec(a: EditorState, ds: Seq<Dashboard>, key: Key, b: EditorState, ds2: Seq<Dashboard>, r: WorkspaceResult) -> bool {
    let browse = EditorState { mode: EditorMode::Browse, ..a };
    match a.mode {
        EditorMode::PickingTargetDashboard { op, source_card_idx, selected } => match key {
            Key::Esc => b == browse && ds2 == ds && r is Done,
            Key::Enter => exists|m: Option<String>|
                #[trigger] transfer_spec(ds, browse, op, source_card_idx, selected, None, None, ds2, b, m) && reported(m, r),
            _ => ds2 == ds && r is Done && b == (EditorState {
                mode: EditorMode::PickingTargetDashboard {
                    op,
                    source_card_idx,
                    selected: vim_selection(selected, ds.len() as int, key),
                },
                ..a
            }),
        },
        EditorMode::PickingTargetGridRow { op, source_card_idx, target_dash, selected } => ds2 == ds && r is Done && match key {
            Key::Esc => b == browse,
            Key::Enter => b == (EditorState {
                mode: EditorMode::PickingTargetGridColumn { op, source_card_idx, target_dash, target_row: selected, selected: 0 },
                ..a
            }),
            _ => b == (EditorState {
                mode: EditorMode::PickingTargetGridRow {
                    op,
                    source_card_idx,
                    target_dash,
                    selected: vim_selection(selected, rows_at(ds, target_dash), key),
                },
                ..a
            }),
        },
        EditorMode::PickingTargetGridColumn { op, source_card_idx, target_dash, target_row, selected } => match key {
            Key::Esc => b == browse && ds2 == ds && r is Done,
            Key::Enter => exists|m: Option<String>|
                #[trigger] transfer_spec(ds, browse, op, source_card_idx, target_dash, Some(target_row), Some(selected), ds2, b, m)
                    && reported(m, r),
            _ => ds2 == ds && r is Done && b == (EditorState {
                mode: EditorMode::PickingTargetGridColumn {
                    op,
                    source_card_idx,
                    target_dash,
                    target_row,
                    selected: vim_selection(selected, cols_at(ds, target_dash, target_row), key),
                },
                ..a
            }),
        },
        EditorMode::PickingNewDashboardLayout { selected } => match key {
            Key::Esc => b == browse && removed_at(ds, a.dash_idx, ds2) && r == (WorkspaceResult::Closed {
                show: shown_after_removal(a.dash_idx, ds2.len() as int),
            }),
            Key::Enter => {
                &&& r matches WorkspaceResult::Status(m) && m@ == "dashboard created — press 'a' to add cards, 's' to save"@
                &&& if selected == 1 {
                    &&& b == (EditorState { grid_focus: Some(GridFocus::Column { row: 0, col: 0 }), ..browse })
                    &&& if a.dash_idx < ds.len() {
                        &&& ds2.len() == ds.len()
                        &&& forall|i: int| 0 <= i < ds.len() && i != a.dash_idx ==> #[trigger] ds2[i] == ds[i]
                        &&& ds2[a.dash_idx as int].name == ds[a.dash_idx as int].name
                        &&& (ds2[a.dash_idx as int].layout matches DashboardLayout::Grid { rows } && rows@.len() == 0)
                    } else {
                        ds2 == ds
                    }
                } else {
                    b == browse && ds2 == ds
                }
            },
            Key::Char('1') => ds2 == ds && r is Done && b == (EditorState { mode: EditorMode::PickingNewDashboardLayout { selected: 0 }, ..a }),
            Key::Char('2') => ds2 == ds && r is Done && b == (EditorState { mode: EditorMode::PickingNewDashboardLayout { selected: 1 }, ..a }),
            _ => ds2 == ds && r is Done && b == (EditorState {
                mode: EditorMode::PickingNewDashboardLayout { selected: vim_selection(selected, 2, key) },
                ..a
            }),
        },
        EditorMode::ConfirmDeleteDashboard => b == browse && match key {
            Key::Char('y') | Key::Char('Y') => removed_at(ds, a.dash_idx, ds2) && r == (WorkspaceResult::Deleted {
                show: shown_after_removal(a.dash_idx, ds2.len() as int),
            }),
            _ => ds2 == ds && r is Done,
        },
        _ => b == a && ds2 == ds && r is NotMine,
    }
}

/// The key can be handled without a panic or an overflow.
pub open spec fn workspace_ok(a: EditorState, ds: Seq<Dashboard>, key: Key) -> bool {
    match a.mode {
        EditorMode::PickingTargetDashboard { selected, .. } => key == Key::Enter ==> transfer_ok(ds, selected),
        EditorMode::PickingTargetGridColumn { target_dash, .. } => key == Key::Enter ==> transfer_ok(ds, target_dash),
        _ => true,
    }
}

fn shown_after(idx: usize, n: usize) -> (r: usize)
    ensures
        r == shown_after_removal(idx, n as int),
{
    let before = if idx > 0 {
        idx - 1
    } else {
        0
    };
    let last = if n > 0 {
        n - 1
    } else {
        0
    };
    if before < last {
        before
    } else {
        last
    }
}

fn vim_pick(selected: usize, n: usize, key: Key) -> (r: usize)
    ensures
        r == vim_selection(selected, n as int, key),
{
    match key {
        Key::Up | Key::Char('k') => if selected > 0 {
            selected - 1
        } else {
            selected
        },
        Key::Down | Key::Char('j') => if selected < n && selected + 1 < n {
            selected + 1
        } else {
            selected
        },
        _ => selected,
    }
}

fn grid_row_count(ds: &Vec<Dashboard>, t: usize) -> (r: usize)
    ensures
        r == rows_at(ds@, t),
{
    if t < ds.len() {
        match &ds[t].layout {
            DashboardLayout::Grid { rows } => rows.len(),
            _ => 0,
        }
    } else {
        0
    }
}

fn grid_col_count(ds: &Vec<Dashboard>, t: usize, row: usize) -> (r: usize)
    ensures
        r == cols_at(ds@, t, row),
{
    if t < ds.len() {
        match &ds[t].layout {
            DashboardLayout::Grid { rows } => if row < rows.len() {
                rows[row].columns.len()
            } else {
                0
            },
            _ => 0,
        }
    } else {
        0
    }
}

fn report(msg: Option<String>) -> (r: WorkspaceResult)
    ensures
        reported(msg, r),
{
    match msg {
        Some(m) => WorkspaceResult::Status(m),
        None => WorkspaceResult::Done,
    }
}

impl EditorState {
    /// Handle a key in the steps that pick where a card goes, choose a new
    /// dashboard's layout, or confirm deleting the dashboard.
    pub fn workspace_key(&mut self, key: Key, dashes: &mut Vec<Dashboard>) -> (r: WorkspaceResult)
        requires
            workspace_ok(*old(self), old(dashes)@, key),
        ensures
            workspace_spec(*old(self), old(dashes)@, key, *final(self), final(dashes)@, r),
    {
        let ghost a = *self;
        let ghost ds = dashes@;
        match self.mode {
            EditorMode::PickingTargetDashboard { op, source_card_idx, selected } => match key {
                Key::Esc => {
                    self.mode = EditorMode::Browse;
                    WorkspaceResult::Done
                },
                Key::Enter => {
                    self.mode = EditorMode::Browse;
                    let m = transfer_card(dashes, self, op, source_card_idx, selected, None, None);
                    report(m)
                },
                _ => {
                    let s = vim_pick(selected, dashes.len(), key);
                    self.mode = EditorMode::PickingTargetDashboard { op, source_card_idx, selected: s };
                    WorkspaceResult::Done
                },
            },
            EditorMode::PickingTargetGridRow { op, source_card_idx, target_dash, selected } => {
                match key {
                    Key::Esc => {
                        self.mode = EditorMode::Browse;
                    },
                    Key::Enter => {
                        self.mode = EditorMode::PickingTargetGridColumn { op, source_card_idx, target_dash, target_row: selected, selected: 0 };
                    },
                    _ => {
                        let n = grid_row_count(dashes, target_dash);
                        self.mode = EditorMode::PickingTargetGridRow { op, source_card_idx, target_dash, selected: vim_pick(selected, n, key) };
                    },
                }
                WorkspaceResult::Done
            },
            EditorMode::PickingTargetGridColumn { op, source_card_idx, target_dash, target_row, selected } => match key {
                Key::Esc => {
                    self.mode = EditorMode::Browse;
                    WorkspaceResult::Done
                },
                Key::Enter => {
                    self.mode = EditorMode::Browse;
                    let m = transfer_card(dashes, self, op, source_card_idx, target_dash, Some(target_row), Some(selected));
                    report(m)
                },
                _ => {
                    let n = grid_col_count(dashes, target_dash, target_row);
                    self.mode = EditorMode::PickingTargetGridColumn {
                        op,
                        source_card_idx,
                        target_dash,
                        target_row,
                        selected: vim_pick(selected, n, key),
                    };
                    WorkspaceResult::Done
                },
            },
            EditorMode::PickingNewDashboardLayout { selected } => match key {
                Key::Esc => {
                    self.mode = EditorMode::Browse;
                    let idx = self.dash_idx;
                    if idx < dashes.len() {
                        dashes.remove(idx);
                    }
                    WorkspaceResult::Closed { show: shown_after(idx, dashes.len()) }
                },
                Key::Enter => {
                    self.mode = EditorMode::Browse;
                    if selected == 1 {
                        let idx = self.dash_idx;
                        if idx < dashes.len() {
                            dashes[idx].layout = DashboardLayout::Grid { rows: Vec::new() };
                        }
                        self.grid_focus = Some(GridFocus::Column { row: 0, col: 0 });
                    }
                    WorkspaceResult::Status(to_owned_string("dashboard created — press 'a' to add cards, 's' to save"))
                },
                Key::Char('1') => {
                    self.mode = EditorMode::PickingNewDashboardLayout { selected: 0 };
                    WorkspaceResult::Done
                },
                Key::Char('2') => {
                    self.mode = EditorMode::PickingNewDashboardLayout { selected: 1 };
                    WorkspaceResult::Done
                },
                _ => {
                    self.mode = EditorMode::PickingNewDashboardLayout { selected: vim_pick(selected, 2, key) };
                    WorkspaceResult::Done
                },
            },
            EditorMode::ConfirmDeleteDashboard => {
                self.mode = EditorMode::Browse;
                match key {
                    Key::Char('y') | Key::Char('Y') => {
                        let idx = self.dash_idx;
                        if idx < dashes.len() {
                            dashes.remove(idx);
                        }
                        WorkspaceResult::Deleted { show: shown_after(idx, dashes.len()) }
                    },
                    _ => WorkspaceResult::Done,
                }
            },
            _ => WorkspaceResult::NotMine,
        }
    }
}

/// The name a new dashboard gets when there are `count` already.
pub open spec fn new_dashboard_name(count: nat) -> Seq<char> {
    "Dashboard "@ + decimal(count + 1)
}

/// Add an empty free dashboard (12×24) named after its number, and an
/// editor for it that asks for its layout; with the message to show.
pub fn new_dashboard(dashes: &mut Vec<Dashboard>, path: Option<std::path::PathBuf>) -> (r: (EditorState, String))
    requires
        old(dashes)@.len() + 1 < usize::MAX,
    ensures
        final(dashes)@.len() == old(dashes)@.len() + 1,
        final(dashes)@.drop_last() == old(dashes)@,
        final(dashes)@.last().name@ == new_dashboard_name(old(dashes)@.len()),
        final(dashes)@.last().layout matches DashboardLayout::Free { grid, cards } && grid == (Grid { cols: 12, rows: 24 })
            && cards@.len() == 0,
        r.0.dash_idx == old(dashes)@.len(),
        r.0.cursor_col == 0 && r.0.cursor_row == 0,
        r.0.selected_card is None,
        r.0.mode == (EditorMode::PickingNewDashboardLayout { selected: 0 }),
        r.0.undo_stack@.len() == 0,
        r.0.dirty,
        r.0.source_path == path,
        r.0.edit_target is None,
        r.0.image_pending_is_camera is None,
        r.0.grid_focus is None,
        r.1@ == "new dashboard #"@ + decimal(old(dashes)@.len() + 1) + " — pick layout type"@,
{
    let n = dashes.len() + 1;
    let mut name = to_owned_string("Dashboard ");
    push_decimal(&mut name, n);
    let ghost before = dashes@;
    dashes.push(Dashboard { name, layout: DashboardLayout::Free { grid: Grid { cols: 12, rows: 24 }, cards: Vec::new() } });
    assert(dashes@.drop_last() =~= before);
    let idx = dashes.len() - 1;
    let mut ed = EditorState::new(idx, path);
    ed.dirty = true;
    ed.mode = EditorMode::PickingNewDashboardLayout { selected: 0 };
    let mut msg = to_owned_string("new dashboard #");
    push_decimal(&mut msg, n);
    msg.append(" — pick layout type");
    (ed, msg)
}

/// Open the editor on the dashboard shown (`None` when no dashboard is
/// shown): a fresh editor for it, its focus on the first column when it is a
/// grid.
pub fn enter_editor(s: &Screen, dashes: &Vec<Dashboard>, path: Option<std::path::PathBuf>) -> (r: Option<EditorState>)
    ensures
        match *s {
            Screen::Dashboard { idx, .. } if idx < dashes@.len() => r matches Some(e) && {
                &&& e.dash_idx == idx
                &&& e.cursor_col == 0 && e.cursor_row == 0
                &&& e.selected_card is None
                &&& e.mode is Browse
                &&& e.undo_stack@.len() == 0
                &&& !e.dirty
                &&& e.source_path == path
                &&& e.edit_target is None
                &&& e.image_pending_is_camera is None
                &&& e.grid_focus == if dashes@[idx as int].layout is Grid {
                    Some(GridFocus::Column { row: 0, col: 0 })
                } else {
                    None::<GridFocus>
                }
            },
            _ => r is None,
        },
{
    match *s {
        Screen::Dashboard { idx, .. } => {
            if idx >= dashes.len() {
                return None;
            }
            let mut ed = EditorState::new(idx, path);
            if !dashes[idx].is_free() {
                ed.grid_focus = Some(GridFocus::Column { row: 0, col: 0 });
            }
            Some(ed)
        },
        Screen::Editor => None,
    }
}

} // verus!
