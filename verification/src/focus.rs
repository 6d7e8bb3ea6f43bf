//! Moving around a dashboard in the editor: the cursor on a free canvas, and
//! on a grid the focus on a card, a column or a row.
use vstd::prelude::*;

use crate::dashboard::{Dashboard, DashboardLayout, GridRow, NavDir};
use crate::editor::{
    card_menu_items, card_menu_spec, column_menu_items, dashboard_menu_items, grid_card_extra_items, menu_view, row_menu_items,
    clamp_add_spec, sat_sub, EditorMode, EditorState, GridFocus, MenuAction, MenuContext, MenuItem,
};
use crate::dashboard::{Card, CardKind};
use crate::flat::{col_len, col_start, flat_cards, locate, rows_flat, valid_col};
use crate::grid_ops::{count_fits, grid_rows};

verus! {

/// Columns of row `r`, 0 when there is no such row.
pub open spec fn cols_in(rows: Seq<GridRow>, r: int) -> int {
    if 0 <= r < rows.len() {
        rows[r].columns@.len() as int
    } else {
        0
    }
}

/// Cards in column (`r`, `c`), 0 when there is no such column.
pub open spec fn cards_in(rows: Seq<GridRow>, r: int, c: int) -> int {
    if valid_col(rows, r, c) {
        col_len(rows, r, c)
    } else {
        0
    }
}

/// The grid focus after an arrow key. Left leaves a card for its column, a
/// column for the one before it (the first column for its row), a row for
/// the previous row's last column. Right enters a row's first column and goes
/// on to the next column, then the next row. Up and Down move within a
/// column, from a column's first card up to the column and down into its
/// first card, and between rows.
pub open spec fn focus_after(f: GridFocus, dir: NavDir, rows: Seq<GridRow>) -> GridFocus {
    let n_rows = rows.len() as int;
    match dir {
        NavDir::Left => match f {
            GridFocus::Card { row, col, .. } => GridFocus::Column { row, col },
            GridFocus::Column { row, col } => if col == 0 {
                GridFocus::Row { row }
            } else {
                GridFocus::Column { row, col: (col - 1) as usize }
            },
            GridFocus::Row { row } => if row == 0 {
                GridFocus::Row { row: 0 }
            } else {
                let pr = row - 1;
                let n = cols_in(rows, pr);
                GridFocus::Column { row: pr as usize, col: (if n > 0 { n - 1 } else { 0 }) as usize }
            },
        },
        NavDir::Right => match f {
            GridFocus::Card { row, col, .. } => GridFocus::Column { row, col },
            GridFocus::Column { row, col } => if col + 1 < cols_in(rows, row as int) {
                GridFocus::Column { row, col: (col + 1) as usize }
            } else if row + 1 < n_rows {
                GridFocus::Row { row: (row + 1) as usize }
            } else {
                GridFocus::Column { row, col }
            },
            GridFocus::Row { row } => if cols_in(rows, row as int) > 0 {
                GridFocus::Column { row, col: 0 }
            } else if row + 1 < n_rows {
                GridFocus::Row { row: (row + 1) as usize }
            } else {
                GridFocus::Row { row }
            },
        },
        NavDir::Up => match f {
            GridFocus::Card { row, col, pos_in_col } => if pos_in_col == 0 {
                GridFocus::Column { row, col }
            } else {
                GridFocus::Card { row, col, pos_in_col: (pos_in_col - 1) as usize }
            },
            GridFocus::Column { row, col } => GridFocus::Column { row, col },
            GridFocus::Row { row } => if row == 0 {
                GridFocus::Row { row: 0 }
            } else {
                GridFocus::Row { row: (row - 1) as usize }
            },
        },
        NavDir::Down => match f {
            GridFocus::Card { row, col, pos_in_col } => if pos_in_col + 1 < cards_in(rows, row as int, col as int) {
                GridFocus::Card { row, col, pos_in_col: (pos_in_col + 1) as usize }
            } else {
                f
            },
            GridFocus::Column { row, col } => if cards_in(rows, row as int, col as int) > 0 {
                GridFocus::Card { row, col, pos_in_col: 0 }
            } else {
                f
            },
            GridFocus::Row { row } => if row + 1 < n_rows {
                GridFocus::Row { row: (row + 1) as usize }
            } else {
                f
            },
        },
    }
}

/// The card selected with a focus: the focused card, if it exists.
pub open spec fn focus_card(rows: Seq<GridRow>, f: GridFocus) -> Option<usize> {
    match f {
        GridFocus::Card { row, col, pos_in_col } => if valid_col(rows, row as int, col as int) && pos_in_col < col_len(
            rows,
            row as int,
            col as int,
        ) {
            Some((col_start(rows, row as int, col as int) + pos_in_col) as usize)
        } else {
            None
        },
        _ => None,
    }
}

fn nav_focus(f: GridFocus, dir: NavDir, rows: &Vec<GridRow>) -> (r: GridFocus)
    ensures
        r == focus_after(f, dir, rows@),
{
    let n_rows = rows.len();
    match dir {
        NavDir::Left => match f {
            GridFocus::Card { row, col, .. } => GridFocus::Column { row, col },
            GridFocus::Column { row, col } => if col == 0 {
                GridFocus::Row { row }
            } else {
                GridFocus::Column { row, col: col - 1 }
            },
            GridFocus::Row { row } => if row == 0 {
                GridFocus::Row { row: 0 }
            } else {
                let pr = row - 1;
                let n = if pr < n_rows {
                    rows[pr].columns.len()
                } else {
                    0
                };
                GridFocus::Column { row: pr, col: if n > 0 {
                    n - 1
                } else {
                    0
                } }
            },
        },
        NavDir::Right => match f {
            GridFocus::Card { row, col, .. } => GridFocus::Column { row, col },
            GridFocus::Column { row, col } => {
                let n_cols = if row < n_rows {
                    rows[row].columns.len()
                } else {
                    0
                };
                if n_cols > 0 && col < n_cols - 1 {
                    GridFocus::Column { row, col: col + 1 }
                } else if n_rows > 0 && row < n_rows - 1 {
                    GridFocus::Row { row: row + 1 }
                } else {
                    GridFocus::Column { row, col }
                }
            },
            GridFocus::Row { row } => {
                let n_cols = if row < n_rows {
                    rows[row].columns.len()
                } else {
                    0
                };
                if n_cols > 0 {
                    GridFocus::Column { row, col: 0 }
                } else if n_rows > 0 && row < n_rows - 1 {
                    GridFocus::Row { row: row + 1 }
                } else {
                    GridFocus::Row { row }
                }
            },
        },
        NavDir::Up => match f {
            GridFocus::Card { row, col, pos_in_col } => if pos_in_col == 0 {
                GridFocus::Column { row, col }
            } else {
                GridFocus::Card { row, col, pos_in_col: pos_in_col - 1 }
            },
            GridFocus::Column { row, col } => GridFocus::Column { row, col },
            GridFocus::Row { row } => if row == 0 {
                GridFocus::Row { row: 0 }
            } else {
                GridFocus::Row { row: row - 1 }
            },
        },
        NavDir::Down => match f {
            GridFocus::Card { row, col, pos_in_col } => {
                let n = if row < n_rows && col < rows[row].columns.len() {
                    rows[row].columns[col].cards.len()
                } else {
                    0
                };
                if n > 0 && pos_in_col < n - 1 {
                    GridFocus::Card { row, col, pos_in_col: pos_in_col + 1 }
                } else {
                    f
                }
            },
            GridFocus::Column { row, col } => {
                let n = if row < n_rows && col < rows[row].columns.len() {
                    rows[row].columns[col].cards.len()
                } else {
                    0
                };
                if n > 0 {
                    GridFocus::Card { row, col, pos_in_col: 0 }
                } else {
                    f
                }
            },
            GridFocus::Row { row } => if n_rows > 0 && row < n_rows - 1 {
                GridFocus::Row { row: row + 1 }
            } else {
                f
            },
        },
    }
}

/// The cursor step of an arrow key on a free canvas.
pub open spec fn nav_delta(dir: NavDir) -> (i32, i32) {
    match dir {
        NavDir::Left => (-1i32, 0i32),
        NavDir::Right => (1i32, 0i32),
        NavDir::Up => (0i32, -1i32),
        NavDir::Down => (0i32, 1i32),
    }
}

/// `b` is editor `a` after an arrow key in direction `dir` on dashboard `d`.
pub open spec fn navigated(a: EditorState, d: Dashboard, dir: NavDir, b: EditorState) -> bool {
    &&& match d.layout {
        DashboardLayout::Free { grid, .. } => {
            let (dx, dy) = nav_delta(dir);
            b == (EditorState {
                cursor_col: clamp_add_spec(a.cursor_col, dx, sat_sub(grid.cols, 1)),
                cursor_row: clamp_add_spec(a.cursor_row, dy, sat_sub(grid.rows, 1)),
                ..a
            })
        },
        DashboardLayout::Grid { rows } => {
            let f = match a.grid_focus {
                Some(f) => f,
                None => GridFocus::Row { row: 0 },
            };
            let nf = focus_after(f, dir, rows@);
            b == (EditorState { grid_focus: Some(nf), selected_card: focus_card(rows@, nf), ..a })
        },
    }
}

/// `b` is editor `a` with the row of its selected card focused.
pub open spec fn row_focused(a: EditorState, d: Dashboard, b: EditorState) -> bool {
    &&& match (a.selected_card, d.layout) {
        (Some(i), DashboardLayout::Grid { rows }) if i < rows_flat(rows@).len() => {
            let (r, _, _) = locate(rows@, i as int)->0;
            b == (EditorState { grid_focus: Some(GridFocus::Row { row: r as usize }), ..a })
        },
        _ => b == a,
    }
}

/// `b` is editor `a` with the column of its selected card focused.
pub open spec fn column_focused(a: EditorState, d: Dashboard, b: EditorState) -> bool {
    &&& match (a.selected_card, d.layout) {
        (Some(i), DashboardLayout::Grid { rows }) if i < rows_flat(rows@).len() => {
            let (r, c, _) = locate(rows@, i as int)->0;
            b == (EditorState { grid_focus: Some(GridFocus::Column { row: r as usize, col: c as usize }), ..a })
        },
        _ => b == a,
    }
}

/// `b` is editor `a` with the context menu for its focus or selection open.
pub open spec fn menu_opened(a: EditorState, d: Dashboard, b: EditorState) -> bool {
    &&& ({
        let (ctx, items) = menu_for(a, d);
        b.mode matches EditorMode::Menu { context, items: it, selected } && context == ctx && menu_view(it@)
            == items && selected == 0
    })
    &&& b == (EditorState { mode: b.mode, ..a })
}

impl EditorState {
    /// Focus `f` on a grid dashboard and select the card it names (none for
    /// a column or row focus).
    pub fn set_focus(&mut self, dash: &Dashboard, f: GridFocus)
        requires
            count_fits(*dash),
        ensures
            *final(self) == (EditorState {
                grid_focus: Some(f),
                selected_card: match dash.layout {
                    DashboardLayout::Grid { rows } => focus_card(rows@, f),
                    _ => None,
                },
                ..*old(self)
            }),
    {
        let flat = match f {
            GridFocus::Card { row, col, pos_in_col } => dash.flat_idx_from_grid(row, col, pos_in_col),
            _ => None,
        };
        self.grid_focus = Some(f);
        self.selected_card = flat;
    }

    /// An arrow key in the editor: on a free canvas the cursor moves one
    /// cell (staying on the canvas); on a grid the focus moves as
    /// `focus_after` says, starting from the first row when nothing has focus.
    pub fn navigate(&mut self, dir: NavDir, dash: &Dashboard)
        requires
            count_fits(*dash),
        ensures
            navigated(*old(self), *dash, dir, *final(self)),
    {
        match &dash.layout {
            DashboardLayout::Free { .. } => {
                let (dx, dy): (i32, i32) = match dir {
                    NavDir::Left => (-1, 0),
                    NavDir::Right => (1, 0),
                    NavDir::Up => (0, -1),
                    NavDir::Down => (0, 1),
                };
                self.move_cursor(dx, dy, dash);
            },
            DashboardLayout::Grid { rows } => {
                let f = match self.grid_focus {
                    Some(f) => f,
                    None => GridFocus::Row { row: 0 },
                };
                let nf = nav_focus(f, dir, rows);
                self.set_focus(dash, nf);
            },
        }
    }

    /// Focus the row of the selected card, when a card of a grid is selected.
    pub fn focus_row(&mut self, dash: &Dashboard)
        ensures
            row_focused(*old(self), *dash, *final(self)),
    {
        match self.selected_card {
            Some(i) => match dash.locate_grid_flat(i) {
                Some((r, _, _)) => {
                    self.grid_focus = Some(GridFocus::Row { row: r });
                },
                None => {},
            },
            None => {},
        }
    }

    /// Focus the column of the selected card, when a card of a grid is selected.
    pub fn focus_column(&mut self, dash: &Dashboard)
        ensures
            column_focused(*old(self), *dash, *final(self)),
    {
        match self.selected_card {
            Some(i) => match dash.locate_grid_flat(i) {
                Some((r, c, _)) => {
                    self.grid_focus = Some(GridFocus::Column { row: r, col: c });
                },
                None => {},
            },
            None => {},
        }
    }
}

/// `x` inserted into `s` before its last three entries (at the start when it
/// has fewer).
pub open spec fn before_last_three<T>(s: Seq<T>, x: Seq<T>) -> Seq<T> {
    let p = if s.len() >= 3 { s.len() - 3 } else { 0 };
    s.take(p) + x + s.skip(p)
}

/// The menu of a card, with the grid moves on a grid dashboard and the
/// per-entry override on entity lists, before the last three entries.
pub open spec fn card_menu_for(card: Card, is_grid: bool) -> Seq<(MenuAction, Seq<char>)> {
    let base = card_menu_spec(card);
    let with_grid = if is_grid {
        before_last_three(
            base,
            seq![
                (MenuAction::MoveCardUpInColumn, "Move up in column"@),
                (MenuAction::MoveCardDownInColumn, "Move down in column"@),
                (MenuAction::MoveToColumn, "Move to column…"@),
            ],
        )
    } else {
        base
    };
    if card.kind is EntityList || card.kind is FilteredEntityList {
        before_last_three(with_grid, seq![(MenuAction::EditEntryOverride, "Override entry…"@)])
    } else {
        with_grid
    }
}

/// The context menu the editor opens: for a focused row or column of a grid,
/// theirs; else for the selected card, the card's; else the dashboard's.
pub open spec fn menu_for(a: EditorState, d: Dashboard) -> (MenuContext, Seq<(MenuAction, Seq<char>)>) {
    let is_grid = d.layout is Grid;
    let fl = flat_cards(d);
    let card_menu = match a.selected_card {
        Some(i) if i < fl.len() => Some((MenuContext::Card(i), card_menu_for(fl[i as int], is_grid))),
        _ => None,
    };
    let dash_menu = (
        MenuContext::Dashboard,
        seq![
            (MenuAction::RenameDashboard, "Rename dashboard"@),
            if is_grid {
                (MenuAction::AddRow, "Add row"@)
            } else {
                (MenuAction::ResizeGrid, "Grid size (cols × rows)"@)
            },
            (MenuAction::DeleteDashboard, "Delete dashboard"@),
        ],
    );
    match (is_grid, a.grid_focus) {
        (true, Some(GridFocus::Row { row })) => (
            MenuContext::Row(row),
            seq![
                (MenuAction::SetRowHeight, "Set row height"@),
                (MenuAction::ToggleRowFillHeight, "Toggle fill_height default"@),
                (MenuAction::AddColumn, "Add column"@),
                (MenuAction::MoveRowUp, "Move row up"@),
                (MenuAction::MoveRowDown, "Move row down"@),
                (MenuAction::RemoveRow, "Remove row"@),
            ],
        ),
        (true, Some(GridFocus::Column { row, col })) => (
            MenuContext::GridColumn(row, col),
            seq![
                (MenuAction::SetColumnFillHeight, "Toggle fill_height"@),
                (MenuAction::MoveColumnLeft, "Move column left"@),
                (MenuAction::MoveColumnRight, "Move column right"@),
                (MenuAction::RemoveColumn, "Remove column"@),
            ],
        ),
        _ => match card_menu {
            Some(m) => m,
            None => dash_menu,
        },
    }
}

fn insert_before_last_three(items: &mut Vec<MenuItem>, extra: Vec<MenuItem>)
    ensures
        menu_view(final(items)@) == before_last_three(menu_view(old(items)@), menu_view(extra@)),
{
    let n = items.len();
    let p = if n >= 3 {
        n - 3
    } else {
        0
    };
    let ghost before = items@;
    let mut j: usize = 0;
    while j < extra.len()
        invariant
            p <= before.len(),
            j <= extra@.len(),
            items@ == before.take(p as int) + extra@.take(j as int) + before.skip(p as int),
            items@.len() == before.len() + j,
        decreases extra.len() - j,
    {
        let cur: usize = items.len();
        assert(p + j <= cur);
        items.insert(p + j, extra[j]);
        assert(items@ =~= before.take(p as int) + extra@.take(j as int + 1) + before.skip(p as int));
        j = j + 1;
    }
    assert(extra@.take(extra@.len() as int) =~= extra@);
    assert(menu_view(items@) =~= before_last_three(menu_view(before), menu_view(extra@)));
}

impl EditorState {
    /// Open the context menu for what is focused or selected.
    pub fn open_menu(&mut self, dash: &Dashboard)
        requires
            count_fits(*dash),
        ensures
            menu_opened(*old(self), *dash, *final(self)),
    {
        let is_grid = !dash.is_free();
        let ghost m = menu_for(*self, *dash);
        let card_menu: Option<(MenuContext, Vec<MenuItem>)> = match self.selected_card {
            Some(i) => match dash.card(i) {
                Some(card) => {
                    let mut items = card_menu_items(card);
                    if is_grid {
                        insert_before_last_three(&mut items, grid_card_extra_items());
                    }
                    match &card.kind {
                        CardKind::EntityList { .. } | CardKind::FilteredEntityList { .. } => {
                            let mut extra: Vec<MenuItem> = Vec::new();
                            extra.push(MenuItem { action: MenuAction::EditEntryOverride, label: "Override entry…" });
                            assert(menu_view(extra@) =~= seq![(MenuAction::EditEntryOverride, "Override entry…"@)]);
                            insert_before_last_three(&mut items, extra);
                        },
                        _ => {},
                    }
                    Some((MenuContext::Card(i), items))
                },
                None => None,
            },
            None => None,
        };
        let (context, items) = match (is_grid, self.grid_focus) {
            (true, Some(GridFocus::Row { row })) => (MenuContext::Row(row), row_menu_items()),
            (true, Some(GridFocus::Column { row, col })) => (MenuContext::GridColumn(row, col), column_menu_items()),
            _ => match card_menu {
                Some(cm) => cm,
                None => (MenuContext::Dashboard, dashboard_menu_items(is_grid)),
            },
        };
        self.mode = EditorMode::Menu { context, items, selected: 0 };
    }
}

} // verus!
