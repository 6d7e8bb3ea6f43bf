//! The editor's keys when no step is open: moving around, resizing and
//! moving free cards, selecting, opening the add-card flow or the menu,
//! undo, save, and leaving.
use vstd::prelude::*;

use crate::dashboard::{Dashboard, DashboardLayout, NavDir};
use crate::editor::{
    placement_grid, positions_fit, selected_at_cursor, selection_moved_to_cursor, selection_resized, snapshot_stack, undone,
    EditorMode, EditorState, GridFocus,
};
use crate::flat::{flat_cards, locate, rows_flat};
use crate::focus::{column_focused, menu_opened, navigated, row_focused};
use crate::grid_ops::count_fits;
use crate::wizard::Key;

verus! {

/// What a browse key asks of the caller.
#[derive(Debug)]
pub enum BrowseResult {
    /// A step is open; nothing changed.
    NotMine,
    /// The key was handled.
    Done,
    /// Leave the editor.
    Exit,
    /// Save the dashboards.
    Save,
}

/// The focus Esc goes back to from a row or column: the selected card, when
/// it is a card of the grid.
pub open spec fn focus_back(a: EditorState, d: Dashboard) -> Option<GridFocus> {
    match (a.selected_card, d.layout) {
        (Some(i), DashboardLayout::Grid { rows }) if i < rows_flat(rows@).len() => {
            let (r, c, p) = locate(rows@, i as int)->0;
            Some(GridFocus::Card { row: r as usize, col: c as usize, pos_in_col: p as usize })
        },
        _ => None,
    }
}

/// `m` is editor `a` after recording dashboard `d` on its undo stack.
pub open spec fn after_snapshot(a: EditorState, d: Dashboard, m: EditorState) -> bool {
    m == (EditorState { undo_stack: m.undo_stack, ..a }) && snapshot_stack(a.undo_stack@, d, m.undo_stack@)
}

/// A resize of the selected free card can be done without overflow.
pub open spec fn resize_ok(a: EditorState, d: Dashboard, dw: i32, dh: i32) -> bool {
    a.selected_card matches Some(i) ==> (i < flat_cards(d).len() ==> (flat_cards(d)[i as int].pos matches Some(p) ==> ({
        let (gc, gr) = placement_grid(d);
        p.col <= gc && p.row <= gr && p.w + dw <= i32::MAX && p.h + dh <= i32::MAX
    })))
}

/// The resize a key asks for: `H`/`L` narrow or widen, `K`/`J` shorten or lengthen.
pub open spec fn resize_of(key: Key) -> Option<(i32, i32)> {
    match key {
        Key::Char('H') => Some((-1i32, 0i32)),
        Key::Char('L') => Some((1i32, 0i32)),
        Key::Char('K') => Some((0i32, -1i32)),
        Key::Char('J') => Some((0i32, 1i32)),
        _ => None,
    }
}

/// The direction a key moves in: `h`/`l`/`k`/`j` or the arrows.
pub open spec fn nav_of(key: Key) -> Option<NavDir> {
    match key {
        Key::Char('h') | Key::Left => Some(NavDir::Left),
        Key::Char('l') | Key::Right => Some(NavDir::Right),
        Key::Char('k') | Key::Up => Some(NavDir::Up),
        Key::Char('j') | Key::Down => Some(NavDir::Down),
        _ => None,
    }
}

/// A browse key can be handled without a panic or an overflow.
pub open spec fn browse_ok(a: EditorState, d: Dashboard, key: Key) -> bool {
    &&& count_fits(d)
    &&& (key == Key::Enter || key == Key::Char(' ')) ==> positions_fit(flat_cards(d))
    &&& resize_of(key) matches Some((dw, dh)) ==> resize_ok(a, d, dw, dh)
}

/// What a key does to editor `a` and dashboard `d` when no step is open.
pub open spec fn browse_spec(a: EditorState, d: Dashboard, key: Key, b: EditorState, e: Dashboard, r: BrowseResult) -> bool {
    if !(a.mode is Browse) {
        r is NotMine && b == a && e == d
    } else if nav_of(key) is Some {
        navigated(a, d, nav_of(key)->0, b) && e == d && r is Done
    } else if resize_of(key) is Some {
        let (dw, dh) = resize_of(key)->0;
        r is Done && exists|m: EditorState| #[trigger] after_snapshot(a, d, m) && selection_resized(m, d, dw, dh, b, e)
    } else {
        match key {
            Key::Esc => e == d && match a.grid_focus {
                Some(GridFocus::Row { .. }) | Some(GridFocus::Column { .. }) => b == (EditorState {
                    grid_focus: focus_back(a, d),
                    ..a
                }) && r is Done,
                _ => if a.dirty {
                    b == (EditorState { mode: EditorMode::ConfirmExit, ..a }) && r is Done
                } else {
                    b == a && r is Exit
                },
            },
            Key::Char('R') => row_focused(a, d, b) && e == d && r is Done,
            Key::Char('C') => column_focused(a, d, b) && e == d && r is Done,
            Key::Enter => r is Done && if a.selected_card is Some {
                exists|m: EditorState, m2: EditorState|
                    #[trigger] after_snapshot(a, d, m) && #[trigger] selection_moved_to_cursor(m, d, m2, e) && b == (
                    EditorState { selected_card: None, ..m2 })
            } else {
                selected_at_cursor(a, d, b) && e == d
            },
            Key::Char(' ') => selected_at_cursor(a, d, b) && e == d && r is Done,
            Key::Char('a') => b == (EditorState { mode: EditorMode::PickingType { selected: 0 }, ..a }) && e == d && r is Done,
            Key::Char('m') | Key::Char('M') => menu_opened(a, d, b) && e == d && r is Done,
            Key::Char('d') => e == d && r is Done && if a.selected_card is Some {
                b == (EditorState { mode: EditorMode::ConfirmDelete, ..a })
            } else {
                b == a
            },
            Key::Char('u') => undone(a, d, b, e, a.undo_stack@.len() > 0) && r is Done,
            Key::Char('s') => b == a && e == d && r is Save,
            _ => b == a && e == d && r is Done,
        }
    }
}

impl EditorState {
    /// Handle a key when no step is open. With a step open nothing changes
    /// and the result is `NotMine`.
    pub fn browse_key(&mut self, key: Key, dash: &mut Dashboard) -> (r: BrowseResult)
        requires
            browse_ok(*old(self), *old(dash), key),
        ensures
            browse_spec(*old(self), *old(dash), key, *final(self), *final(dash), r),
    {
        if !matches!(self.mode, EditorMode::Browse) {
            return BrowseResult::NotMine;
        }
        let ghost a = *self;
        let ghost d0 = *dash;
        match key {
            Key::Char('h') | Key::Left => {
                self.navigate(NavDir::Left, dash);
                BrowseResult::Done
            },
            Key::Char('l') | Key::Right => {
                self.navigate(NavDir::Right, dash);
                BrowseResult::Done
            },
            Key::Char('k') | Key::Up => {
                self.navigate(NavDir::Up, dash);
                BrowseResult::Done
            },
            Key::Char('j') | Key::Down => {
                self.navigate(NavDir::Down, dash);
                BrowseResult::Done
            },
            Key::Char('H') | Key::Char('L') | Key::Char('K') | Key::Char('J') => {
                let (dw, dh): (i32, i32) = match key {
                    Key::Char('H') => (-1, 0),
                    Key::Char('L') => (1, 0),
                    Key::Char('K') => (0, -1),
                    _ => (0, 1),
                };
                self.snapshot(dash);
                let ghost m = *self;
                assert(after_snapshot(a, d0, m));
                self.resize_selected(dw, dh, dash);
                BrowseResult::Done
            },
            Key::Esc => {
                match self.grid_focus {
                    Some(GridFocus::Row { .. }) | Some(GridFocus::Column { .. }) => {
                        let back = match self.selected_card {
                            Some(i) => match dash.locate_grid_flat(i) {
                                Some((r, c, p)) => Some(GridFocus::Card { row: r, col: c, pos_in_col: p }),
                                None => None,
                            },
                            None => None,
                        };
                        self.grid_focus = back;
                        return BrowseResult::Done;
                    },
                    _ => {},
                }
                if self.dirty {
                    self.mode = EditorMode::ConfirmExit;
                    BrowseResult::Done
                } else {
                    BrowseResult::Exit
                }
            },
            Key::Char('R') => {
                self.focus_row(dash);
                BrowseResult::Done
            },
            Key::Char('C') => {
                self.focus_column(dash);
                BrowseResult::Done
            },
            Key::Enter => {
                if self.selected_card.is_some() {
                    self.snapshot(dash);
                    let ghost m = *self;
                    assert(after_snapshot(a, d0, m));
                    self.move_selected_to_cursor(dash);
                    let ghost m2 = *self;
                    assert(selection_moved_to_cursor(m, d0, m2, *dash));
                    self.selected_card = None;
                } else {
                    self.select_at_cursor(dash);
                }
                BrowseResult::Done
            },
            Key::Char(' ') => {
                self.select_at_cursor(dash);
                BrowseResult::Done
            },
            Key::Char('a') => {
                self.mode = EditorMode::PickingType { selected: 0 };
                BrowseResult::Done
            },
            Key::Char('m') | Key::Char('M') => {
                self.open_menu(dash);
                BrowseResult::Done
            },
            Key::Char('d') => {
                if self.selected_card.is_some() {
                    self.mode = EditorMode::ConfirmDelete;
                }
                BrowseResult::Done
            },
            Key::Char('u') => {
                self.undo(dash);
                BrowseResult::Done
            },
            Key::Char('s') => BrowseResult::Save,
            _ => BrowseResult::Done,
        }
    }
}

} // verus!
