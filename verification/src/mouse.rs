//! The mouse on the editor's free canvas: a press selects the card under it,
//! a drag moves the selected card, a release ends the drag.
use vstd::prelude::*;

use crate::dashboard::Dashboard;
use crate::flat::flat_cards;
use crate::editor::{positions_fit, selected_at_cursor, selection_moved_to_cursor, snapshot_stack, EditorState};

verus! {

/// What the left mouse button did.
#[derive(Clone, Copy, PartialEq, Eq, Structural, Debug)]
pub enum MouseKind {
    Press,
    Drag,
    Release,
    /// Anything else (another button, a scroll, a move).
    Other,
}

/// Editor `a` with its cursor on (`col`, `row`).
pub open spec fn at_cell(a: EditorState, col: u16, row: u16) -> EditorState {
    EditorState { cursor_col: col, cursor_row: row, ..a }
}

/// `b`, `e` and `drag2` are editor `a`, dashboard `d` and the drag origin
/// `drag` after mouse event `kind` on cell (`col`, `row`): the cursor goes to
/// the cell; a press selects the card there and starts a drag from it; a drag
/// with a card selected records an undo snapshot and moves that card to the
/// cell; a release ends the drag.
pub open spec fn mouse_applied(
    a: EditorState,
    d: Dashboard,
    drag: Option<(u16, u16)>,
    col: u16,
    row: u16,
    kind: MouseKind,
    b: EditorState,
    e: Dashboard,
    drag2: Option<(u16, u16)>,
) -> bool {
    let c = at_cell(a, col, row);
    match kind {
        MouseKind::Press => selected_at_cursor(c, d, b) && e == d && drag2 == Some((col, row)),
        MouseKind::Drag => drag2 == drag && if a.selected_card is Some {
            exists|m: EditorState|
                #[trigger] snapshot_stack(c.undo_stack@, d, m.undo_stack@) && m == (EditorState { undo_stack: m.undo_stack, ..c })
                    && selection_moved_to_cursor(m, d, b, e)
        } else {
            b == c && e == d
        },
        MouseKind::Release => b == c && e == d && drag2 is None,
        MouseKind::Other => b == c && e == d && drag2 == drag,
    }
}

impl EditorState {
    /// Apply a mouse event on cell (`col`, `row`) of the free canvas.
    pub fn mouse(&mut self, dash: &mut Dashboard, col: u16, row: u16, kind: MouseKind, drag: &mut Option<(u16, u16)>)
        requires
            positions_fit(flat_cards(*old(dash))),
        ensures
            mouse_applied(*old(self), *old(dash), *old(drag), col, row, kind, *final(self), *final(dash), *final(drag)),
    {
        self.cursor_col = col;
        self.cursor_row = row;
        match kind {
            MouseKind::Press => {
                self.select_at_cursor(dash);
                *drag = Some((col, row));
            },
            MouseKind::Drag => {
                if self.selected_card.is_some() {
                    self.snapshot(dash);
                    let ghost m = *self;
                    self.move_selected_to_cursor(dash);
                    assert(snapshot_stack(at_cell(*old(self), col, row).undo_stack@, *old(dash), m.undo_stack@));
                }
            },
            MouseKind::Release => {
                *drag = None;
            },
            MouseKind::Other => {},
        }
    }
}

} // verus!
