//! Where a key goes on the main screen, and scrolling a grid column.
use vstd::prelude::*;

use crate::dashboard::{Dashboard, DashboardLayout};
use crate::flat::{locate, rows_flat};
use crate::layout::{find_scroll, scroll_for, ColScroll};
use crate::wizard::Key;

verus! {

/// What a key does on the main screen.
#[derive(Clone, Copy, PartialEq, Eq, Structural, Debug)]
pub enum Route {
    /// Close the help screen (any key does).
    DismissHelp,
    ShowHelp,
    /// The open overlay handles the key.
    Overlay,
    /// The editor handles the key.
    Editor,
    /// The selected media player handles the key.
    Media,
    Quit,
    /// Move the selection by this many rows.
    MoveSelection(i32),
    /// Scroll the focused grid column (down when `true`), or else move the
    /// selection ten rows.
    ScrollOrMove(bool),
    /// Move between cards sideways.
    MoveCard(i32),
    /// Select the first card (`false`) or the last (`true`).
    SelectEnd(bool),
    OpenInstances,
    OpenEntitySearch,
    EnterEditor,
    NewDashboard,
    /// Show the dashboard at this index.
    ShowDashboard(usize),
    /// Run the default action of the selected entity.
    DefaultAction,
    /// Show the selected entity's details.
    Details,
    Nothing,
}

/// The route of `key` given whether help is shown, an overlay is open, the
/// editor is open, the selected card is a media player with a service for
/// the key, and how many dashboards there are.
pub open spec fn route_spec(key: Key, help: bool, overlay: bool, editor: bool, media: bool, n_dashboards: int) -> Route {
    if help {
        Route::DismissHelp
    } else if key == Key::Char('?') && !overlay && !editor {
        Route::ShowHelp
    } else if overlay {
        Route::Overlay
    } else if editor {
        Route::Editor
    } else if key is Char && media {
        Route::Media
    } else {
        match key {
            Key::Esc => Route::Quit,
            Key::Up | Key::Char('k') => Route::MoveSelection(-1i32),
            Key::Down | Key::Char('j') => Route::MoveSelection(1i32),
            Key::PageUp => Route::ScrollOrMove(false),
            Key::PageDown => Route::ScrollOrMove(true),
            Key::Left | Key::Char('h') => Route::MoveCard(-1i32),
            Key::Right | Key::Char('l') => Route::MoveCard(1i32),
            Key::Home => Route::SelectEnd(false),
            Key::End => Route::SelectEnd(true),
            Key::Char('i') => Route::OpenInstances,
            Key::Char('E') => Route::OpenEntitySearch,
            Key::Char('e') => Route::EnterEditor,
            Key::Char('n') => Route::NewDashboard,
            Key::Char(c) => if '1' <= c && c <= '9' && (c as u32) - 49 < n_dashboards {
                Route::ShowDashboard(((c as u32) - 49) as usize)
            } else if c == 'D' {
                Route::Details
            } else {
                Route::Nothing
            },
            Key::Enter => Route::DefaultAction,
            _ => Route::Nothing,
        }
    }
}

/// Where a key goes on the main screen.
pub fn route_key(key: Key, help: bool, overlay: bool, editor: bool, media: bool, n_dashboards: usize) -> (r: Route)
    ensures
        r == route_spec(key, help, overlay, editor, media, n_dashboards as int),
{
    if help {
        return Route::DismissHelp;
    }
    if key == Key::Char('?') && !overlay && !editor {
        return Route::ShowHelp;
    }
    if overlay {
        return Route::Overlay;
    }
    if editor {
        return Route::Editor;
    }
    if media {
        if let Key::Char(_) = key {
            return Route::Media;
        }
    }
    match key {
        Key::Esc => Route::Quit,
        Key::Up | Key::Char('k') => Route::MoveSelection(-1i32),
        Key::Down | Key::Char('j') => Route::MoveSelection(1i32),
        Key::PageUp => Route::ScrollOrMove(false),
        Key::PageDown => Route::ScrollOrMove(true),
        Key::Left | Key::Char('h') => Route::MoveCard(-1i32),
        Key::Right | Key::Char('l') => Route::MoveCard(1i32),
        Key::Home => Route::SelectEnd(false),
        Key::End => Route::SelectEnd(true),
        Key::Char('i') => Route::OpenInstances,
        Key::Char('E') => Route::OpenEntitySearch,
        Key::Char('e') => Route::EnterEditor,
        Key::Char('n') => Route::NewDashboard,
        Key::Char(c) => {
            if '1' <= c && c <= '9' && (((c as u32) - 49) as usize) < n_dashboards {
                Route::ShowDashboard(((c as u32) - 49) as usize)
            } else if c == 'D' {
                Route::Details
            } else {
                Route::Nothing
            }
        },
        Key::Enter => Route::DefaultAction,
        _ => Route::Nothing,
    }
}

// ── scrolling a grid column ─────────────────────────────────────────────────

/// The column (row, column) that holds flat card `sel` of a grid dashboard.
pub open spec fn column_of(d: Dashboard, sel: usize) -> Option<(usize, usize)> {
    match d.layout {
        DashboardLayout::Grid { rows } => if sel < rows_flat(rows@).len() {
            let (r, c, _) = locate(rows@, sel as int)->0;
            Some((r as usize, c as usize))
        } else {
            None
        },
        _ => None,
    }
}

/// How far one scroll moves: half the terminal's height, at least one line.
pub open spec fn scroll_step(term_height: u16) -> int {
    if term_height / 2 > 0 {
        (term_height / 2) as int
    } else {
        1
    }
}

/// A column's offset after scrolling `direction` steps from `current`
/// (never above the top; kept to 16 bits, as the offset is stored).
pub open spec fn scrolled_offset(current: u16, direction: i32, term_height: u16) -> u16 {
    let x = current + direction * scroll_step(term_height);
    (if x < 0 { 0 } else { x % 65536 }) as u16
}

/// `s2` records `offset` for column (`r`, `c`) and keeps every other column's.
pub open spec fn scroll_set(s: Seq<ColScroll>, r: usize, c: usize, offset: u16, s2: Seq<ColScroll>) -> bool {
    &&& scroll_for(s2, r as int, c as int) == offset
    &&& forall|r2: int, c2: int| !(r2 == r && c2 == c) ==> scroll_for(s2, r2, c2) == scroll_for(s, r2, c2)
}

/// Record `offset` for column (`r`, `c`).
pub fn set_scroll(s: &mut Vec<ColScroll>, r: usize, c: usize, offset: u16)
    ensures
        scroll_set(old(s)@, r, c, offset, final(s)@),
{
    let ghost before = s@;
    s.insert(0, ColScroll { row: r, col: c, offset });
    assert(s@.drop_first() =~= before);
}

/// Scroll the column holding the selected card `sel` of grid dashboard `d`
/// by `direction` steps; `false` (and nothing changes) when `d` is no grid
/// or `sel` no card of it.
pub fn scroll_grid_column(scrolls: &mut Vec<ColScroll>, d: &Dashboard, sel: usize, direction: i32, term_height: u16) -> (r: bool)
    requires
        i32::MIN <= direction * scroll_step(term_height) <= i32::MAX,
    ensures
        r == column_of(*d, sel) is Some,
        match column_of(*d, sel) {
            Some((ri, ci)) => scroll_set(
                old(scrolls)@,
                ri,
                ci,
                scrolled_offset(scroll_for(old(scrolls)@, ri as int, ci as int), direction, term_height),
                final(scrolls)@,
            ),
            None => final(scrolls)@ == old(scrolls)@,
        },
{
    let (ri, ci) = match d.locate_grid_flat(sel) {
        Some((ri, ci, _)) => (ri, ci),
        None => return false,
    };
    let half = term_height / 2;
    let step: i64 = if half > 0 {
        half as i64
    } else {
        1
    };
    let current = find_scroll(scrolls, ri, ci);
    let x: i64 = current as i64 + direction as i64 * step;
    let v: u16 = if x < 0 {
        0
    } else {
        (x % 65536) as u16
    };
    set_scroll(scrolls, ri, ci, v);
    true
}

} // verus!
