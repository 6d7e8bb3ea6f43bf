//! The editor's steps that change an existing card or the dashboard: titles,
//! windows, metrics, units, formats, time zones and sizes of cards, the
//! dashboard's name and grid, deleting a card, and leaving the editor.
use vstd::prelude::*;

use crate::builder::opt_view;
use crate::card_edit::{card_edited, CardEdit};
use crate::dashboard::{Card, CardKind, CardSize, Dashboard, DashboardLayout, Grid, StatsMetric};
use crate::editor::{same_view_state, snapshot_stack, with_kind, with_title, EditorMode, EditorState};
use crate::flat::flat_cards;
use crate::grid_ops::same_shape;
use crate::refresh::{parse_window_hours, window_hours_spec, window_ok};
use crate::strings::{char_len, parse_u32, parse_u32_spec, to_owned_string, trim, trim_str};
use crate::wizard::{
    metric_at, metric_selection, moved_selection, trimmed_opt, trimmed_or, trimmed_or_none, type_digit_key, type_key,
    typed, typed_digits, Key,
};

verus! {

/// What a step of an edit finishes.
#[derive(Debug)]
pub enum EditFinish {
    Nothing,
    /// Edit the card at `idx`, after an undo snapshot when `snapshot` is set.
    Card { idx: usize, edit: CardEdit, snapshot: bool },
    /// Give the card at `idx` this title.
    Retitle { idx: usize, title: Option<String> },
    /// Rename the dashboard.
    Rename(String),
    /// Resize the free canvas.
    ResizeGrid { cols: u16, rows: u16 },
    /// Delete the selected card.
    DeleteSelected,
    /// Leave the editor.
    Exit,
}

pub struct EditStep {
    pub mode: EditorMode,
    pub finish: EditFinish,
}

/// A field edited in place: the step stays, its text field typed into.
pub open spec fn edits_field(r: EditStep) -> bool {
    r.finish is Nothing
}

pub open spec fn u16_from(buf: Seq<char>) -> u16 {
    match parse_u32_spec(buf) {
        Some(n) => if n <= u16::MAX { n as u16 } else { 0 },
        None => 0,
    }
}

fn parse_u16_or_zero(s: &str) -> (r: u16)
    ensures
        r == u16_from(s@),
{
    match parse_u32(s) {
        Some(n) => if n <= 65535 {
            n as u16
        } else {
            0
        },
        None => 0,
    }
}

/// The sizes a card can take, smallest first.
pub open spec fn size_index(s: CardSize) -> int {
    match s {
        CardSize::Small => 0,
        CardSize::Normal => 1,
        CardSize::Large => 2,
    }
}

pub open spec fn size_at(i: int) -> CardSize {
    if i == 0 {
        CardSize::Small
    } else if i == 1 {
        CardSize::Normal
    } else {
        CardSize::Large
    }
}

/// The size picker after a key: Up (or `k`) picks the next smaller size,
/// Down (or `j`) the next larger one.
pub open spec fn size_after(s: CardSize, key: Key) -> CardSize {
    match key {
        Key::Up | Key::Char('k') => if size_index(s) > 0 { size_at(size_index(s) - 1) } else { s },
        Key::Down | Key::Char('j') => if size_index(s) < 2 { size_at(size_index(s) + 1) } else { s },
        _ => s,
    }
}

/// What a key does in one edit step (and nothing holds outside them).
pub open spec fn edit_step_spec(m: EditorMode, key: Key, r: EditStep) -> bool {
    match m {
        EditorMode::RenamingCard { card_idx, buffer } => match key {
            Key::Esc => r.mode is Browse && edits_field(r),
            Key::Enter => r.mode is Browse && (r.finish matches EditFinish::Retitle { idx, title } && idx == card_idx
                && opt_view(title) == trimmed_opt(buffer@)),
            _ => edits_field(r) && (r.mode matches EditorMode::RenamingCard { card_idx: i, buffer: b } && i == card_idx
                && b@ == typed(buffer@, key)),
        },
        EditorMode::EditingWindow { card_idx, buffer } => match key {
            Key::Esc => r.mode is Browse && edits_field(r),
            Key::Enter => r.mode is Browse && if trim(buffer@).len() == 0 {
                edits_field(r)
            } else {
                r.finish matches EditFinish::Card { idx, edit: CardEdit::GraphWindow(w), snapshot } && idx == card_idx && w@
                    == trim(buffer@) && !snapshot
            },
            _ => edits_field(r) && (r.mode matches EditorMode::EditingWindow { card_idx: i, buffer: b } && i == card_idx
                && b@ == typed(buffer@, key)),
        },
        EditorMode::StatsEditMetric { card_idx, selected } => match key {
            Key::Esc => r.mode is Browse && edits_field(r),
            Key::Enter => r.mode is Browse && (r.finish matches EditFinish::Card { idx, edit: CardEdit::StatsMetric(mt), snapshot }
                && idx == card_idx && mt == metric_at(selected as int) && snapshot),
            _ => edits_field(r) && r.mode == (EditorMode::StatsEditMetric { card_idx, selected: metric_selection(selected, key) }),
        },
        EditorMode::StatsEditWindow { card_idx, buf } => match key {
            Key::Esc => r.mode is Browse && edits_field(r),
            Key::Enter => r.mode is Browse && (r.finish matches EditFinish::Card { idx, edit: CardEdit::StatsWindow(w), snapshot }
                && idx == card_idx && w@ == trimmed_or(buf@, "1h"@) && snapshot),
            _ => edits_field(r) && (r.mode matches EditorMode::StatsEditWindow { card_idx: i, buf: b } && i == card_idx && b@
                == typed(buf@, key)),
        },
        EditorMode::StatsEditUnit { card_idx, buf } => match key {
            Key::Esc => r.mode is Browse && edits_field(r),
            Key::Enter => r.mode is Browse && (r.finish matches EditFinish::Card { idx, edit: CardEdit::StatsUnit(u), snapshot }
                && idx == card_idx && opt_view(u) == trimmed_opt(buf@) && snapshot),
            _ => edits_field(r) && (r.mode matches EditorMode::StatsEditUnit { card_idx: i, buf: b } && i == card_idx && b@
                == typed(buf@, key)),
        },
        EditorMode::ClockEditFormat { card_idx, buf } => match key {
            Key::Esc => r.mode is Browse && edits_field(r),
            Key::Enter => r.mode is Browse && (r.finish matches EditFinish::Card { idx, edit: CardEdit::ClockFormat(f), snapshot }
                && idx == card_idx && f@ == trimmed_or(buf@, "%H:%M:%S"@) && snapshot),
            _ => edits_field(r) && (r.mode matches EditorMode::ClockEditFormat { card_idx: i, buf: b } && i == card_idx && b@
                == typed(buf@, key)),
        },
        EditorMode::ClockEditTimezone { card_idx, buf } => match key {
            Key::Esc => r.mode is Browse && edits_field(r),
            Key::Enter => r.mode is Browse && (r.finish matches EditFinish::Card { idx, edit: CardEdit::ClockTimezone(z), snapshot }
                && idx == card_idx && opt_view(z) == trimmed_opt(buf@) && snapshot),
            _ => edits_field(r) && (r.mode matches EditorMode::ClockEditTimezone { card_idx: i, buf: b } && i == card_idx && b@
                == typed(buf@, key)),
        },
        EditorMode::PickCardSize { card_idx, current } => match key {
            Key::Esc => r.mode is Browse && edits_field(r),
            Key::Enter => r.mode is Browse && (r.finish matches EditFinish::Card { idx, edit: CardEdit::Size(sz), snapshot }
                && idx == card_idx && sz == current && snapshot),
            _ => edits_field(r) && r.mode == (EditorMode::PickCardSize { card_idx, current: size_after(current, key) }),
        },
        EditorMode::Renaming { buffer } => match key {
            Key::Esc => r.mode is Browse && edits_field(r),
            Key::Enter => r.mode is Browse && if trim(buffer@).len() == 0 {
                edits_field(r)
            } else {
                r.finish matches EditFinish::Rename(n) && n@ == trim(buffer@)
            },
            _ => edits_field(r) && (r.mode matches EditorMode::Renaming { buffer: b } && b@ == typed(buffer@, key)),
        },
        EditorMode::ResizingGrid { cols_buffer, rows_buffer, focus_rows } => match key {
            Key::Esc => r.mode is Browse && edits_field(r),
            Key::Tab => edits_field(r) && (r.mode matches EditorMode::ResizingGrid { cols_buffer: c, rows_buffer: rw, focus_rows: f }
                && c == cols_buffer && rw == rows_buffer && f == !focus_rows),
            Key::Enter => r.mode is Browse && {
                let cols = u16_from(cols_buffer@);
                let rows = u16_from(rows_buffer@);
                if cols > 0 && rows > 0 {
                    r.finish == EditFinish::ResizeGrid { cols, rows }
                } else {
                    edits_field(r)
                }
            },
            _ => edits_field(r) && (r.mode matches EditorMode::ResizingGrid { cols_buffer: c, rows_buffer: rw, focus_rows: f }
                && f == focus_rows && if focus_rows {
                c == cols_buffer && rw@ == typed_digits(rows_buffer@, key)
            } else {
                rw == rows_buffer && c@ == typed_digits(cols_buffer@, key)
            }),
        },
        EditorMode::ConfirmDelete => match key {
            Key::Char('y') | Key::Char('Y') => r.mode is Browse && r.finish is DeleteSelected,
            Key::Char('n') | Key::Char('N') | Key::Esc => r.mode is Browse && edits_field(r),
            _ => r.mode is ConfirmDelete && edits_field(r),
        },
        EditorMode::ConfirmExit => match key {
            Key::Char('y') | Key::Char('Y') => r.mode is ConfirmExit && r.finish is Exit,
            Key::Char('n') | Key::Char('N') | Key::Esc => r.mode is Browse && edits_field(r),
            _ => r.mode is ConfirmExit && edits_field(r),
        },
        _ => false,
    }
}

/// The editor is in one of the edit steps.
pub open spec fn is_edit_step(m: EditorMode) -> bool {
    m is RenamingCard || m is EditingWindow || m is StatsEditMetric || m is StatsEditWindow || m is StatsEditUnit
        || m is ClockEditFormat || m is ClockEditTimezone || m is PickCardSize || m is Renaming || m is ResizingGrid
        || m is ConfirmDelete || m is ConfirmExit
}

fn size_step(current: CardSize, key: Key) -> (r: CardSize)
    ensures
        r == size_after(current, key),
{
    let i: u8 = match current {
        CardSize::Small => 0,
        CardSize::Normal => 1,
        CardSize::Large => 2,
    };
    let j: u8 = match key {
        Key::Up | Key::Char('k') => if i > 0 {
            i - 1
        } else {
            i
        },
        Key::Down | Key::Char('j') => if i < 2 {
            i + 1
        } else {
            i
        },
        _ => i,
    };
    if j == 0 {
        CardSize::Small
    } else if j == 1 {
        CardSize::Normal
    } else {
        CardSize::Large
    }
}

/// The next step of an edit, and what it finishes.
pub fn edit_step(m: EditorMode, key: Key) -> (r: EditStep)
    requires
        is_edit_step(m),
        m matches EditorMode::StatsEditMetric { selected, .. } ==> selected < 5,
    ensures
        edit_step_spec(m, key, r),
{
    let nothing = EditFinish::Nothing;
    match m {
        EditorMode::RenamingCard { card_idx, buffer } => match key {
            Key::Esc => EditStep { mode: EditorMode::Browse, finish: nothing },
            Key::Enter => EditStep {
                mode: EditorMode::Browse,
                finish: EditFinish::Retitle { idx: card_idx, title: trimmed_or_none(buffer.as_str()) },
            },
            _ => {
                let mut b = buffer;
                type_key(&mut b, key);
                EditStep { mode: EditorMode::RenamingCard { card_idx, buffer: b }, finish: nothing }
            },
        },
        EditorMode::EditingWindow { card_idx, buffer } => match key {
            Key::Esc => EditStep { mode: EditorMode::Browse, finish: nothing },
            Key::Enter => {
                let w = trim_str(buffer.as_str());
                if char_len(w) == 0 {
                    EditStep { mode: EditorMode::Browse, finish: nothing }
                } else {
                    EditStep {
                        mode: EditorMode::Browse,
                        finish: EditFinish::Card { idx: card_idx, edit: CardEdit::GraphWindow(to_owned_string(w)), snapshot: false },
                    }
                }
            },
            _ => {
                let mut b = buffer;
                type_key(&mut b, key);
                EditStep { mode: EditorMode::EditingWindow { card_idx, buffer: b }, finish: nothing }
            },
        },
        EditorMode::StatsEditMetric { card_idx, selected } => match key {
            Key::Esc => EditStep { mode: EditorMode::Browse, finish: nothing },
            Key::Enter => EditStep {
                mode: EditorMode::Browse,
                finish: EditFinish::Card { idx: card_idx, edit: CardEdit::StatsMetric(metric_of_index(selected)), snapshot: true },
            },
            _ => {
                let s: usize = match key {
                    Key::Up => if selected > 0 {
                        selected - 1
                    } else {
                        selected
                    },
                    Key::Down => if selected < 4 {
                        selected + 1
                    } else {
                        selected
                    },
                    Key::Char(c) => if '1' <= c && c <= '5' {
                        (c as u32 - 49) as usize
                    } else {
                        selected
                    },
                    _ => selected,
                };
                EditStep { mode: EditorMode::StatsEditMetric { card_idx, selected: s }, finish: nothing }
            },
        },
        EditorMode::StatsEditWindow { card_idx, buf } => match key {
            Key::Esc => EditStep { mode: EditorMode::Browse, finish: nothing },
            Key::Enter => EditStep {
                mode: EditorMode::Browse,
                finish: EditFinish::Card { idx: card_idx, edit: CardEdit::StatsWindow(trimmed_or_given(buf.as_str(), "1h")), snapshot: true },
            },
            _ => {
                let mut b = buf;
                type_key(&mut b, key);
                EditStep { mode: EditorMode::StatsEditWindow { card_idx, buf: b }, finish: nothing }
            },
        },
        EditorMode::StatsEditUnit { card_idx, buf } => match key {
            Key::Esc => EditStep { mode: EditorMode::Browse, finish: nothing },
            Key::Enter => EditStep {
                mode: EditorMode::Browse,
                finish: EditFinish::Card { idx: card_idx, edit: CardEdit::StatsUnit(trimmed_or_none(buf.as_str())), snapshot: true },
            },
            _ => {
                let mut b = buf;
                type_key(&mut b, key);
                EditStep { mode: EditorMode::StatsEditUnit { card_idx, buf: b }, finish: nothing }
            },
        },
        EditorMode::ClockEditFormat { card_idx, buf } => match key {
            Key::Esc => EditStep { mode: EditorMode::Browse, finish: nothing },
            Key::Enter => EditStep {
                mode: EditorMode::Browse,
                finish: EditFinish::Card {
                    idx: card_idx,
                    edit: CardEdit::ClockFormat(trimmed_or_given(buf.as_str(), "%H:%M:%S")),
                    snapshot: true,
                },
            },
            _ => {
                let mut b = buf;
                type_key(&mut b, key);
                EditStep { mode: EditorMode::ClockEditFormat { card_idx, buf: b }, finish: nothing }
            },
        },
        EditorMode::ClockEditTimezone { card_idx, buf } => match key {
            Key::Esc => EditStep { mode: EditorMode::Browse, finish: nothing },
            Key::Enter => EditStep {
                mode: EditorMode::Browse,
                finish: EditFinish::Card { idx: card_idx, edit: CardEdit::ClockTimezone(trimmed_or_none(buf.as_str())), snapshot: true },
            },
            _ => {
                let mut b = buf;
                type_key(&mut b, key);
                EditStep { mode: EditorMode::ClockEditTimezone { card_idx, buf: b }, finish: nothing }
            },
        },
        EditorMode::PickCardSize { card_idx, current } => match key {
            Key::Esc => EditStep { mode: EditorMode::Browse, finish: nothing },
            Key::Enter => EditStep {
                mode: EditorMode::Browse,
                finish: EditFinish::Card { idx: card_idx, edit: CardEdit::Size(current), snapshot: true },
            },
            _ => EditStep { mode: EditorMode::PickCardSize { card_idx, current: size_step(current, key) }, finish: nothing },
        },
        EditorMode::Renaming { buffer } => match key {
            Key::Esc => EditStep { mode: EditorMode::Browse, finish: nothing },
            Key::Enter => {
                let n = trim_str(buffer.as_str());
                if char_len(n) == 0 {
                    EditStep { mode: EditorMode::Browse, finish: nothing }
                } else {
                    EditStep { mode: EditorMode::Browse, finish: EditFinish::Rename(to_owned_string(n)) }
                }
            },
            _ => {
                let mut b = buffer;
                type_key(&mut b, key);
                EditStep { mode: EditorMode::Renaming { buffer: b }, finish: nothing }
            },
        },
        EditorMode::ResizingGrid { cols_buffer, rows_buffer, focus_rows } => match key {
            Key::Esc => EditStep { mode: EditorMode::Browse, finish: nothing },
            Key::Tab => EditStep {
                mode: EditorMode::ResizingGrid { cols_buffer, rows_buffer, focus_rows: !focus_rows },
                finish: nothing,
            },
            Key::Enter => {
                let cols = parse_u16_or_zero(cols_buffer.as_str());
                let rows = parse_u16_or_zero(rows_buffer.as_str());
                if cols > 0 && rows > 0 {
                    EditStep { mode: EditorMode::Browse, finish: EditFinish::ResizeGrid { cols, rows } }
                } else {
                    EditStep { mode: EditorMode::Browse, finish: nothing }
                }
            },
            _ => {
                let mut c = cols_buffer;
                let mut rw = rows_buffer;
                if focus_rows {
                    type_digit_key(&mut rw, key);
                } else {
                    type_digit_key(&mut c, key);
                }
                EditStep { mode: EditorMode::ResizingGrid { cols_buffer: c, rows_buffer: rw, focus_rows }, finish: nothing }
            },
        },
        EditorMode::ConfirmDelete => match key {
            Key::Char('y') | Key::Char('Y') => EditStep { mode: EditorMode::Browse, finish: EditFinish::DeleteSelected },
            Key::Char('n') | Key::Char('N') | Key::Esc => EditStep { mode: EditorMode::Browse, finish: nothing },
            _ => EditStep { mode: EditorMode::ConfirmDelete, finish: nothing },
        },
        _ => match key {
            Key::Char('y') | Key::Char('Y') => EditStep { mode: EditorMode::ConfirmExit, finish: EditFinish::Exit },
            Key::Char('n') | Key::Char('N') | Key::Esc => EditStep { mode: EditorMode::Browse, finish: nothing },
            _ => EditStep { mode: EditorMode::ConfirmExit, finish: nothing },
        },
    }
}

fn metric_of_index(i: usize) -> (r: StatsMetric)
    ensures
        r == metric_at(i as int),
{
    if i == 0 {
        StatsMetric::Avg
    } else if i == 1 {
        StatsMetric::Min
    } else if i == 2 {
        StatsMetric::Max
    } else if i == 3 {
        StatsMetric::Sum
    } else {
        StatsMetric::Count
    }
}

fn trimmed_or_given(buf: &str, dflt: &str) -> (r: String)
    ensures
        r@ == trimmed_or(buf@, dflt@),
{
    let t = trim_str(buf);
    if char_len(t) == 0 {
        to_owned_string(dflt)
    } else {
        to_owned_string(t)
    }
}

/// What an edit key asks of the caller.
#[derive(Debug)]
pub enum EditResult {
    /// The editor is in no edit step; nothing changed.
    NotMine,
    /// The key was handled.
    Done,
    /// Leave the editor.
    Exit,
    /// The key was handled; fetch `hours` of history for `entity` of `instance`.
    FetchHistory { instance: String, entity: String, hours: u32 },
}

/// The history a graph card needs after its window changed: its first
/// series (or legacy entity), over `hours`.
pub open spec fn graph_refetch(c: Card, hours: int) -> Option<(Seq<char>, Seq<char>, int)> {
    match c.kind {
        CardKind::Graph { instance, entity, entities, .. } => if entities@.len() > 0 {
            Some((instance@, entities@[0].entity@, hours))
        } else {
            match entity {
                Some(e) => Some((instance@, e@, hours)),
                None => None,
            }
        },
        _ => None,
    }
}

/// Editor `b`, dashboard `e` and result `r` are what finishing edit step
/// `st` gives for editor `a` and dashboard `d`.
pub open spec fn edit_applied(a: EditorState, d: Dashboard, st: EditStep, b: EditorState, e: Dashboard, r: EditResult) -> bool {
    let fl = flat_cards(d);
    match st.finish {
        EditFinish::Nothing => b == (EditorState { mode: st.mode, ..a }) && e == d && r is Done,
        EditFinish::Card { idx, edit, snapshot } => {
            &&& if snapshot {
                snapshot_stack(a.undo_stack@, d, b.undo_stack@)
            } else {
                b.undo_stack == a.undo_stack
            }
            &&& b == (EditorState { mode: st.mode, undo_stack: b.undo_stack, dirty: true, ..a })
            &&& same_shape(d, e)
            &&& idx < fl.len() ==> flat_cards(e) == fl.update(idx as int, flat_cards(e)[idx as int]) && card_edited(
                fl[idx as int],
                edit,
                flat_cards(e)[idx as int],
            )
            &&& idx >= fl.len() ==> e == d
            &&& match edit {
                CardEdit::GraphWindow(w) => match (if idx < fl.len() {
                    graph_refetch(fl[idx as int], window_hours_spec(w@))
                } else {
                    None
                }) {
                    Some((i, en, h)) => r matches EditResult::FetchHistory { instance, entity, hours } && instance@ == i
                        && entity@ == en && hours == h,
                    None => r is Done,
                },
                _ => r is Done,
            }
        },
        EditFinish::Retitle { idx, title } => {
            &&& snapshot_stack(a.undo_stack@, d, b.undo_stack@)
            &&& same_shape(d, e)
            &&& idx < fl.len() ==> flat_cards(e) == fl.update(idx as int, with_kind(fl[idx as int], with_title(fl[idx as int].kind, title)))
                && b == (EditorState { mode: st.mode, undo_stack: b.undo_stack, dirty: true, ..a })
            &&& idx >= fl.len() ==> e == d && b == (EditorState { mode: st.mode, undo_stack: b.undo_stack, ..a })
            &&& r is Done
        },
        EditFinish::Rename(n) => {
            &&& snapshot_stack(a.undo_stack@, d, b.undo_stack@)
            &&& b == (EditorState { mode: st.mode, undo_stack: b.undo_stack, dirty: true, ..a })
            &&& e == (Dashboard { name: n, ..d })
            &&& r is Done
        },
        EditFinish::ResizeGrid { cols, rows } => {
            &&& snapshot_stack(a.undo_stack@, d, b.undo_stack@)
            &&& b == (EditorState { mode: st.mode, undo_stack: b.undo_stack, dirty: true, ..a })
            &&& e == match d.layout {
                DashboardLayout::Free { cards, .. } => Dashboard {
                    layout: DashboardLayout::Free { grid: Grid { cols, rows }, cards },
                    ..d
                },
                _ => d,
            }
            &&& r is Done
        },
        EditFinish::DeleteSelected => {
            &&& snapshot_stack(a.undo_stack@, d, b.undo_stack@)
            &&& b.selected_card is None
            &&& match a.selected_card {
                Some(i) if i < fl.len() => {
                    &&& flat_cards(e) == fl.remove(i as int)
                    &&& b.grid_focus is None
                    &&& b.dirty
                },
                _ => e == d && b.grid_focus == a.grid_focus && b.dirty == a.dirty,
            }
            &&& e.name == d.name
            &&& b.cursor_col == a.cursor_col
            &&& b.cursor_row == a.cursor_row
            &&& b.edit_target == a.edit_target
            &&& same_view_state(b, EditorState { mode: st.mode, undo_stack: b.undo_stack, ..a })
            &&& r is Done
        },
        EditFinish::Exit => b == (EditorState { mode: st.mode, ..a }) && e == d && r is Exit,
    }
}

/// An edit key can be handled without a panic: the metric picker's selection
/// is in range, and a new graph window converts to hours.
pub open spec fn edit_key_ok(a: EditorState, key: Key) -> bool {
    match a.mode {
        EditorMode::StatsEditMetric { selected, .. } => selected < 5,
        EditorMode::EditingWindow { buffer, .. } => key == Key::Enter ==> window_ok(trim(buffer@)),
        _ => true,
    }
}

/// What a key does in the edit steps; outside them nothing changes.
pub open spec fn edit_key_spec(a: EditorState, d: Dashboard, key: Key, b: EditorState, e: Dashboard, r: EditResult) -> bool {
    if is_edit_step(a.mode) {
        exists|st: EditStep| #[trigger] edit_step_spec(a.mode, key, st) && edit_applied(a, d, st, b, e, r)
    } else {
        r is NotMine && b == a && e == d
    }
}

impl EditorState {
    /// Handle a key in the steps that edit a card or the dashboard, confirm a
    /// deletion, or confirm leaving the editor.
    pub fn edit_key(&mut self, key: Key, dash: &mut Dashboard) -> (r: EditResult)
        requires
            edit_key_ok(*old(self), key),
        ensures
            edit_key_spec(*old(self), *old(dash), key, *final(self), *final(dash), r),
    {
        let mut mode = EditorMode::Browse;
        std::mem::swap(&mut mode, &mut self.mode);
        let ghost a = EditorState { mode: mode, ..*self };
        assert(a == *old(self));
        if !(match &mode {
            EditorMode::RenamingCard { .. } | EditorMode::EditingWindow { .. } | EditorMode::StatsEditMetric { .. }
            | EditorMode::StatsEditWindow { .. } | EditorMode::StatsEditUnit { .. } | EditorMode::ClockEditFormat { .. }
            | EditorMode::ClockEditTimezone { .. } | EditorMode::PickCardSize { .. } | EditorMode::Renaming { .. }
            | EditorMode::ResizingGrid { .. } | EditorMode::ConfirmDelete | EditorMode::ConfirmExit => true,
            _ => false,
        }) {
            self.mode = mode;
            return EditResult::NotMine;
        }
        let ghost m0 = mode;
        let st = edit_step(mode, key);
        let ghost st_copy = st;
        let r = self.apply_edit(st, dash);
        assert(edit_applied(a, *old(dash), st_copy, *self, *dash, r));
        assert(edit_step_spec(m0, key, st_copy));
        r
    }

    fn apply_edit(&mut self, st: EditStep, dash: &mut Dashboard) -> (r: EditResult)
        requires
            st.finish matches EditFinish::Card { edit: CardEdit::GraphWindow(w), .. } ==> window_ok(w@),
        ensures
            edit_applied(*old(self), *old(dash), st, *final(self), *final(dash), r),
    {
        match st.finish {
            EditFinish::Nothing => {
                self.mode = st.mode;
                EditResult::Done
            },
            EditFinish::Card { idx, edit, snapshot } => {
                self.mode = st.mode;
                if snapshot {
                    self.snapshot(dash);
                }
                let refetch: Option<(String, String, u32)> = match &edit {
                    CardEdit::GraphWindow(w) => match dash.card(idx) {
                        Some(card) => match &card.kind {
                            CardKind::Graph { instance, entity, entities, .. } => {
                                let hours = parse_window_hours(w.as_str());
                                if entities.len() > 0 {
                                    Some((instance.clone(), entities[0].entity.clone(), hours))
                                } else {
                                    match entity {
                                        Some(e) => Some((instance.clone(), e.clone(), hours)),
                                        None => None,
                                    }
                                }
                            },
                            _ => None,
                        },
                        None => None,
                    },
                    _ => None,
                };
                dash.edit_card(idx, edit);
                self.dirty = true;
                match refetch {
                    Some((instance, entity, hours)) => EditResult::FetchHistory { instance, entity, hours },
                    None => EditResult::Done,
                }
            },
            EditFinish::Retitle { idx, title } => {
                self.mode = st.mode;
                self.snapshot(dash);
                self.retitle_card(dash, idx, title);
                EditResult::Done
            },
            EditFinish::Rename(n) => {
                self.mode = st.mode;
                self.snapshot(dash);
                dash.name = n;
                self.dirty = true;
                EditResult::Done
            },
            EditFinish::ResizeGrid { cols, rows } => {
                self.mode = st.mode;
                self.snapshot(dash);
                if let DashboardLayout::Free { grid, .. } = &mut dash.layout {
                    *grid = Grid { cols, rows };
                }
                self.dirty = true;
                EditResult::Done
            },
            EditFinish::DeleteSelected => {
                self.mode = st.mode;
                self.snapshot(dash);
                self.delete_selected(dash);
                EditResult::Done
            },
            EditFinish::Exit => {
                self.mode = st.mode;
                EditResult::Exit
            },
        }
    }
}

} // verus!
