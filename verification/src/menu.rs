//! What the editor's context menu does: each action opens the step that
//! edits what it names (pre-filled from the card, row or dashboard), or
//! changes the dashboard at once.
use vstd::prelude::*;

use crate::card_edit::CardEdit;
use crate::card_ops::or_default;
use crate::dashboard::{
    BarOrientation, Card, CardId, CardKind, CardSize, Dashboard, DashboardLayout, EntityListItem, GridRow, RawF64, RowHeight,
    StatsMetric,
};
use crate::detail_keys::{card_edit_applied, DirtyWhen};
use crate::editor::{
    snapshot_stack, CardTypeStub, EditorMode, EditorState, FilterFocus, GridFocus, MenuAction, MenuContext, SeriesIndexOp,
    SeverityAccum, TransferOp,
};
use crate::flat::{col_len, flat_cards, lemma_col_replaced, lemma_split, locate, rows_flat, valid_col};
use crate::grid_ops::{
    card_moved_in_column, column_added, column_fill_toggled, column_moved, count_fits, first_with_id, grid_rows, has_id, is_grid,
    move_ok, move_panics, moved, row_fill_toggled, row_moved, same_shape,
};
use crate::ha::InstanceRuntime;
use crate::laws::{law_column_move_keeps_cards, law_row_move_keeps_cards};
use crate::persist::{decimal, push_decimal};
use crate::search::{friendly_for, friendly_of, item_id};
use crate::strings::to_owned_string;
use crate::wizard::{opt_card, start_card, start_card_spec, Finish, Step};

verus! {

/// What a menu action asks of the caller.
#[derive(Debug)]
pub enum MenuOutcome {
    Done,
    /// The action could not be carried out; the message says why.
    Failed(String),
    /// The action did nothing; the message says why.
    Status(String),
}

/// The card at flat index `i`, if there is one.
pub open spec fn card_at(d: Dashboard, i: usize) -> Option<Card> {
    let fl = flat_cards(d);
    if i < fl.len() {
        Some(fl[i as int])
    } else {
        None
    }
}

/// The title a card was given (none when it shows its default).
pub open spec fn title_field(k: CardKind) -> Option<String> {
    match k {
        CardKind::Entity { title, .. } => title,
        CardKind::Toggle { title, .. } => title,
        CardKind::Gauge { title, .. } => title,
        CardKind::Graph { title, .. } => title,
        CardKind::Text { title, .. } => title,
        CardKind::EntityList { title, .. } => title,
        CardKind::FilteredEntityList { title, .. } => title,
        CardKind::Clock { title, .. } => title,
        CardKind::Statistics { title, .. } => title,
        CardKind::MediaPlayer { title, .. } => title,
        CardKind::Image { title, .. } => title,
        CardKind::Weather { title, .. } => title,
        CardKind::AttributeList { title, .. } => title,
    }
}

/// `b` is `a` in a new mode, with card `sel` selected when one is given.
pub open spec fn in_mode(a: EditorState, b: EditorState, sel: Option<usize>) -> bool {
    b == (EditorState {
        mode: b.mode,
        selected_card: match sel {
            Some(i) => Some(i),
            None => a.selected_card,
        },
        ..a
    })
}

/// A text field of the card at `i`, or `dflt` when the card has no such field.
pub open spec fn card_text(d: Dashboard, i: usize, f: spec_fn(CardKind) -> Option<Option<String>>, dflt: Seq<char>) -> Seq<char> {
    match card_at(d, i) {
        Some(c) => match f(c.kind) {
            Some(t) => or_default(t, dflt),
            None => dflt,
        },
        None => dflt,
    }
}

pub open spec fn graph_window_of(k: CardKind) -> Option<Option<String>> {
    match k {
        CardKind::Graph { window, .. } => Some(Some(window)),
        _ => None,
    }
}

pub open spec fn clock_format_of(k: CardKind) -> Option<Option<String>> {
    match k {
        CardKind::Clock { format, .. } => Some(Some(format)),
        _ => None,
    }
}

pub open spec fn clock_timezone_of(k: CardKind) -> Option<Option<String>> {
    match k {
        CardKind::Clock { timezone, .. } => Some(timezone),
        _ => None,
    }
}

pub open spec fn stats_window_of(k: CardKind) -> Option<Option<String>> {
    match k {
        CardKind::Statistics { window, .. } => Some(Some(window)),
        _ => None,
    }
}

pub open spec fn stats_unit_of(k: CardKind) -> Option<Option<String>> {
    match k {
        CardKind::Statistics { unit, .. } => Some(unit),
        _ => None,
    }
}

/// The picker position of a metric.
pub open spec fn metric_index(m: StatsMetric) -> usize {
    match m {
        StatsMetric::Avg => 0,
        StatsMetric::Min => 1,
        StatsMetric::Max => 2,
        StatsMetric::Sum => 3,
        StatsMetric::Count => 4,
    }
}

/// The type of card whose entity picker edits a card of this kind (none for
/// kinds without one).
pub open spec fn picker_type(k: CardKind) -> Option<CardTypeStub> {
    match k {
        CardKind::Entity { .. } => Some(CardTypeStub::Entity),
        CardKind::Toggle { .. } => Some(CardTypeStub::Toggle),
        CardKind::Gauge { .. } => Some(CardTypeStub::Gauge),
        CardKind::Graph { .. } => Some(CardTypeStub::Graph),
        CardKind::Statistics { .. } => Some(CardTypeStub::Statistics),
        CardKind::MediaPlayer { .. } => Some(CardTypeStub::MediaPlayer),
        CardKind::Weather { .. } => Some(CardTypeStub::Weather),
        _ => None,
    }
}

/// Why a card of this kind has no entity to change.
pub open spec fn no_entity_message(k: CardKind) -> Option<Seq<char>> {
    match k {
        CardKind::Text { .. } => Some("text cards have no entity to change"@),
        CardKind::FilteredEntityList { .. } => Some("filtered list uses query syntax — open menu (m) → Edit filter query"@),
        CardKind::Clock { .. } => Some("clock cards have no entity to change"@),
        CardKind::Image { .. } => Some("image cards: use the YAML editor to change entity"@),
        _ => None,
    }
}

/// What changing the entity of the card at `i` gives: the entity picker of
/// its type (an entity list's multi-picker, with its entries and their
/// friendly names), set to replace the card; a message for a card that has
/// no entity to change.
pub open spec fn change_entity_spec(a: EditorState, d: Dashboard, rts: Seq<InstanceRuntime>, i: usize, b: EditorState, r: MenuOutcome) -> bool {
    match card_at(d, i) {
        None => b == a && r is Done,
        Some(c) => match no_entity_message(c.kind) {
            Some(m) => b == a && (r matches MenuOutcome::Failed(msg) && msg@ == m),
            None => match c.kind {
                CardKind::EntityList { instance, entities, .. } => {
                    &&& r is Done
                    &&& b == (EditorState { mode: b.mode, edit_target: Some(i), ..a })
                    &&& b.mode matches EditorMode::PickingMulti { instance: inst, query, selected, picked } && inst == instance
                        && query@.len() == 0 && selected == 0 && picked@.len() == entities@.len() && forall|j: int|
                        0 <= j < picked@.len() ==> (#[trigger] picked@[j]).0@ == item_id(entities@[j]) && friendly_of(
                            rts,
                            instance@,
                            picked@[j].0@,
                            picked@[j].1@,
                        )
                },
                _ => match picker_type(c.kind) {
                    Some(t) => {
                        &&& r is Done
                        &&& b == (EditorState { mode: b.mode, edit_target: Some(i), ..a })
                        &&& b.mode matches EditorMode::PickingEntity { card_type, instance, query, selected } && card_type == t
                            && Some(instance) == crate::card_ops::instance_spec(c.kind) && query@.len() == 0 && selected
                            == 0
                    },
                    None => b == a && r is Done,
                },
            },
        },
    }
}

/// The selection after the cards moved: the selected card is found again by
/// its id (and focused, on a grid), or the selection is dropped when it is gone.
pub open spec fn reselected(a: EditorState, d: Dashboard, e: Dashboard, b: EditorState) -> bool {
    let fl = flat_cards(d);
    let fe = flat_cards(e);
    match a.selected_card {
        Some(s) if s < fl.len() => {
            let id = fl[s as int].id;
            if has_id(fe, id) {
                exists|j: int|
                    #![trigger first_with_id(fe, id, j)]
                    first_with_id(fe, id, j) && b.selected_card == Some(j as usize) && match e.layout {
                        DashboardLayout::Grid { rows } => match locate(rows@, j) {
                            Some((r, c, p)) => b.grid_focus == Some(GridFocus::Card { row: r as usize, col: c as usize, pos_in_col: p as usize }),
                            None => b.grid_focus == a.grid_focus,
                        },
                        _ => b.grid_focus == a.grid_focus,
                    }
            } else {
                b.selected_card is None && b.grid_focus == a.grid_focus
            }
        },
        _ => b.selected_card == a.selected_card && b.grid_focus == a.grid_focus,
    }
}

/// A grid move done after an undo snapshot, keeping the selection on the
/// same card and marking the editor changed.
pub open spec fn moved_with_selection(a: EditorState, d: Dashboard, e: Dashboard, b: EditorState) -> bool {
    &&& snapshot_stack(a.undo_stack@, d, b.undo_stack@)
    &&& reselected(a, d, e, b)
    &&& b == (EditorState { undo_stack: b.undo_stack, selected_card: b.selected_card, grid_focus: b.grid_focus, dirty: true, ..a })
}

/// The row height as the height field shows it.
pub open spec fn height_text(h: RowHeight) -> Seq<char> {
    match h {
        RowHeight::Fixed(n) => decimal(n as nat),
        RowHeight::Auto => "auto"@,
    }
}

/// What menu action `act` in context `ctx` does to editor `a` and dashboard
/// `d`, giving `b`, `e` and `r`. `green` is the text of the gauge's green
/// threshold, used when editing thresholds that are already set.
pub open spec fn dispatch_spec(
    a: EditorState,
    d: Dashboard,
    rts: Seq<InstanceRuntime>,
    green: Seq<char>,
    act: MenuAction,
    ctx: MenuContext,
    b: EditorState,
    e: Dashboard,
    r: MenuOutcome,
) -> bool {
    let rows = grid_rows(d);
    match (act, ctx) {
        (MenuAction::RenameCard, MenuContext::Card(i)) => in_mode(a, b, Some(i)) && e == d && r is Done && (b.mode matches EditorMode::RenamingCard {
            card_idx,
            buffer,
        } && card_idx == i && buffer@ == match card_at(d, i) {
            Some(c) => or_default(title_field(c.kind), Seq::empty()),
            None => Seq::empty(),
        }),
        (MenuAction::ChangeEntity, MenuContext::Card(i)) => e == d && change_entity_spec(
            EditorState { selected_card: Some(i), ..a },
            d,
            rts,
            i,
            b,
            r,
        ),
        (MenuAction::EditTextContent, MenuContext::Card(i)) => e == d && r is Done && exists|st: Step|
            #[trigger] start_card_spec(CardTypeStub::Text, Seq::empty(), card_at(d, i), st) && b == (EditorState {
                mode: st.mode,
                selected_card: Some(i),
                edit_target: Some(i),
                ..a
            }),
        (MenuAction::EditWindow, MenuContext::Card(i)) => in_mode(a, b, Some(i)) && e == d && r is Done && (b.mode matches EditorMode::EditingWindow {
            card_idx,
            buffer,
        } && card_idx == i && buffer@ == card_text(d, i, |k: CardKind| graph_window_of(k), "1h"@)),
        (MenuAction::SetColorOverride, MenuContext::Card(i)) => in_mode(a, b, Some(i)) && e == d && r is Done && (b.mode matches EditorMode::EnterColorOverride {
            card_idx,
            buf,
        } && card_idx == i && buf@ == match card_at(d, i) {
            Some(c) => or_default(c.color, Seq::empty()),
            None => Seq::empty(),
        }),
        (MenuAction::SetCardSize, MenuContext::Card(i)) => in_mode(a, b, Some(i)) && e == d && r is Done && b.mode == (EditorMode::PickCardSize {
            card_idx: i,
            current: match card_at(d, i) {
                Some(c) => c.size,
                None => CardSize::Normal,
            },
        }),
        (MenuAction::EditEntryOverride, MenuContext::Card(i)) => e == d && match card_at(d, i) {
            Some(c) => match c.kind {
                CardKind::EntityList { entities, .. } => if entities@.len() == 0 {
                    b == a && (r matches MenuOutcome::Status(m) && m@ == "EntityList has no entries to override."@)
                } else {
                    in_mode(a, b, Some(i)) && r is Done && (b.mode matches EditorMode::PickEntityListItemToOverride {
                        card_idx,
                        items,
                        selected,
                    } && card_idx == i && selected == 0 && items@.len() == entities@.len() && forall|j: int|
                        0 <= j < items@.len() ==> (#[trigger] items@[j]).0 == j && items@[j].1@ == item_id(entities@[j]))
                },
                CardKind::FilteredEntityList { .. } => in_mode(a, b, Some(i)) && r is Done && (b.mode matches EditorMode::EditEntityListItemOverride {
                    card_idx,
                    item_idx,
                    entity_id,
                    name_buf,
                    hide_state,
                    focus_entity_id,
                } && card_idx == i && item_idx == 0 && entity_id is Some && entity_id->0@.len() == 0 && name_buf@.len() == 0
                    && !hide_state && focus_entity_id),
                _ => b == a && r is Done,
            },
            None => b == a && r is Done,
        },
        (MenuAction::DeleteCard, MenuContext::Card(i)) => in_mode(a, b, Some(i)) && e == d && r is Done && b.mode is ConfirmDelete,
        (MenuAction::EditQuery, MenuContext::Card(i)) => e == d && r is Done && match card_at(d, i) {
            Some(c) => match c.kind {
                CardKind::FilteredEntityList { instance, query, hide_state, title, .. } => {
                    &&& b == (EditorState { mode: b.mode, selected_card: Some(i), edit_target: Some(i), ..a })
                    &&& b.mode matches EditorMode::EditingFilterQuery { instance: inst, query_buffer, title_buffer, hide_state: h, focus }
                        && inst == instance && query_buffer == query && title_buffer@ == or_default(title, Seq::empty()) && h
                        == hide_state && focus == FilterFocus::Query
                },
                _ => b == a,
            },
            None => b == a,
        },
        (MenuAction::ToggleHideState, MenuContext::Card(i)) => card_edit_applied(a, d, a.mode, i, CardEdit::ToggleHideState, DirtyWhen::IfApplies, b, e)
            && r is Done,
        (MenuAction::ToggleHideWhenEmpty, MenuContext::Card(i)) => card_edit_applied(
            a,
            d,
            a.mode,
            i,
            CardEdit::ToggleHideWhenEmpty,
            DirtyWhen::IfApplies,
            b,
            e,
        ) && r is Done,
        (MenuAction::ToggleTicker, MenuContext::Card(i)) => card_edit_applied(a, d, a.mode, i, CardEdit::ToggleTicker, DirtyWhen::IfApplies, b, e)
            && r is Done,
        (MenuAction::ToggleGaugeNeedle, MenuContext::Card(i)) => card_edit_applied(a, d, a.mode, i, CardEdit::ToggleNeedle, DirtyWhen::IfApplies, b, e)
            && r is Done,
        (MenuAction::CycleGraphType, MenuContext::Card(i)) => card_edit_applied(
            EditorState { selected_card: Some(i), ..a },
            d,
            a.mode,
            i,
            CardEdit::CycleGraphType,
            DirtyWhen::Always,
            b,
            e,
        ) && r is Done,
        (MenuAction::RenameDashboard, MenuContext::Dashboard) => in_mode(a, b, None) && e == d && r is Done && (b.mode matches EditorMode::Renaming {
            buffer,
        } && buffer == d.name),
        (MenuAction::ResizeGrid, MenuContext::Dashboard) => in_mode(a, b, None) && e == d && r is Done && (b.mode matches EditorMode::ResizingGrid {
            cols_buffer,
            rows_buffer,
            focus_rows,
        } && !focus_rows && match d.layout {
            DashboardLayout::Free { grid, .. } => cols_buffer@ == decimal(grid.cols as nat) && rows_buffer@ == decimal(grid.rows as nat),
            _ => cols_buffer@ == "12"@ && rows_buffer@ == "24"@,
        }),
        (MenuAction::AddGraphSeries, MenuContext::Card(i)) => in_mode(a, b, Some(i)) && e == d && r is Done && (b.mode matches EditorMode::GraphAddOneSeries {
            card_idx,
            query,
            selected,
        } && card_idx == i && query@.len() == 0 && selected == 0),
        (MenuAction::RemoveGraphSeries, MenuContext::Card(i)) => in_mode(a, b, Some(i)) && e == d && r is Done && b.mode == (EditorMode::GraphPickSeriesIndex {
            card_idx: i,
            op: SeriesIndexOp::Remove,
            selected: 0,
        }),
        (MenuAction::SetGraphSeriesColor, MenuContext::Card(i)) => in_mode(a, b, Some(i)) && e == d && r is Done && b.mode == (EditorMode::GraphPickSeriesIndex {
            card_idx: i,
            op: SeriesIndexOp::SetColor,
            selected: 0,
        }),
        (MenuAction::SetGraphSeriesLabel, MenuContext::Card(i)) => in_mode(a, b, Some(i)) && e == d && r is Done && b.mode == (EditorMode::GraphPickSeriesIndex {
            card_idx: i,
            op: SeriesIndexOp::SetLabel,
            selected: 0,
        }),
        (MenuAction::EditGraphWindow, MenuContext::Card(i)) => in_mode(a, b, Some(i)) && e == d && r is Done && (b.mode matches EditorMode::GraphEditWindow {
            card_idx,
            buf,
        } && card_idx == i && buf@ == card_text(d, i, |k: CardKind| graph_window_of(k), "1h"@)),
        (MenuAction::EditGraphOrientation, MenuContext::Card(i)) => in_mode(a, b, Some(i)) && e == d && r is Done && b.mode == (EditorMode::GraphPickOrientation {
            card_idx: i,
            current: match card_at(d, i) {
                Some(c) => match c.kind {
                    CardKind::Graph { orientation, .. } => orientation,
                    _ => BarOrientation::Vertical,
                },
                None => BarOrientation::Vertical,
            },
        }),
        (MenuAction::EditSeverityThresholds, MenuContext::Card(i)) => in_mode(a, b, Some(i)) && e == d && r is Done && (b.mode matches EditorMode::EditSeverityGreen {
            card_idx,
            buf,
            accum,
        } && card_idx == i && match card_at(d, i) {
            Some(c) => match c.kind {
                CardKind::Gauge { severity: Some(s), .. } => buf@ == green && accum == (SeverityAccum { green: s.green, yellow: s.yellow }),
                _ => buf@.len() == 0 && accum == (SeverityAccum { green: RawF64(0), yellow: RawF64(0) }),
            },
            None => buf@.len() == 0 && accum == (SeverityAccum { green: RawF64(0), yellow: RawF64(0) }),
        }),
        (MenuAction::ClockEditFormat, MenuContext::Card(i)) => in_mode(a, b, Some(i)) && e == d && r is Done && (b.mode matches EditorMode::ClockEditFormat {
            card_idx,
            buf,
        } && card_idx == i && buf@ == card_text(d, i, |k: CardKind| clock_format_of(k), "%H:%M:%S"@)),
        (MenuAction::ClockEditTimezone, MenuContext::Card(i)) => in_mode(a, b, Some(i)) && e == d && r is Done && (b.mode matches EditorMode::ClockEditTimezone {
            card_idx,
            buf,
        } && card_idx == i && buf@ == card_text(d, i, |k: CardKind| clock_timezone_of(k), Seq::empty())),
        (MenuAction::StatsEditMetric, MenuContext::Card(i)) => in_mode(a, b, Some(i)) && e == d && r is Done && b.mode == (EditorMode::StatsEditMetric {
            card_idx: i,
            selected: match card_at(d, i) {
                Some(c) => match c.kind {
                    CardKind::Statistics { metric, .. } => metric_index(metric),
                    _ => 0,
                },
                None => 0,
            },
        }),
        (MenuAction::StatsEditWindow, MenuContext::Card(i)) => in_mode(a, b, Some(i)) && e == d && r is Done && (b.mode matches EditorMode::StatsEditWindow {
            card_idx,
            buf,
        } && card_idx == i && buf@ == card_text(d, i, |k: CardKind| stats_window_of(k), "1h"@)),
        (MenuAction::StatsEditUnit, MenuContext::Card(i)) => in_mode(a, b, Some(i)) && e == d && r is Done && (b.mode matches EditorMode::StatsEditUnit {
            card_idx,
            buf,
        } && card_idx == i && buf@ == card_text(d, i, |k: CardKind| stats_unit_of(k), Seq::empty())),
        (MenuAction::MoveToDashboard, MenuContext::Card(i)) => in_mode(a, b, Some(i)) && e == d && r is Done && b.mode == (EditorMode::PickingTargetDashboard {
            op: TransferOp::Move,
            source_card_idx: i,
            selected: 0,
        }),
        (MenuAction::CopyToDashboard, MenuContext::Card(i)) => in_mode(a, b, Some(i)) && e == d && r is Done && b.mode == (EditorMode::PickingTargetDashboard {
            op: TransferOp::Copy,
            source_card_idx: i,
            selected: 0,
        }),
        (MenuAction::MoveToColumn, MenuContext::Card(i)) => in_mode(a, b, None) && e == d && r is Done && b.mode == (EditorMode::PickingTargetGridRow {
            op: TransferOp::Move,
            source_card_idx: i,
            target_dash: a.dash_idx,
            selected: 0,
        }),
        (MenuAction::MoveCardUpInColumn, MenuContext::Card(i)) | (MenuAction::MoveCardDownInColumn, MenuContext::Card(i)) => {
            let up = act == MenuAction::MoveCardUpInColumn;
            &&& r is Done
            &&& match d.layout {
                DashboardLayout::Grid { rows: rs } => if i < rows_flat(rs@).len() {
                    let (row, col, pos) = locate(rs@, i as int)->0;
                    &&& card_moved_in_column(d, e, row as usize, col as usize, pos as usize, up, valid_col(rs@, row, col) && move_ok(pos, up, col_len(rs@, row, col)))
                    &&& moved_with_selection(a, d, e, b)
                } else {
                    b == a && e == d
                },
                _ => b == a && e == d,
            }
        },
        (MenuAction::SetRowHeight, MenuContext::Row(ri)) => in_mode(a, b, None) && e == d && r is Done && (b.mode matches EditorMode::EditingRowHeight {
            row_idx,
            buf,
        } && row_idx == ri && buf@ == if ri < rows.len() {
            height_text(rows[ri as int].height)
        } else {
            Seq::empty()
        }),
        (MenuAction::ToggleRowFillHeight, MenuContext::Row(ri)) => r is Done && b == (EditorState { dirty: true, ..a })
            && row_fill_toggled(d, e, ri, is_grid(d) && ri < rows.len()),
        (MenuAction::AddColumn, MenuContext::Row(ri)) => {
            &&& r is Done
            &&& snapshot_stack(a.undo_stack@, d, b.undo_stack@)
            &&& b == (EditorState { undo_stack: b.undo_stack, dirty: true, ..a })
            &&& column_added(d, e, ri, is_grid(d) && ri < rows.len())
        },
        (MenuAction::RemoveRow, MenuContext::Row(ri)) => in_mode(a, b, None) && e == d && r is Done && b.mode == (EditorMode::ConfirmRemoveRow {
            row_idx: ri,
        }),
        (MenuAction::MoveRowUp, MenuContext::Row(ri)) | (MenuAction::MoveRowDown, MenuContext::Row(ri)) => {
            &&& r is Done
            &&& row_moved(d, e, ri, act == MenuAction::MoveRowUp, is_grid(d) && move_ok(ri as int, act == MenuAction::MoveRowUp, rows.len() as int))
            &&& moved_with_selection(a, d, e, b)
        },
        (MenuAction::SetColumnFillHeight, MenuContext::GridColumn(ri, ci)) => r is Done && b == (EditorState { dirty: true, ..a })
            && column_fill_toggled(d, e, ri, ci, is_grid(d) && valid_col(rows, ri as int, ci as int)),
        (MenuAction::RemoveColumn, MenuContext::GridColumn(ri, ci)) => in_mode(a, b, None) && e == d && r is Done && b.mode
            == (EditorMode::ConfirmRemoveColumn { row_idx: ri, col_idx: ci }),
        (MenuAction::MoveColumnLeft, MenuContext::GridColumn(ri, ci)) | (MenuAction::MoveColumnRight, MenuContext::GridColumn(
            ri,
            ci,
        )) => {
            &&& r is Done
            &&& column_moved(
                d,
                e,
                ri,
                ci,
                act == MenuAction::MoveColumnLeft,
                is_grid(d) && ri < rows.len() && move_ok(ci as int, act == MenuAction::MoveColumnLeft, rows[ri as int].columns@.len() as int),
            )
            &&& moved_with_selection(a, d, e, b)
        },
        (MenuAction::AddRow, MenuContext::Dashboard) => in_mode(a, b, None) && e == d && r is Done && (b.mode matches EditorMode::PickingNewRowHeight {
            buf,
        } && buf@.len() == 0),
        (MenuAction::DeleteDashboard, MenuContext::Dashboard) => in_mode(a, b, None) && e == d && r is Done && b.mode is ConfirmDeleteDashboard,
        _ => b == a && e == d && (r matches MenuOutcome::Failed(m) && m@ == "menu action not valid in this context"@),
    }
}

/// A menu action can be carried out without a panic: moving a row or a
/// column toward the start never starts one past the end.
pub open spec fn dispatch_ok(d: Dashboard, act: MenuAction, ctx: MenuContext) -> bool {
    let rows = grid_rows(d);
    &&& count_fits(d)
    &&& match (act, ctx) {
        (MenuAction::MoveRowUp, MenuContext::Row(ri)) => !move_panics(ri as int, true, rows.len() as int),
        (MenuAction::MoveColumnLeft, MenuContext::GridColumn(ri, ci)) => ri < rows.len() ==> !move_panics(
            ci as int,
            true,
            rows[ri as int].columns@.len() as int,
        ),
        _ => true,
    }
}

fn opt_or_empty(o: &Option<String>) -> (r: String)
    ensures
        r@ == or_default(*o, Seq::empty()),
{
    match o {
        Some(t) => t.clone(),
        None => String::new(),
    }
}

fn title_text(k: &CardKind) -> (r: String)
    ensures
        r@ == or_default(title_field(*k), Seq::empty()),
{
    let t = match k {
        CardKind::Entity { title, .. } => title,
        CardKind::Toggle { title, .. } => title,
        CardKind::Gauge { title, .. } => title,
        CardKind::Graph { title, .. } => title,
        CardKind::Text { title, .. } => title,
        CardKind::EntityList { title, .. } => title,
        CardKind::FilteredEntityList { title, .. } => title,
        CardKind::Clock { title, .. } => title,
        CardKind::Statistics { title, .. } => title,
        CardKind::MediaPlayer { title, .. } => title,
        CardKind::Image { title, .. } => title,
        CardKind::Weather { title, .. } => title,
        CardKind::AttributeList { title, .. } => title,
    };
    opt_or_empty(t)
}

fn decimal_string(n: u16) -> (r: String)
    ensures
        r@ == decimal(n as nat),
{
    let mut s = String::new();
    push_decimal(&mut s, n as usize);
    s
}

proof fn lemma_row_move_count(d: Dashboard, e: Dashboard, ri: usize, up: bool, m: bool)
    requires
        count_fits(d),
        row_moved(d, e, ri, up, m),
        up ==> !move_panics(ri as int, true, grid_rows(d).len() as int),
    ensures
        count_fits(e),
{
    broadcast use vstd::seq_lib::group_to_multiset_ensures;
    if m {
        let lo: int = if up { ri - 1 } else { ri as int };
        law_row_move_keeps_cards(grid_rows(d), lo);
        assert(rows_flat(grid_rows(e)).to_multiset().len() == rows_flat(grid_rows(d)).to_multiset().len());
    }
}

proof fn lemma_column_move_count(d: Dashboard, e: Dashboard, ri: usize, ci: usize, left: bool, m: bool)
    requires
        count_fits(d),
        column_moved(d, e, ri, ci, left, m),
        left && ri < grid_rows(d).len() ==> !move_panics(ci as int, true, grid_rows(d)[ri as int].columns@.len() as int),
    ensures
        count_fits(e),
{
    broadcast use vstd::seq_lib::group_to_multiset_ensures;
    if m {
        let lo: int = if left { ci - 1 } else { ci as int };
        law_column_move_keeps_cards(grid_rows(d), grid_rows(e), ri as int, lo);
        assert(rows_flat(grid_rows(e)).to_multiset().len() == rows_flat(grid_rows(d)).to_multiset().len());
    }
}

proof fn lemma_card_move_count(d: Dashboard, e: Dashboard, row: usize, col: usize, pos: usize, up: bool, m: bool)
    requires
        count_fits(d),
        card_moved_in_column(d, e, row, col, pos, up, m),
        valid_col(grid_rows(d), row as int, col as int) ==> pos < col_len(grid_rows(d), row as int, col as int),
    ensures
        count_fits(e),
{
    if m {
        let rows = grid_rows(d);
        let cards = rows[row as int].columns@[col as int].cards@;
        lemma_split(rows, row as int, col as int);
        lemma_col_replaced(rows, grid_rows(e), row as int, col as int, moved(cards, pos as int, up));
        assert(moved(cards, pos as int, up).len() == cards.len());
    }
}

impl EditorState {
    /// Find the card with id `id` again after the cards moved: select it (and
    /// focus it on a grid), or drop the selection when it is gone.
    fn reselect(&mut self, d: &Dashboard, id: CardId)
        requires
            count_fits(*d),
        ensures
            has_id(flat_cards(*d), id) ==> exists|j: int|
                #![trigger first_with_id(flat_cards(*d), id, j)]
                first_with_id(flat_cards(*d), id, j) && final(self).selected_card == Some(j as usize) && match d.layout {
                    DashboardLayout::Grid { rows } => match locate(rows@, j) {
                        Some((r, c, p)) => final(self).grid_focus == Some(
                            GridFocus::Card { row: r as usize, col: c as usize, pos_in_col: p as usize },
                        ),
                        None => final(self).grid_focus == old(self).grid_focus,
                    },
                    _ => final(self).grid_focus == old(self).grid_focus,
                },
            !has_id(flat_cards(*d), id) ==> final(self).selected_card is None && final(self).grid_focus == old(self).grid_focus,
            *final(self) == (EditorState { selected_card: final(self).selected_card, grid_focus: final(self).grid_focus, ..*old(self) }),
    {
        let flat = d.flat_idx_of(id);
        match flat {
            Some(f) => {
                match d.locate_grid_flat(f) {
                    Some((r, c, p)) => {
                        self.grid_focus = Some(GridFocus::Card { row: r, col: c, pos_in_col: p });
                    },
                    None => {},
                }
                self.selected_card = Some(f);
            },
            None => {
                self.selected_card = None;
            },
        }
    }

    /// The id of the selected card, if it exists.
    fn selected_id(&self, d: &Dashboard) -> (r: Option<CardId>)
        ensures
            r == match self.selected_card {
                Some(s) if s < flat_cards(*d).len() => Some(flat_cards(*d)[s as int].id),
                _ => None,
            },
    {
        match self.selected_card {
            Some(s) => match d.card(s) {
                Some(c) => Some(c.id),
                None => None,
            },
            None => None,
        }
    }

    /// Point the entity picker of the card at `idx` at a replacement.
    fn change_card_entity(&mut self, dash: &Dashboard, runtimes: &Vec<InstanceRuntime>, idx: usize) -> (r: MenuOutcome)
        ensures
            change_entity_spec(*old(self), *dash, runtimes@, idx, *final(self), r),
    {
        let card = match dash.card(idx) {
            Some(c) => c,
            None => return MenuOutcome::Done,
        };
        match &card.kind {
            CardKind::Text { .. } => MenuOutcome::Failed(to_owned_string("text cards have no entity to change")),
            CardKind::FilteredEntityList { .. } => MenuOutcome::Failed(
                to_owned_string("filtered list uses query syntax — open menu (m) → Edit filter query"),
            ),
            CardKind::Clock { .. } => MenuOutcome::Failed(to_owned_string("clock cards have no entity to change")),
            CardKind::Image { .. } => MenuOutcome::Failed(to_owned_string("image cards: use the YAML editor to change entity")),
            CardKind::EntityList { instance, entities, .. } => {
                let mut picked: Vec<(String, String)> = Vec::new();
                let mut j: usize = 0;
                while j < entities.len()
                    invariant
                        j <= entities@.len(),
                        picked@.len() == j,
                        forall|k: int|
                            0 <= k < j ==> (#[trigger] picked@[k]).0@ == item_id(entities@[k]) && friendly_of(
                                runtimes@,
                                instance@,
                                picked@[k].0@,
                                picked@[k].1@,
                            ),
                    decreases entities.len() - j,
                {
                    let eid = entities[j].entity_id().clone();
                    let friendly = friendly_for(runtimes, instance.as_str(), eid.as_str());
                    picked.push((eid, friendly));
                    j = j + 1;
                }
                self.edit_target = Some(idx);
                self.mode = EditorMode::PickingMulti { instance: instance.clone(), query: String::new(), selected: 0, picked };
                MenuOutcome::Done
            },
            _ => {
                let t = match &card.kind {
                    CardKind::Entity { .. } => CardTypeStub::Entity,
                    CardKind::Toggle { .. } => CardTypeStub::Toggle,
                    CardKind::Gauge { .. } => CardTypeStub::Gauge,
                    CardKind::Graph { .. } => CardTypeStub::Graph,
                    CardKind::Statistics { .. } => CardTypeStub::Statistics,
                    CardKind::MediaPlayer { .. } => CardTypeStub::MediaPlayer,
                    CardKind::Weather { .. } => CardTypeStub::Weather,
                    _ => return MenuOutcome::Done,
                };
                let instance = match card.instance_ref() {
                    Some(a) => a.clone(),
                    None => return MenuOutcome::Done,
                };
                self.edit_target = Some(idx);
                self.mode = EditorMode::PickingEntity { card_type: t, instance, query: String::new(), selected: 0 };
                MenuOutcome::Done
            },
        }
    }
}

impl EditorState {
    /// Carry out menu action `act` in context `ctx` on the dashboard being
    /// edited. `green` is the text of the selected gauge's green threshold
    /// (used when its thresholds are already set).
    pub fn dispatch_menu_action(
        &mut self,
        act: MenuAction,
        ctx: MenuContext,
        dash: &mut Dashboard,
        runtimes: &Vec<InstanceRuntime>,
        green: String,
    ) -> (r: MenuOutcome)
        requires
            dispatch_ok(*old(dash), act, ctx),
        ensures
            dispatch_spec(*old(self), *old(dash), runtimes@, green@, act, ctx, *final(self), *final(dash), r),
    {
        match (act, ctx) {
            (MenuAction::RenameCard, MenuContext::Card(i)) => {
                let buffer = match dash.card(i) {
                    Some(c) => title_text(&c.kind),
                    None => String::new(),
                };
                self.selected_card = Some(i);
                self.mode = EditorMode::RenamingCard { card_idx: i, buffer };
                MenuOutcome::Done
            },
            (MenuAction::ChangeEntity, MenuContext::Card(i)) => {
                self.selected_card = Some(i);
                self.change_card_entity(dash, runtimes, i)
            },
            (MenuAction::EditTextContent, MenuContext::Card(i)) => {
                self.selected_card = Some(i);
                self.edit_target = Some(i);
                let none: Vec<String> = Vec::new();
                let st = start_card(CardTypeStub::Text, &none, dash.card(i));
                self.mode = st.mode;
                MenuOutcome::Done
            },
            (MenuAction::EditWindow, MenuContext::Card(i)) | (MenuAction::EditGraphWindow, MenuContext::Card(i)) => {
                let buffer = match dash.card(i) {
                    Some(c) => match &c.kind {
                        CardKind::Graph { window, .. } => window.clone(),
                        _ => to_owned_string("1h"),
                    },
                    None => to_owned_string("1h"),
                };
                self.selected_card = Some(i);
                self.mode = if act == MenuAction::EditWindow {
                    EditorMode::EditingWindow { card_idx: i, buffer }
                } else {
                    EditorMode::GraphEditWindow { card_idx: i, buf: buffer }
                };
                MenuOutcome::Done
            },
            (MenuAction::SetColorOverride, MenuContext::Card(i)) => {
                let buf = match dash.card(i) {
                    Some(c) => opt_or_empty(&c.color),
                    None => String::new(),
                };
                self.selected_card = Some(i);
                self.mode = EditorMode::EnterColorOverride { card_idx: i, buf };
                MenuOutcome::Done
            },
            (MenuAction::SetCardSize, MenuContext::Card(i)) => {
                let current = match dash.card(i) {
                    Some(c) => c.size,
                    None => CardSize::Normal,
                };
                self.selected_card = Some(i);
                self.mode = EditorMode::PickCardSize { card_idx: i, current };
                MenuOutcome::Done
            },
            (MenuAction::EditEntryOverride, MenuContext::Card(i)) => {
                match dash.card(i) {
                    Some(c) => match &c.kind {
                        CardKind::EntityList { entities, .. } => {
                            if entities.len() == 0 {
                                return MenuOutcome::Status(to_owned_string("EntityList has no entries to override."));
                            }
                            let mut items: Vec<(usize, String)> = Vec::new();
                            let mut j: usize = 0;
                            while j < entities.len()
                                invariant
                                    j <= entities@.len(),
                                    items@.len() == j,
                                    forall|k: int|
                                        0 <= k < j ==> (#[trigger] items@[k]).0 == k && items@[k].1@ == item_id(entities@[k]),
                                decreases entities.len() - j,
                            {
                                items.push((j, entities[j].entity_id().clone()));
                                j = j + 1;
                            }
                            self.selected_card = Some(i);
                            self.mode = EditorMode::PickEntityListItemToOverride { card_idx: i, items, selected: 0 };
                        },
                        CardKind::FilteredEntityList { .. } => {
                            self.selected_card = Some(i);
                            self.mode = EditorMode::EditEntityListItemOverride {
                                card_idx: i,
                                item_idx: 0,
                                entity_id: Some(String::new()),
                                name_buf: String::new(),
                                hide_state: false,
                                focus_entity_id: true,
                            };
                        },
                        _ => {},
                    },
                    None => {},
                }
                MenuOutcome::Done
            },
            (MenuAction::DeleteCard, MenuContext::Card(i)) => {
                self.selected_card = Some(i);
                self.mode = EditorMode::ConfirmDelete;
                MenuOutcome::Done
            },
            (MenuAction::EditQuery, MenuContext::Card(i)) => {
                match dash.card(i) {
                    Some(c) => match &c.kind {
                        CardKind::FilteredEntityList { instance, query, hide_state, title, .. } => {
                            let tb = opt_or_empty(title);
                            self.selected_card = Some(i);
                            self.edit_target = Some(i);
                            self.mode = EditorMode::EditingFilterQuery {
                                instance: instance.clone(),
                                query_buffer: query.clone(),
                                title_buffer: tb,
                                hide_state: *hide_state,
                                focus: FilterFocus::Query,
                            };
                        },
                        _ => {},
                    },
                    None => {},
                }
                MenuOutcome::Done
            },
            (MenuAction::ToggleHideState, MenuContext::Card(i)) => {
                let mut m = EditorMode::Browse;
                std::mem::swap(&mut m, &mut self.mode);
                self.apply_card_edit(dash, m, i, CardEdit::ToggleHideState, DirtyWhen::IfApplies);
                MenuOutcome::Done
            },
            (MenuAction::ToggleHideWhenEmpty, MenuContext::Card(i)) => {
                let mut m = EditorMode::Browse;
                std::mem::swap(&mut m, &mut self.mode);
                self.apply_card_edit(dash, m, i, CardEdit::ToggleHideWhenEmpty, DirtyWhen::IfApplies);
                MenuOutcome::Done
            },
            (MenuAction::ToggleTicker, MenuContext::Card(i)) => {
                let mut m = EditorMode::Browse;
                std::mem::swap(&mut m, &mut self.mode);
                self.apply_card_edit(dash, m, i, CardEdit::ToggleTicker, DirtyWhen::IfApplies);
                MenuOutcome::Done
            },
            (MenuAction::ToggleGaugeNeedle, MenuContext::Card(i)) => {
                let mut m = EditorMode::Browse;
                std::mem::swap(&mut m, &mut self.mode);
                self.apply_card_edit(dash, m, i, CardEdit::ToggleNeedle, DirtyWhen::IfApplies);
                MenuOutcome::Done
            },
            (MenuAction::CycleGraphType, MenuContext::Card(i)) => {
                self.selected_card = Some(i);
                let mut m = EditorMode::Browse;
                std::mem::swap(&mut m, &mut self.mode);
                self.apply_card_edit(dash, m, i, CardEdit::CycleGraphType, DirtyWhen::Always);
                MenuOutcome::Done
            },
            (MenuAction::RenameDashboard, MenuContext::Dashboard) => {
                self.mode = EditorMode::Renaming { buffer: dash.name.clone() };
                MenuOutcome::Done
            },
            (MenuAction::ResizeGrid, MenuContext::Dashboard) => {
                let (c, rw) = match dash.free_grid() {
                    Some(g) => (decimal_string(g.cols), decimal_string(g.rows)),
                    None => (to_owned_string("12"), to_owned_string("24")),
                };
                self.mode = EditorMode::ResizingGrid { cols_buffer: c, rows_buffer: rw, focus_rows: false };
                MenuOutcome::Done
            },
            (MenuAction::AddGraphSeries, MenuContext::Card(i)) => {
                self.selected_card = Some(i);
                self.mode = EditorMode::GraphAddOneSeries { card_idx: i, query: String::new(), selected: 0 };
                MenuOutcome::Done
            },
            (MenuAction::RemoveGraphSeries, MenuContext::Card(i)) => {
                self.selected_card = Some(i);
                self.mode = EditorMode::GraphPickSeriesIndex { card_idx: i, op: SeriesIndexOp::Remove, selected: 0 };
                MenuOutcome::Done
            },
            (MenuAction::SetGraphSeriesColor, MenuContext::Card(i)) => {
                self.selected_card = Some(i);
                self.mode = EditorMode::GraphPickSeriesIndex { card_idx: i, op: SeriesIndexOp::SetColor, selected: 0 };
                MenuOutcome::Done
            },
            (MenuAction::SetGraphSeriesLabel, MenuContext::Card(i)) => {
                self.selected_card = Some(i);
                self.mode = EditorMode::GraphPickSeriesIndex { card_idx: i, op: SeriesIndexOp::SetLabel, selected: 0 };
                MenuOutcome::Done
            },
            (MenuAction::EditGraphOrientation, MenuContext::Card(i)) => {
                let current = match dash.card(i) {
                    Some(c) => match &c.kind {
                        CardKind::Graph { orientation, .. } => *orientation,
                        _ => BarOrientation::Vertical,
                    },
                    None => BarOrientation::Vertical,
                };
                self.selected_card = Some(i);
                self.mode = EditorMode::GraphPickOrientation { card_idx: i, current };
                MenuOutcome::Done
            },
            (MenuAction::EditSeverityThresholds, MenuContext::Card(i)) => {
                let (buf, accum) = match dash.card(i) {
                    Some(c) => match &c.kind {
                        CardKind::Gauge { severity: Some(sv), .. } => (green, SeverityAccum { green: sv.green, yellow: sv.yellow }),
                        _ => (String::new(), SeverityAccum { green: RawF64(0), yellow: RawF64(0) }),
                    },
                    None => (String::new(), SeverityAccum { green: RawF64(0), yellow: RawF64(0) }),
                };
                self.selected_card = Some(i);
                self.mode = EditorMode::EditSeverityGreen { card_idx: i, buf, accum };
                MenuOutcome::Done
            },
            (MenuAction::ClockEditFormat, MenuContext::Card(i)) => {
                let buf = match dash.card(i) {
                    Some(c) => match &c.kind {
                        CardKind::Clock { format, .. } => format.clone(),
                        _ => to_owned_string("%H:%M:%S"),
                    },
                    None => to_owned_string("%H:%M:%S"),
                };
                self.selected_card = Some(i);
                self.mode = EditorMode::ClockEditFormat { card_idx: i, buf };
                MenuOutcome::Done
            },
            (MenuAction::ClockEditTimezone, MenuContext::Card(i)) => {
                let buf = match dash.card(i) {
                    Some(c) => match &c.kind {
                        CardKind::Clock { timezone, .. } => opt_or_empty(timezone),
                        _ => String::new(),
                    },
                    None => String::new(),
                };
                self.selected_card = Some(i);
                self.mode = EditorMode::ClockEditTimezone { card_idx: i, buf };
                MenuOutcome::Done
            },
            (MenuAction::StatsEditMetric, MenuContext::Card(i)) => {
                let selected: usize = match dash.card(i) {
                    Some(c) => match &c.kind {
                        CardKind::Statistics { metric, .. } => match metric {
                            StatsMetric::Avg => 0,
                            StatsMetric::Min => 1,
                            StatsMetric::Max => 2,
                            StatsMetric::Sum => 3,
                            StatsMetric::Count => 4,
                        },
                        _ => 0,
                    },
                    None => 0,
                };
                self.selected_card = Some(i);
                self.mode = EditorMode::StatsEditMetric { card_idx: i, selected };
                MenuOutcome::Done
            },
            (MenuAction::StatsEditWindow, MenuContext::Card(i)) => {
                let buf = match dash.card(i) {
                    Some(c) => match &c.kind {
                        CardKind::Statistics { window, .. } => window.clone(),
                        _ => to_owned_string("1h"),
                    },
                    None => to_owned_string("1h"),
                };
                self.selected_card = Some(i);
                self.mode = EditorMode::StatsEditWindow { card_idx: i, buf };
                MenuOutcome::Done
            },
            (MenuAction::StatsEditUnit, MenuContext::Card(i)) => {
                let buf = match dash.card(i) {
                    Some(c) => match &c.kind {
                        CardKind::Statistics { unit, .. } => opt_or_empty(unit),
                        _ => String::new(),
                    },
                    None => String::new(),
                };
                self.selected_card = Some(i);
                self.mode = EditorMode::StatsEditUnit { card_idx: i, buf };
                MenuOutcome::Done
            },
            (MenuAction::MoveToDashboard, MenuContext::Card(i)) => {
                self.selected_card = Some(i);
                self.mode = EditorMode::PickingTargetDashboard { op: TransferOp::Move, source_card_idx: i, selected: 0 };
                MenuOutcome::Done
            },
            (MenuAction::CopyToDashboard, MenuContext::Card(i)) => {
                self.selected_card = Some(i);
                self.mode = EditorMode::PickingTargetDashboard { op: TransferOp::Copy, source_card_idx: i, selected: 0 };
                MenuOutcome::Done
            },
            (MenuAction::MoveToColumn, MenuContext::Card(i)) => {
                self.mode = EditorMode::PickingTargetGridRow {
                    op: TransferOp::Move,
                    source_card_idx: i,
                    target_dash: self.dash_idx,
                    selected: 0,
                };
                MenuOutcome::Done
            },
            (MenuAction::MoveCardUpInColumn, MenuContext::Card(i)) | (MenuAction::MoveCardDownInColumn, MenuContext::Card(i)) => {
                let up = act == MenuAction::MoveCardUpInColumn;
                match dash.locate_grid_flat(i) {
                    Some((row, col, pos)) => {
                        self.snapshot(dash);
                        let id = self.selected_id(dash);
                        let ghost d0 = *dash;
                        let moved_ok = dash.grid_move_card_in_column(row, col, pos, up);
                        proof {
                            lemma_card_move_count(d0, *dash, row, col, pos, up, moved_ok);
                        }
                        self.after_move(dash, id);
                    },
                    None => {},
                }
                MenuOutcome::Done
            },
            (MenuAction::SetRowHeight, MenuContext::Row(ri)) => {
                let buf = match &dash.layout {
                    DashboardLayout::Grid { rows } => {
                        if ri < rows.len() {
                            match rows[ri].height {
                                RowHeight::Fixed(n) => decimal_string(n),
                                RowHeight::Auto => to_owned_string("auto"),
                            }
                        } else {
                            String::new()
                        }
                    },
                    _ => String::new(),
                };
                self.mode = EditorMode::EditingRowHeight { row_idx: ri, buf };
                MenuOutcome::Done
            },
            (MenuAction::ToggleRowFillHeight, MenuContext::Row(ri)) => {
                dash.grid_toggle_row_fill_height(ri);
                self.dirty = true;
                MenuOutcome::Done
            },
            (MenuAction::AddColumn, MenuContext::Row(ri)) => {
                self.snapshot(dash);
                dash.grid_add_column(ri);
                self.dirty = true;
                MenuOutcome::Done
            },
            (MenuAction::RemoveRow, MenuContext::Row(ri)) => {
                self.mode = EditorMode::ConfirmRemoveRow { row_idx: ri };
                MenuOutcome::Done
            },
            (MenuAction::MoveRowUp, MenuContext::Row(ri)) | (MenuAction::MoveRowDown, MenuContext::Row(ri)) => {
                self.snapshot(dash);
                let id = self.selected_id(dash);
                let ghost d0 = *dash;
                let moved_ok = dash.grid_move_row(ri, act == MenuAction::MoveRowUp);
                proof {
                    lemma_row_move_count(d0, *dash, ri, act == MenuAction::MoveRowUp, moved_ok);
                }
                self.after_move(dash, id);
                MenuOutcome::Done
            },
            (MenuAction::SetColumnFillHeight, MenuContext::GridColumn(ri, ci)) => {
                dash.grid_toggle_column_fill_height(ri, ci);
                self.dirty = true;
                MenuOutcome::Done
            },
            (MenuAction::RemoveColumn, MenuContext::GridColumn(ri, ci)) => {
                self.mode = EditorMode::ConfirmRemoveColumn { row_idx: ri, col_idx: ci };
                MenuOutcome::Done
            },
            (MenuAction::MoveColumnLeft, MenuContext::GridColumn(ri, ci)) | (MenuAction::MoveColumnRight, MenuContext::GridColumn(
                ri,
                ci,
            )) => {
                self.snapshot(dash);
                let id = self.selected_id(dash);
                let ghost d0 = *dash;
                let moved_ok = dash.grid_move_column(ri, ci, act == MenuAction::MoveColumnLeft);
                proof {
                    lemma_column_move_count(d0, *dash, ri, ci, act == MenuAction::MoveColumnLeft, moved_ok);
                }
                self.after_move(dash, id);
                MenuOutcome::Done
            },
            (MenuAction::AddRow, MenuContext::Dashboard) => {
                self.mode = EditorMode::PickingNewRowHeight { buf: String::new() };
                MenuOutcome::Done
            },
            (MenuAction::DeleteDashboard, MenuContext::Dashboard) => {
                self.mode = EditorMode::ConfirmDeleteDashboard;
                MenuOutcome::Done
            },
            _ => MenuOutcome::Failed(to_owned_string("menu action not valid in this context")),
        }
    }

    /// After the cards of `dash` moved: find the selected card (id `id`) again and mark the editor changed.
    fn after_move(&mut self, dash: &Dashboard, id: Option<CardId>)
        requires
            count_fits(*dash),
        ensures
            match id {
                Some(i) => has_id(flat_cards(*dash), i) ==> exists|j: int|
                    #![trigger first_with_id(flat_cards(*dash), i, j)]
                    first_with_id(flat_cards(*dash), i, j) && final(self).selected_card == Some(j as usize) && match dash.layout {
                        DashboardLayout::Grid { rows } => match locate(rows@, j) {
                            Some((r, c, p)) => final(self).grid_focus == Some(
                                GridFocus::Card { row: r as usize, col: c as usize, pos_in_col: p as usize },
                            ),
                            None => final(self).grid_focus == old(self).grid_focus,
                        },
                        _ => final(self).grid_focus == old(self).grid_focus,
                    },
                None => true,
            },
            id matches Some(i) && !has_id(flat_cards(*dash), i) ==> final(self).selected_card is None
                && final(self).grid_focus == old(self).grid_focus,
            id is None ==> final(self).selected_card == old(self).selected_card && final(self).grid_focus == old(self).grid_focus,
            *final(self) == (EditorState {
                selected_card: final(self).selected_card,
                grid_focus: final(self).grid_focus,
                dirty: true,
                ..*old(self)
            }),
    {
        match id {
            Some(i) => self.reselect(dash, i),
            None => {},
        }
        self.dirty = true;
    }

}

} // verus!
