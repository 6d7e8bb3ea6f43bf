//! Dashboard editor state: cursor, selection, the modal flows, undo, and the
//! contextual menus.
use vstd::prelude::*;

use crate::dashboard::{
    dashboard_same, BarOrientation, Card, CardId, CardKind, CardSize, Dashboard, DashboardLayout,
    GraphSeries, GraphType, Pos, RawF64, RowHeight, StatsMetric,
};
use crate::flat::{flat_cards, col_len, col_start, valid_col};
use crate::grid_ops::{count_fits, grid_rows, is_grid, max_id, same_shape, has_id, lemma_col_replaced_shape};
use crate::flat::{col_replaced, lemma_col_replaced, lemma_col_within};

verus! {

/// Undo history depth.
pub const MAX_UNDO: usize = 32;

#[derive(Clone, Copy, PartialEq, Eq, Structural, Debug)]
pub enum TransferOp {
    Move,
    Copy,
}

/// Where the editor focus sits within a grid-layout dashboard.
#[derive(Clone, Copy, PartialEq, Eq, Structural, Debug)]
pub enum GridFocus {
    Card { row: usize, col: usize, pos_in_col: usize },
    Column { row: usize, col: usize },
    Row { row: usize },
}

/// The first two severity thresholds while the third is being entered.
#[derive(Clone, Copy, PartialEq, Eq, Structural, Debug)]
pub struct SeverityAccum {
    pub green: RawF64,
    pub yellow: RawF64,
}

#[derive(Clone, Copy, PartialEq, Eq, Structural, Debug)]
pub enum SeriesIndexOp {
    Remove,
    SetColor,
    SetLabel,
}

#[derive(Clone, Copy, PartialEq, Eq, Structural, Debug)]
pub enum FilterFocus {
    Query,
    Title,
    HideToggle,
}

#[derive(Clone, Copy, PartialEq, Eq, Structural, Debug)]
pub enum MenuContext {
    Dashboard,
    Card(usize),
    Row(usize),
    GridColumn(usize, usize),
}

#[derive(Clone, Copy, PartialEq, Eq, Structural, Debug)]
pub enum MenuAction {
    RenameCard,
    ChangeEntity,
    EditWindow,
    EditQuery,
    ToggleHideState,
    ToggleHideWhenEmpty,
    ToggleTicker,
    SetColorOverride,
    SetCardSize,
    DeleteCard,
    RenameDashboard,
    ResizeGrid,
    AddGraphSeries,
    RemoveGraphSeries,
    SetGraphSeriesColor,
    SetGraphSeriesLabel,
    CycleGraphType,
    EditGraphWindow,
    EditGraphOrientation,
    EditSeverityThresholds,
    ToggleGaugeNeedle,
    ClockEditFormat,
    ClockEditTimezone,
    StatsEditMetric,
    StatsEditWindow,
    StatsEditUnit,
    MoveToDashboard,
    CopyToDashboard,
    MoveCardUpInColumn,
    MoveCardDownInColumn,
    MoveToColumn,
    SetRowHeight,
    ToggleRowFillHeight,
    AddColumn,
    RemoveRow,
    MoveRowUp,
    MoveRowDown,
    SetColumnFillHeight,
    RemoveColumn,
    MoveColumnLeft,
    MoveColumnRight,
    AddRow,
    EditEntryOverride,
    EditTextContent,
    DeleteDashboard,
}

#[derive(Clone, Copy, Debug)]
pub struct MenuItem {
    pub action: MenuAction,
    pub label: &'static str,
}

#[derive(Clone, Copy, PartialEq, Eq, Structural, Debug)]
pub enum CardTypeStub {
    Entity,
    Toggle,
    Gauge,
    Graph,
    Text,
    EntityList,
    FilteredEntityList,
    Clock,
    Statistics,
    MediaPlayer,
    Image,
    Weather,
}

/// The modal step the editor is in.
#[derive(Debug)]
#[allow(inconsistent_fields)]
pub enum EditorMode {
    Browse,
    PickingType { selected: usize },
    PickingInstance { card_type: CardTypeStub, selected: usize },
    PickingEntity { card_type: CardTypeStub, instance: String, query: String, selected: usize },
    EditingTitle {
        card_type: CardTypeStub,
        instance: String,
        entity: String,
        friendly_name: String,
        title_buffer: String,
    },
    EditingTextBody { title_buffer: String, body_buffer: String, focus_body: bool },
    PickingMulti { instance: String, query: String, selected: usize, picked: Vec<(String, String)> },
    EditingEntityListTitle { instance: String, picked: Vec<(String, String)>, title_buffer: String },
    EditEntityListItemOverride {
        card_idx: usize,
        item_idx: usize,
        entity_id: Option<String>,
        name_buf: String,
        hide_state: bool,
        focus_entity_id: bool,
    },
    Renaming { buffer: String },
    ResizingGrid { cols_buffer: String, rows_buffer: String, focus_rows: bool },
    ConfirmExit,
    ConfirmDelete,
    RenamingCard { card_idx: usize, buffer: String },
    EditingWindow { card_idx: usize, buffer: String },
    EditingFilterQuery {
        instance: String,
        query_buffer: String,
        title_buffer: String,
        hide_state: bool,
        focus: FilterFocus,
    },
    Menu { context: MenuContext, items: Vec<MenuItem>, selected: usize },
    EnterColorOverride { card_idx: usize, buf: String },
    PickCardSize { card_idx: usize, current: CardSize },
    GraphPickType,
    GraphPickInstance { graph_type: GraphType, selected: usize },
    GraphAddEntities {
        instance: String,
        graph_type: GraphType,
        accumulated: Vec<GraphSeries>,
        query: String,
        selected: usize,
        asking_more: bool,
    },
    GraphEditWindowAdd {
        instance: String,
        graph_type: GraphType,
        series: Vec<GraphSeries>,
        window_buf: String,
        title_buf: String,
        title_stage: bool,
    },
    GraphPickOrientationAdd {
        instance: String,
        series: Vec<GraphSeries>,
        current: BarOrientation,
        title_buf: String,
        title_stage: bool,
    },
    GraphAddOneSeries { card_idx: usize, query: String, selected: usize },
    GraphPickSeriesIndex { card_idx: usize, op: SeriesIndexOp, selected: usize },
    GraphEditSeriesColor { card_idx: usize, series_idx: usize, buf: String },
    GraphEditSeriesLabel { card_idx: usize, series_idx: usize, buf: String },
    GraphEditWindow { card_idx: usize, buf: String },
    GraphPickOrientation { card_idx: usize, current: BarOrientation },
    EditSeverityGreen { card_idx: usize, buf: String, accum: SeverityAccum },
    EditSeverityYellow { card_idx: usize, buf: String, accum: SeverityAccum },
    EditSeverityRed { card_idx: usize, buf: String, accum: SeverityAccum },
    ClockAddTitle { title_buffer: String },
    ClockAddFormat { title: Option<String>, format_buffer: String },
    ClockAddTimezone { title: Option<String>, format: String, tz_buffer: String },
    ClockEditFormat { card_idx: usize, buf: String },
    ClockEditTimezone { card_idx: usize, buf: String },
    StatsPickMetric { instance: String, entity: String, friendly_name: String, selected: usize },
    StatsEditWindowAdd {
        instance: String,
        entity: String,
        friendly_name: String,
        metric: StatsMetric,
        buf: String,
    },
    StatsEditUnitAdd {
        instance: String,
        entity: String,
        friendly_name: String,
        metric: StatsMetric,
        window: String,
        buf: String,
    },
    StatsEditTitleAdd {
        instance: String,
        entity: String,
        friendly_name: String,
        metric: StatsMetric,
        window: String,
        unit: Option<String>,
        buf: String,
    },
    StatsEditMetric { card_idx: usize, selected: usize },
    StatsEditWindow { card_idx: usize, buf: String },
    StatsEditUnit { card_idx: usize, buf: String },
    ImagePickSourceKind { selected: usize },
    ImageEditRefreshSeconds {
        instance: String,
        entity: String,
        friendly_name: String,
        is_camera: bool,
        buf: String,
    },
    ImageEditTitleAdd {
        instance: String,
        entity: String,
        friendly_name: String,
        is_camera: bool,
        refresh_seconds: Option<u32>,
        buf: String,
    },
    WxEditShowForecast { instance: String, entity: String, friendly_name: String, selected: usize },
    WxEditForecastDays {
        instance: String,
        entity: String,
        friendly_name: String,
        show_forecast: bool,
        buf: String,
    },
    WxEditTitleAdd {
        instance: String,
        entity: String,
        friendly_name: String,
        show_forecast: bool,
        forecast_days: u8,
        buf: String,
    },
    PickEntityListItemToOverride { card_idx: usize, items: Vec<(usize, String)>, selected: usize },
    PickingTargetDashboard { op: TransferOp, source_card_idx: usize, selected: usize },
    PickingTargetGridRow { op: TransferOp, source_card_idx: usize, target_dash: usize, selected: usize },
    PickingTargetGridColumn {
        op: TransferOp,
        source_card_idx: usize,
        target_dash: usize,
        target_row: usize,
        selected: usize,
    },
    PickingNewDashboardLayout { selected: usize },
    ConfirmDeleteDashboard,
    PickingNewRowHeight { buf: String },
    PickingNewRowColumnCount { height: RowHeight, buf: String },
    EditingRowHeight { row_idx: usize, buf: String },
    ConfirmRemoveRow { row_idx: usize },
    ConfirmRemoveColumn { row_idx: usize, col_idx: usize },
}

impl CardTypeStub {
    pub open spec fn label_spec(self) -> Seq<char> {
        match self {
            CardTypeStub::Entity => "entity"@,
            CardTypeStub::Toggle => "toggle"@,
            CardTypeStub::Gauge => "gauge"@,
            CardTypeStub::Graph => "graph"@,
            CardTypeStub::Text => "text"@,
            CardTypeStub::EntityList => "entity list (multi)"@,
            CardTypeStub::FilteredEntityList => "filtered list (glob + filters)"@,
            CardTypeStub::Clock => "clock"@,
            CardTypeStub::Statistics => "statistics"@,
            CardTypeStub::MediaPlayer => "media player"@,
            CardTypeStub::Image => "image / camera"@,
            CardTypeStub::Weather => "weather"@,
        }
    }

    pub fn label(self) -> (r: &'static str)
        ensures
            r@ == self.label_spec(),
    {
        match self {
            CardTypeStub::Entity => "entity",
            CardTypeStub::Toggle => "toggle",
            CardTypeStub::Gauge => "gauge",
            CardTypeStub::Graph => "graph",
            CardTypeStub::Text => "text",
            CardTypeStub::EntityList => "entity list (multi)",
            CardTypeStub::FilteredEntityList => "filtered list (glob + filters)",
            CardTypeStub::Clock => "clock",
            CardTypeStub::Statistics => "statistics",
            CardTypeStub::MediaPlayer => "media player",
            CardTypeStub::Image => "image / camera",
            CardTypeStub::Weather => "weather",
        }
    }

    /// Every card type, in the order the type picker lists them.
    pub fn all() -> (r: Vec<CardTypeStub>)
        ensures
            r@ == seq![
                CardTypeStub::Entity,
                CardTypeStub::Toggle,
                CardTypeStub::Gauge,
                CardTypeStub::Graph,
                CardTypeStub::Text,
                CardTypeStub::EntityList,
                CardTypeStub::FilteredEntityList,
                CardTypeStub::Clock,
                CardTypeStub::Statistics,
                CardTypeStub::MediaPlayer,
                CardTypeStub::Image,
                CardTypeStub::Weather,
            ],
    {
        let r = vec![
            CardTypeStub::Entity,
            CardTypeStub::Toggle,
            CardTypeStub::Gauge,
            CardTypeStub::Graph,
            CardTypeStub::Text,
            CardTypeStub::EntityList,
            CardTypeStub::FilteredEntityList,
            CardTypeStub::Clock,
            CardTypeStub::Statistics,
            CardTypeStub::MediaPlayer,
            CardTypeStub::Image,
            CardTypeStub::Weather,
        ];
        assert(r@ =~= seq![
            CardTypeStub::Entity,
            CardTypeStub::Toggle,
            CardTypeStub::Gauge,
            CardTypeStub::Graph,
            CardTypeStub::Text,
            CardTypeStub::EntityList,
            CardTypeStub::FilteredEntityList,
            CardTypeStub::Clock,
            CardTypeStub::Statistics,
            CardTypeStub::MediaPlayer,
            CardTypeStub::Image,
            CardTypeStub::Weather,
        ]);
        r
    }
}


/// A menu as (action, label) pairs.
pub open spec fn menu_view(items: Seq<MenuItem>) -> Seq<(MenuAction, Seq<char>)> {
    items.map_values(|m: MenuItem| (m.action, m.label@))
}

fn push_item(v: &mut Vec<MenuItem>, action: MenuAction, label: &'static str)
    ensures
        menu_view(final(v)@) == menu_view(old(v)@).push((action, label@)),
{
    v.push(MenuItem { action, label });
    assert(menu_view(v@) =~= menu_view(old(v)@).push((action, label@)));
}

/// Grid-only card menu additions.
pub fn grid_card_extra_items() -> (r: Vec<MenuItem>)
    ensures
        menu_view(r@) == seq![
            (MenuAction::MoveCardUpInColumn, "Move up in column"@),
            (MenuAction::MoveCardDownInColumn, "Move down in column"@),
            (MenuAction::MoveToColumn, "Move to column…"@),
        ],
{
    let mut v: Vec<MenuItem> = Vec::new();
    push_item(&mut v, MenuAction::MoveCardUpInColumn, "Move up in column");
    push_item(&mut v, MenuAction::MoveCardDownInColumn, "Move down in column");
    push_item(&mut v, MenuAction::MoveToColumn, "Move to column…");
    v
}

pub fn row_menu_items() -> (r: Vec<MenuItem>)
    ensures
        menu_view(r@) == seq![
            (MenuAction::SetRowHeight, "Set row height"@),
            (MenuAction::ToggleRowFillHeight, "Toggle fill_height default"@),
            (MenuAction::AddColumn, "Add column"@),
            (MenuAction::MoveRowUp, "Move row up"@),
            (MenuAction::MoveRowDown, "Move row down"@),
            (MenuAction::RemoveRow, "Remove row"@),
        ],
{
    let mut v: Vec<MenuItem> = Vec::new();
    push_item(&mut v, MenuAction::SetRowHeight, "Set row height");
    push_item(&mut v, MenuAction::ToggleRowFillHeight, "Toggle fill_height default");
    push_item(&mut v, MenuAction::AddColumn, "Add column");
    push_item(&mut v, MenuAction::MoveRowUp, "Move row up");
    push_item(&mut v, MenuAction::MoveRowDown, "Move row down");
    push_item(&mut v, MenuAction::RemoveRow, "Remove row");
    v
}

pub fn column_menu_items() -> (r: Vec<MenuItem>)
    ensures
        menu_view(r@) == seq![
            (MenuAction::SetColumnFillHeight, "Toggle fill_height"@),
            (MenuAction::MoveColumnLeft, "Move column left"@),
            (MenuAction::MoveColumnRight, "Move column right"@),
            (MenuAction::RemoveColumn, "Remove column"@),
        ],
{
    let mut v: Vec<MenuItem> = Vec::new();
    push_item(&mut v, MenuAction::SetColumnFillHeight, "Toggle fill_height");
    push_item(&mut v, MenuAction::MoveColumnLeft, "Move column left");
    push_item(&mut v, MenuAction::MoveColumnRight, "Move column right");
    push_item(&mut v, MenuAction::RemoveColumn, "Remove column");
    v
}

pub fn dashboard_menu_items(is_grid: bool) -> (r: Vec<MenuItem>)
    ensures
        menu_view(r@) == seq![
            (MenuAction::RenameDashboard, "Rename dashboard"@),
            if is_grid {
                (MenuAction::AddRow, "Add row"@)
            } else {
                (MenuAction::ResizeGrid, "Grid size (cols × rows)"@)
            },
            (MenuAction::DeleteDashboard, "Delete dashboard"@),
        ],
{
    let mut v: Vec<MenuItem> = Vec::new();
    push_item(&mut v, MenuAction::RenameDashboard, "Rename dashboard");
    if is_grid {
        push_item(&mut v, MenuAction::AddRow, "Add row");
    } else {
        push_item(&mut v, MenuAction::ResizeGrid, "Grid size (cols × rows)");
    }
    push_item(&mut v, MenuAction::DeleteDashboard, "Delete dashboard");
    v
}

/// The graph part of a card menu.
pub open spec fn graph_menu_spec(graph_type: GraphType, n_series: int) -> Seq<(MenuAction, Seq<char>)> {
    seq![(MenuAction::AddGraphSeries, "Add series"@)]
        + (if n_series > 1 { seq![(MenuAction::RemoveGraphSeries, "Remove series"@)] } else { Seq::empty() })
        + seq![
            (MenuAction::SetGraphSeriesColor, "Set series colour"@),
            (MenuAction::SetGraphSeriesLabel, "Set series label"@),
            (MenuAction::CycleGraphType, "Change type"@),
        ]
        + (if graph_type == GraphType::Line { seq![(MenuAction::EditGraphWindow, "Window"@)] } else { Seq::empty() })
        + (if graph_type == GraphType::Bar { seq![(MenuAction::EditGraphOrientation, "Orientation"@)] } else { Seq::empty() })
}

/// The kind-specific middle of a card menu.
pub open spec fn kind_menu_spec(k: CardKind) -> Seq<(MenuAction, Seq<char>)> {
    match k {
        CardKind::Text { .. } => seq![(MenuAction::EditTextContent, "Edit content"@)],
        CardKind::EntityList { .. } => seq![(MenuAction::ChangeEntity, "Change entities"@)],
        CardKind::FilteredEntityList { hide_when_empty, .. } => seq![
            (MenuAction::EditQuery, "Edit filter query"@),
            (MenuAction::ToggleHideState, "Toggle hide state column"@),
            (MenuAction::ToggleHideWhenEmpty, if hide_when_empty { "Hide when empty: on"@ } else { "Hide when empty: off"@ }),
        ],
        CardKind::Graph { graph_type, entities, .. } => graph_menu_spec(graph_type, entities@.len() as int),
        CardKind::Clock { .. } => seq![
            (MenuAction::ClockEditFormat, "Format"@),
            (MenuAction::ClockEditTimezone, "Timezone"@),
        ],
        CardKind::Gauge { needle, .. } => seq![
            (MenuAction::ChangeEntity, "Change entity"@),
            (MenuAction::EditSeverityThresholds, "Severity thresholds"@),
            (MenuAction::ToggleGaugeNeedle, if needle { "Needle: on"@ } else { "Needle: off"@ }),
        ],
        CardKind::Statistics { .. } => seq![
            (MenuAction::ChangeEntity, "Change entity"@),
            (MenuAction::StatsEditMetric, "Metric"@),
            (MenuAction::StatsEditWindow, "Window"@),
            (MenuAction::StatsEditUnit, "Unit"@),
        ],
        CardKind::Entity { .. } => seq![
            (MenuAction::ChangeEntity, "Change entity"@),
            (MenuAction::ToggleTicker, "Toggle ticker mode"@),
        ],
        _ => seq![(MenuAction::ChangeEntity, "Change entity"@)],
    }
}

/// The settings menu of a card: rename, the kind's own entries, then colour,
/// size, moving/copying to another dashboard and deletion.
pub open spec fn card_menu_spec(card: Card) -> Seq<(MenuAction, Seq<char>)> {
    seq![(MenuAction::RenameCard, "Rename card"@)] + kind_menu_spec(card.kind) + seq![
        (MenuAction::SetColorOverride, "Color override"@),
        (MenuAction::SetCardSize, "Size"@),
        (MenuAction::MoveToDashboard, "Move to dashboard…"@),
        (MenuAction::CopyToDashboard, "Copy to dashboard…"@),
        (MenuAction::DeleteCard, "Delete card"@),
    ]
}

fn kind_menu_items(items: &mut Vec<MenuItem>, card: &Card)
    ensures
        menu_view(final(items)@) == menu_view(old(items)@) + kind_menu_spec(card.kind),
{
    let ghost start = menu_view(items@);
    match &card.kind {
        CardKind::Text { .. } => {
            push_item(items, MenuAction::EditTextContent, "Edit content");
        },
        CardKind::EntityList { .. } => {
            push_item(items, MenuAction::ChangeEntity, "Change entities");
        },
        CardKind::FilteredEntityList { hide_when_empty, .. } => {
            push_item(items, MenuAction::EditQuery, "Edit filter query");
            push_item(items, MenuAction::ToggleHideState, "Toggle hide state column");
            let hwe_label: &'static str = if *hide_when_empty {
                "Hide when empty: on"
            } else {
                "Hide when empty: off"
            };
            push_item(items, MenuAction::ToggleHideWhenEmpty, hwe_label);
        },
        CardKind::Graph { graph_type, entities, .. } => {
            push_item(items, MenuAction::AddGraphSeries, "Add series");
            let ghost a = menu_view(items@);
            if entities.len() > 1 {
                push_item(items, MenuAction::RemoveGraphSeries, "Remove series");
            }
            let ghost b = menu_view(items@);
            push_item(items, MenuAction::SetGraphSeriesColor, "Set series colour");
            push_item(items, MenuAction::SetGraphSeriesLabel, "Set series label");
            push_item(items, MenuAction::CycleGraphType, "Change type");
            let ghost c = menu_view(items@);
            if *graph_type == GraphType::Line {
                push_item(items, MenuAction::EditGraphWindow, "Window");
            }
            let ghost d = menu_view(items@);
            if *graph_type == GraphType::Bar {
                push_item(items, MenuAction::EditGraphOrientation, "Orientation");
            }
            assert(menu_view(items@) =~= start + graph_menu_spec(*graph_type, entities@.len() as int));
        },
        CardKind::Clock { .. } => {
            push_item(items, MenuAction::ClockEditFormat, "Format");
            push_item(items, MenuAction::ClockEditTimezone, "Timezone");
        },
        CardKind::Gauge { needle, .. } => {
            push_item(items, MenuAction::ChangeEntity, "Change entity");
            push_item(items, MenuAction::EditSeverityThresholds, "Severity thresholds");
            let needle_label: &'static str = if *needle {
                "Needle: on"
            } else {
                "Needle: off"
            };
            push_item(items, MenuAction::ToggleGaugeNeedle, needle_label);
        },
        CardKind::Statistics { .. } => {
            push_item(items, MenuAction::ChangeEntity, "Change entity");
            push_item(items, MenuAction::StatsEditMetric, "Metric");
            push_item(items, MenuAction::StatsEditWindow, "Window");
            push_item(items, MenuAction::StatsEditUnit, "Unit");
        },
        CardKind::Entity { .. } => {
            push_item(items, MenuAction::ChangeEntity, "Change entity");
            push_item(items, MenuAction::ToggleTicker, "Toggle ticker mode");
        },
        _ => {
            push_item(items, MenuAction::ChangeEntity, "Change entity");
        },
    }
    assert(menu_view(items@) =~= start + kind_menu_spec(card.kind));
}

/// The settings menu of a card.
pub fn card_menu_items(card: &Card) -> (r: Vec<MenuItem>)
    ensures
        menu_view(r@) == card_menu_spec(*card),
{
    let mut items: Vec<MenuItem> = Vec::new();
    push_item(&mut items, MenuAction::RenameCard, "Rename card");
    kind_menu_items(&mut items, card);
    let ghost mid = menu_view(items@);
    push_item(&mut items, MenuAction::SetColorOverride, "Color override");
    push_item(&mut items, MenuAction::SetCardSize, "Size");
    push_item(&mut items, MenuAction::MoveToDashboard, "Move to dashboard…");
    push_item(&mut items, MenuAction::CopyToDashboard, "Copy to dashboard…");
    push_item(&mut items, MenuAction::DeleteCard, "Delete card");
    assert(menu_view(items@) =~= card_menu_spec(*card));
    items
}


#[verifier::external_type_specification]
#[verifier::external_body]
pub struct ExPathBuf(std::path::PathBuf);

#[derive(Debug)]
pub struct EditorState {
    pub dash_idx: usize,
    pub cursor_col: u16,
    pub cursor_row: u16,
    pub selected_card: Option<usize>,
    pub mode: EditorMode,
    pub undo_stack: Vec<Dashboard>,
    pub dirty: bool,
    pub source_path: Option<std::path::PathBuf>,
    /// When set, the card flow in progress replaces this card instead of adding one.
    pub edit_target: Option<usize>,
    /// During the image add-flow: whether the entity picker shows cameras.
    pub image_pending_is_camera: Option<bool>,
    /// Focus within a grid-layout dashboard; `None` for free dashboards.
    pub grid_focus: Option<GridFocus>,
}

/// The undo stack after recording `d`: the oldest entry drops out once the
/// stack holds `MAX_UNDO` dashboards.
pub open spec fn snapshot_stack(before: Seq<Dashboard>, d: Dashboard, after: Seq<Dashboard>) -> bool {
    let base = if before.len() == MAX_UNDO {
        before.drop_first()
    } else {
        before
    };
    &&& after.len() == base.len() + 1
    &&& after.drop_last() == base
    &&& dashboard_same(after.last(), d)
}

/// `i32::clamp`.
pub open spec fn clamp_int(n: int, lo: int, hi: int) -> int {
    if n < lo {
        lo
    } else if n > hi {
        hi
    } else {
        n
    }
}

pub open spec fn sat_sub(a: u16, b: u16) -> u16 {
    if a >= b {
        (a - b) as u16
    } else {
        0
    }
}

/// A cursor coordinate moved by `delta`, kept within `0..=max`.
pub open spec fn clamp_add_spec(v: u16, delta: i32, max: u16) -> u16 {
    clamp_int(v + delta, 0, max as int) as u16
}

/// A card dimension changed by `delta`, kept within `1..=max(headroom, 1)`.
pub open spec fn clamp_dim_spec(v: u16, delta: i32, headroom: u16) -> u16 {
    clamp_int(v + delta, 1, if headroom >= 1 { headroom as int } else { 1 }) as u16
}

pub fn clamp_add(v: u16, delta: i32, max: u16) -> (r: u16)
    requires
        v + delta <= i32::MAX,
    ensures
        r == clamp_add_spec(v, delta, max),
        r <= max,
{
    let n: i32 = v as i32 + delta;
    let m: i32 = max as i32;
    if n < 0 {
        0
    } else if n > m {
        max
    } else {
        n as u16
    }
}

pub fn clamp_dim(v: u16, delta: i32, headroom: u16) -> (r: u16)
    requires
        v + delta <= i32::MAX,
    ensures
        r == clamp_dim_spec(v, delta, headroom),
        1 <= r,
        r <= headroom || r == 1,
{
    let n: i32 = v as i32 + delta;
    let hi: i32 = if headroom >= 1 {
        headroom as i32
    } else {
        1
    };
    if n < 1 {
        1
    } else if n > hi {
        hi as u16
    } else {
        n as u16
    }
}

/// A card's cell rectangle covers (col, row).
pub open spec fn pos_contains(p: Pos, col: u16, row: u16) -> bool {
    col >= p.col && col < p.col + p.w && row >= p.row && row < p.row + p.h
}

pub open spec fn card_hit(c: Card, col: u16, row: u16) -> bool {
    c.pos matches Some(p) && pos_contains(p, col, row)
}

/// Every free card's rectangle ends within the `u16` range.
pub open spec fn positions_fit(cards: Seq<Card>) -> bool {
    forall|i: int| 0 <= i < cards.len() ==> ((#[trigger] cards[i]).pos matches Some(p) ==> p.col + p.w
        <= u16::MAX && p.row + p.h <= u16::MAX)
}

/// The card drawn on top at a free-canvas cell: the last one that covers it.
pub fn card_at(dash: &Dashboard, col: u16, row: u16) -> (r: Option<usize>)
    requires
        positions_fit(flat_cards(*dash)),
    ensures
        !(dash.layout is Free) ==> r is None,
        dash.layout is Free ==> match r {
            Some(i) => i < flat_cards(*dash).len() && card_hit(flat_cards(*dash)[i as int], col, row)
                && forall|j: int| i < j < flat_cards(*dash).len() ==> !card_hit(#[trigger] flat_cards(*dash)[j], col, row),
            None => forall|j: int| 0 <= j < flat_cards(*dash).len() ==> !card_hit(#[trigger] flat_cards(*dash)[j], col, row),
        },
{
    let cards = match &dash.layout {
        DashboardLayout::Free { cards, .. } => cards,
        DashboardLayout::Grid { .. } => {
            return None;
        },
    };
    let mut i: usize = cards.len();
    while i > 0
        invariant
            i <= cards@.len(),
            dash.layout is Free,
            cards@ == flat_cards(*dash),
            positions_fit(cards@),
            forall|j: int| i <= j < cards@.len() ==> !card_hit(#[trigger] cards@[j], col, row),
        decreases i,
    {
        let c = &cards[i - 1];
        match c.pos {
            Some(p) => {
                assert(cards@[i - 1] == *c);
                if col >= p.col && col < p.col + p.w && row >= p.row && row < p.row + p.h {
                    return Some(i - 1);
                }
            },
            None => {},
        }
        i = i - 1;
    }
    None
}

/// Every field but the listed ones is unchanged.
pub open spec fn same_view_state(a: EditorState, b: EditorState) -> bool {
    &&& a.dash_idx == b.dash_idx
    &&& a.mode == b.mode
    &&& a.undo_stack == b.undo_stack
    &&& a.source_path == b.source_path
    &&& a.image_pending_is_camera == b.image_pending_is_camera
}

/// `b` is editor `a` with the card under its cursor selected.
pub open spec fn selected_at_cursor(a: EditorState, d: Dashboard, b: EditorState) -> bool {
    &&& !(d.layout is Free) ==> b.selected_card is None
    &&& d.layout is Free ==> match b.selected_card {
        Some(i) => i < flat_cards(d).len() && card_hit(flat_cards(d)[i as int], a.cursor_col, a.cursor_row)
            && forall|j: int| i < j < flat_cards(d).len() ==> !card_hit(#[trigger] flat_cards(d)[j], a.cursor_col, a.cursor_row),
        None => forall|j: int| 0 <= j < flat_cards(d).len() ==> !card_hit(#[trigger] flat_cards(d)[j], a.cursor_col, a.cursor_row),
    }
    &&& b.cursor_col == a.cursor_col
    &&& b.cursor_row == a.cursor_row
    &&& b.dirty == a.dirty
    &&& b.edit_target == a.edit_target
    &&& b.grid_focus == a.grid_focus
    &&& same_view_state(b, a)
}

/// `b` and `e` are editor `a` and dashboard `d` after resizing the selected free card by (`dw`, `dh`).
pub open spec fn selection_resized(a: EditorState, d: Dashboard, dw: i32, dh: i32, b: EditorState, e: Dashboard) -> bool {
    &&& same_shape(d, e)
    &&& match a.selected_card {
        Some(i) if i < flat_cards(d).len() => match flat_cards(d)[i as int].pos {
            Some(p) => {
                let (gc, gr) = placement_grid(d);
                &&& flat_cards(e) == flat_cards(d).update(
                    i as int,
                    with_pos(flat_cards(d)[i as int], resized(p, dw, dh, gc, gr)),
                )
                &&& b.dirty
            },
            None => flat_cards(e) == flat_cards(d) && b.dirty == a.dirty,
        },
        _ => flat_cards(e) == flat_cards(d) && b.dirty == a.dirty,
    }
    &&& b.cursor_col == a.cursor_col
    &&& b.cursor_row == a.cursor_row
    &&& b.selected_card == a.selected_card
    &&& b.edit_target == a.edit_target
    &&& b.grid_focus == a.grid_focus
    &&& same_view_state(b, a)
}

/// `b` and `e` are editor `a` and dashboard `d` after moving the selected free card to the cursor.
pub open spec fn selection_moved_to_cursor(a: EditorState, d: Dashboard, b: EditorState, e: Dashboard) -> bool {
    &&& same_shape(d, e)
    &&& match a.selected_card {
        Some(i) if i < flat_cards(d).len() => match flat_cards(d)[i as int].pos {
            Some(p) => {
                let (gc, gr) = placement_grid(d);
                let q = moved_to(p, a.cursor_col, a.cursor_row, gc, gr);
                &&& flat_cards(e) == flat_cards(d).update(
                    i as int,
                    with_pos(flat_cards(d)[i as int], q),
                )
                &&& b.dirty == (a.dirty || q != p)
            },
            None => flat_cards(e) == flat_cards(d) && b.dirty == a.dirty,
        },
        _ => flat_cards(e) == flat_cards(d) && b.dirty == a.dirty,
    }
    &&& b.cursor_col == a.cursor_col
    &&& b.cursor_row == a.cursor_row
    &&& b.selected_card == a.selected_card
    &&& b.edit_target == a.edit_target
    &&& b.grid_focus == a.grid_focus
    &&& same_view_state(b, a)
}

/// `b` and `e` are editor `a` and dashboard `d` after an undo (`r` says whether there was one).
pub open spec fn undone(a: EditorState, d: Dashboard, b: EditorState, e: Dashboard, r: bool) -> bool {
    &&& r == (a.undo_stack@.len() > 0)
    &&& r ==> e == a.undo_stack@.last() && b.undo_stack@
        == a.undo_stack@.drop_last() && b.dirty
    &&& !r ==> e == d && b == a
    &&& b.dash_idx == a.dash_idx
    &&& b.cursor_col == a.cursor_col
    &&& b.cursor_row == a.cursor_row
    &&& b.selected_card == a.selected_card
    &&& b.mode == a.mode
    &&& b.edit_target == a.edit_target
    &&& b.grid_focus == a.grid_focus
}

impl EditorState {
    pub fn new(dash_idx: usize, source_path: Option<std::path::PathBuf>) -> (r: Self)
        ensures
            r.dash_idx == dash_idx,
            r.cursor_col == 0,
            r.cursor_row == 0,
            r.selected_card is None,
            r.mode is Browse,
            r.undo_stack@.len() == 0,
            !r.dirty,
            r.source_path == source_path,
            r.edit_target is None,
            r.image_pending_is_camera is None,
            r.grid_focus is None,
    {
        EditorState {
            dash_idx,
            cursor_col: 0,
            cursor_row: 0,
            selected_card: None,
            mode: EditorMode::Browse,
            undo_stack: Vec::new(),
            dirty: false,
            source_path,
            edit_target: None,
            image_pending_is_camera: None,
            grid_focus: None,
        }
    }

    /// Record `dash` on the undo stack.
    pub fn snapshot(&mut self, dash: &Dashboard)
        ensures
            snapshot_stack(old(self).undo_stack@, *dash, final(self).undo_stack@),
            final(self).dash_idx == old(self).dash_idx,
            final(self).cursor_col == old(self).cursor_col,
            final(self).cursor_row == old(self).cursor_row,
            final(self).selected_card == old(self).selected_card,
            final(self).mode == old(self).mode,
            final(self).dirty == old(self).dirty,
            final(self).source_path == old(self).source_path,
            final(self).edit_target == old(self).edit_target,
            final(self).image_pending_is_camera == old(self).image_pending_is_camera,
            final(self).grid_focus == old(self).grid_focus,
    {
        if self.undo_stack.len() == MAX_UNDO {
            self.undo_stack.remove(0);
        }
        let ghost base = self.undo_stack@;
        self.undo_stack.push(dash.duplicate());
        assert(self.undo_stack@.drop_last() =~= base);
    }

    /// Restore the most recent snapshot; `false` when there is none.
    pub fn undo(&mut self, dash: &mut Dashboard) -> (r: bool)
        ensures
            undone(*old(self), *old(dash), *final(self), *final(dash), r),
    {
        if self.undo_stack.len() == 0 {
            return false;
        }
        match self.undo_stack.pop() {
            Some(prev) => {
                *dash = prev;
                self.dirty = true;
                true
            },
            None => false,
        }
    }

    /// Move the free-canvas cursor, kept on the grid.
    pub fn move_cursor(&mut self, dx: i32, dy: i32, dash: &Dashboard)
        requires
            old(self).cursor_col + dx <= i32::MAX,
            old(self).cursor_row + dy <= i32::MAX,
        ensures
            match dash.free_grid_spec() {
                Some(g) => {
                    &&& final(self).cursor_col == clamp_add_spec(old(self).cursor_col, dx, sat_sub(g.cols, 1))
                    &&& final(self).cursor_row == clamp_add_spec(old(self).cursor_row, dy, sat_sub(g.rows, 1))
                    &&& (g.cols > 0 ==> final(self).cursor_col < g.cols)
                    &&& (g.rows > 0 ==> final(self).cursor_row < g.rows)
                },
                None => final(self).cursor_col == old(self).cursor_col && final(self).cursor_row == old(self).cursor_row,
            },
            final(self).selected_card == old(self).selected_card,
            final(self).dirty == old(self).dirty,
            final(self).edit_target == old(self).edit_target,
            final(self).grid_focus == old(self).grid_focus,
            same_view_state(*final(self), *old(self)),
    {
        match dash.free_grid() {
            Some(grid) => {
                let mc: u16 = if grid.cols >= 1 {
                    grid.cols - 1
                } else {
                    0
                };
                let mr: u16 = if grid.rows >= 1 {
                    grid.rows - 1
                } else {
                    0
                };
                self.cursor_col = clamp_add(self.cursor_col, dx, mc);
                self.cursor_row = clamp_add(self.cursor_row, dy, mr);
            },
            None => {},
        }
    }

    /// Select the card under the cursor (or nothing).
    pub fn select_at_cursor(&mut self, dash: &Dashboard)
        requires
            positions_fit(flat_cards(*dash)),
        ensures
            selected_at_cursor(*old(self), *dash, *final(self)),
    {
        self.selected_card = card_at(dash, self.cursor_col, self.cursor_row);
    }
}

/// Recording a snapshot and then undoing gives back the recorded dashboard and
/// the stack as it was (less its oldest entry if it was full).
pub proof fn law_undo_restores_snapshot(before: Seq<Dashboard>, d: Dashboard, after: Seq<Dashboard>)
    requires
        snapshot_stack(before, d, after),
    ensures
        after.len() > 0,
        dashboard_same(after.last(), d),
        after.drop_last() == (if before.len() == MAX_UNDO { before.drop_first() } else { before }),
{
}

/// The undo stack never grows past `MAX_UNDO` entries.
pub proof fn law_undo_stack_bounded(before: Seq<Dashboard>, d: Dashboard, after: Seq<Dashboard>)
    requires
        snapshot_stack(before, d, after),
        before.len() <= MAX_UNDO,
    ensures
        after.len() <= MAX_UNDO,
{
}


/// Grid size for placement: the free grid, or 12×8 for a grid layout.
pub open spec fn placement_grid(d: Dashboard) -> (u16, u16) {
    match d.free_grid_spec() {
        Some(g) => (g.cols, g.rows),
        None => (12, 8),
    }
}

/// `c` with its position replaced.
pub open spec fn with_pos(c: Card, p: Pos) -> Card {
    Card { id: c.id, kind: c.kind, pos: Some(p), height: c.height, color: c.color, size: c.size }
}

/// `c` showing `kind` instead.
pub open spec fn with_kind(c: Card, kind: CardKind) -> Card {
    Card { id: c.id, kind, pos: c.pos, height: c.height, color: c.color, size: c.size }
}

/// The rectangle a resize produces (dimensions stay at least 1 and within the grid).
pub open spec fn resized(p: Pos, dw: i32, dh: i32, gc: u16, gr: u16) -> Pos {
    Pos {
        col: p.col,
        row: p.row,
        w: clamp_dim_spec(p.w, dw, (gc - p.col) as u16),
        h: clamp_dim_spec(p.h, dh, (gr - p.row) as u16),
    }
}

/// The rectangle a move to the cursor produces (kept inside the grid).
pub open spec fn moved_to(p: Pos, col: u16, row: u16, gc: u16, gr: u16) -> Pos {
    Pos {
        col: if col <= sat_sub(gc, p.w) { col } else { sat_sub(gc, p.w) },
        row: if row <= sat_sub(gr, p.h) { row } else { sat_sub(gr, p.h) },
        w: p.w,
        h: p.h,
    }
}

/// The title a card kind gets from a retitle.
pub open spec fn with_title(k: CardKind, t: Option<String>) -> CardKind {
    match k {
        CardKind::Entity { instance, entity, title, ticker } => CardKind::Entity { instance, entity, title: t, ticker },
        CardKind::Toggle { instance, entity, title } => CardKind::Toggle { instance, entity, title: t },
        CardKind::Gauge { instance, entity, min, max, unit, severity, needle, title } => CardKind::Gauge {
            instance,
            entity,
            min,
            max,
            unit,
            severity,
            needle,
            title: t,
        },
        CardKind::Graph { instance, entity, entities, graph_type, window, orientation, title } => CardKind::Graph {
            instance,
            entity,
            entities,
            graph_type,
            window,
            orientation,
            title: t,
        },
        CardKind::Text { markdown, title } => CardKind::Text { markdown, title: t },
        CardKind::EntityList { instance, entities, title } => CardKind::EntityList { instance, entities, title: t },
        CardKind::FilteredEntityList { instance, query, hide_state, hide_when_empty, title, overrides } =>
            CardKind::FilteredEntityList { instance, query, hide_state, hide_when_empty, title: t, overrides },
        CardKind::Clock { format, timezone, title } => CardKind::Clock { format, timezone, title: t },
        CardKind::Statistics { instance, entity, window, metric, unit, title } => CardKind::Statistics {
            instance,
            entity,
            window,
            metric,
            unit,
            title: t,
        },
        CardKind::MediaPlayer { instance, entity, title } => CardKind::MediaPlayer { instance, entity, title: t },
        CardKind::Image { instance, source, refresh_seconds, title } => CardKind::Image {
            instance,
            source,
            refresh_seconds,
            title: t,
        },
        CardKind::Weather { instance, entity, show_forecast, forecast_days, title } => CardKind::Weather {
            instance,
            entity,
            show_forecast,
            forecast_days,
            title: t,
        },
        CardKind::AttributeList { instance, entity, attribute, template, limit, title } =>
            CardKind::AttributeList { instance, entity, attribute, template, limit, title: t },
    }
}

fn placement_dims(dash: &Dashboard) -> (r: (u16, u16))
    ensures
        r == placement_grid(*dash),
{
    match dash.free_grid() {
        Some(g) => (g.cols, g.rows),
        None => (12, 8),
    }
}

impl EditorState {
    /// Grow or shrink the selected free card, keeping it within the grid.
    pub fn resize_selected(&mut self, dw: i32, dh: i32, dash: &mut Dashboard)
        requires
            old(self).selected_card matches Some(i) ==> (i < flat_cards(*old(dash)).len() ==> (flat_cards(
                *old(dash),
            )[i as int].pos matches Some(p) ==> ({
                let (gc, gr) = placement_grid(*old(dash));
                p.col <= gc && p.row <= gr && p.w + dw <= i32::MAX && p.h + dh <= i32::MAX
            }))),
        ensures
            selection_resized(*old(self), *old(dash), dw, dh, *final(self), *final(dash)),
    {
        let i = match self.selected_card {
            Some(i) => i,
            None => {
                return;
            },
        };
        let (grid_cols, grid_rows) = placement_dims(dash);
        let ghost old_flat = flat_cards(*dash);
        let card = match dash.card_mut(i) {
            Some(c) => c,
            None => {
                return;
            },
        };
        match card.pos {
            Some(p) => {
                let new_w = clamp_dim(p.w, dw, grid_cols - p.col);
                let new_h = clamp_dim(p.h, dh, grid_rows - p.row);
                card.pos = Some(Pos { col: p.col, row: p.row, w: new_w, h: new_h });
                self.dirty = true;
            },
            None => {
                assert(old_flat.update(i as int, old_flat[i as int]) =~= old_flat);
            },
        }
    }

    /// Move the selected free card to the cursor, clamped so it stays on the grid.
    pub fn move_selected_to_cursor(&mut self, dash: &mut Dashboard)
        ensures
            selection_moved_to_cursor(*old(self), *old(dash), *final(self), *final(dash)),
    {
        let i = match self.selected_card {
            Some(i) => i,
            None => {
                return;
            },
        };
        let target_col = self.cursor_col;
        let target_row = self.cursor_row;
        let (grid_cols, grid_rows) = placement_dims(dash);
        let ghost old_flat = flat_cards(*dash);
        let card = match dash.card_mut(i) {
            Some(c) => c,
            None => {
                return;
            },
        };
        match card.pos {
            Some(p) => {
                let lim_c: u16 = if grid_cols >= p.w { grid_cols - p.w } else { 0 };
                let lim_r: u16 = if grid_rows >= p.h { grid_rows - p.h } else { 0 };
                let new_col = if target_col <= lim_c { target_col } else { lim_c };
                let new_row = if target_row <= lim_r { target_row } else { lim_r };
                if p.col != new_col || p.row != new_row {
                    card.pos = Some(Pos { col: new_col, row: new_row, w: p.w, h: p.h });
                    self.dirty = true;
                } else {
                    assert(with_pos(old_flat[i as int], p) == old_flat[i as int]);
                }
            },
            None => {
                assert(old_flat.update(i as int, old_flat[i as int]) =~= old_flat);
            },
        }
    }

    /// Delete the selected card; the selection is cleared either way.
    pub fn delete_selected(&mut self, dash: &mut Dashboard)
        ensures
            final(self).selected_card is None,
            match old(self).selected_card {
                Some(i) if i < flat_cards(*old(dash)).len() => {
                    &&& flat_cards(*final(dash)) == flat_cards(*old(dash)).remove(i as int)
                    &&& final(self).grid_focus is None
                    &&& final(self).dirty
                },
                _ => *final(dash) == *old(dash) && final(self).grid_focus == old(self).grid_focus
                    && final(self).dirty == old(self).dirty,
            },
            final(dash).name == old(dash).name,
            final(self).cursor_col == old(self).cursor_col,
            final(self).cursor_row == old(self).cursor_row,
            final(self).edit_target == old(self).edit_target,
            same_view_state(*final(self), *old(self)),
    {
        let sel = self.selected_card;
        self.selected_card = None;
        let i = match sel {
            Some(i) => i,
            None => {
                return;
            },
        };
        match dash.remove_card_at(i) {
            Some(_) => {
                self.grid_focus = None;
                self.dirty = true;
            },
            None => {},
        }
    }

    /// Replace the title of the card at `idx`, keeping everything else.
    pub fn retitle_card(&mut self, dash: &mut Dashboard, idx: usize, new_title: Option<String>)
        ensures
            same_shape(*old(dash), *final(dash)),
            idx < flat_cards(*old(dash)).len() ==> {
                let c = flat_cards(*old(dash))[idx as int];
                &&& flat_cards(*final(dash)) == flat_cards(*old(dash)).update(
                    idx as int,
                    with_kind(c, with_title(c.kind, new_title)),
                )
                &&& final(self).dirty
            },
            idx >= flat_cards(*old(dash)).len() ==> *final(dash) == *old(dash) && final(self).dirty
                == old(self).dirty,
            final(self).cursor_col == old(self).cursor_col,
            final(self).cursor_row == old(self).cursor_row,
            final(self).selected_card == old(self).selected_card,
            final(self).edit_target == old(self).edit_target,
            final(self).grid_focus == old(self).grid_focus,
            same_view_state(*final(self), *old(self)),
    {
        let card = match dash.card_mut(idx) {
            Some(c) => c,
            None => {
                return;
            },
        };
        match &mut card.kind {
            CardKind::Entity { title, .. } => {
                *title = new_title;
            },
            CardKind::Toggle { title, .. } => {
                *title = new_title;
            },
            CardKind::Gauge { title, .. } => {
                *title = new_title;
            },
            CardKind::Graph { title, .. } => {
                *title = new_title;
            },
            CardKind::Text { title, .. } => {
                *title = new_title;
            },
            CardKind::EntityList { title, .. } => {
                *title = new_title;
            },
            CardKind::FilteredEntityList { title, .. } => {
                *title = new_title;
            },
            CardKind::Clock { title, .. } => {
                *title = new_title;
            },
            CardKind::Statistics { title, .. } => {
                *title = new_title;
            },
            CardKind::MediaPlayer { title, .. } => {
                *title = new_title;
            },
            CardKind::Image { title, .. } => {
                *title = new_title;
            },
            CardKind::Weather { title, .. } => {
                *title = new_title;
            },
            CardKind::AttributeList { title, .. } => {
                *title = new_title;
            },
        }
        self.dirty = true;
    }
}


/// The column a new grid card goes to, from the focus.
pub open spec fn focus_column(f: Option<GridFocus>) -> (usize, usize) {
    match f {
        Some(GridFocus::Card { row, col, .. }) => (row, col),
        Some(GridFocus::Column { row, col }) => (row, col),
        Some(GridFocus::Row { row }) => (row, 0),
        None => (0, 0),
    }
}

/// Flat index of a grid position, if a card is there.
pub open spec fn grid_flat_idx(rows: Seq<crate::dashboard::GridRow>, r: int, c: int, p: int) -> Option<int> {
    if valid_col(rows, r, c) && 0 <= p < col_len(rows, r, c) {
        Some(col_start(rows, r, c) + p)
    } else {
        None
    }
}

/// The card that `add_card` creates.
pub open spec fn new_card(id: u64, kind: CardKind, pos: Option<Pos>) -> Card {
    Card { id: CardId(id), kind, pos, height: None, color: None, size: CardSize::Normal }
}

pub open spec fn min_u16(a: u16, b: u16) -> u16 {
    if a <= b { a } else { b }
}

pub open spec fn max_u16(a: u16, b: u16) -> u16 {
    if a >= b { a } else { b }
}

/// Where a new free card is placed: at the cursor, 3×2 cells or what fits.
pub open spec fn new_free_pos(col: u16, row: u16, gc: u16, gr: u16) -> Pos {
    Pos { col, row, w: min_u16(3, max_u16(sat_sub(gc, col), 1)), h: min_u16(2, max_u16(sat_sub(gr, row), 1)) }
}

/// `b` and `e` are editor state `a` and dashboard `d` after `kind` is added:
/// it replaces the edit target's kind, or becomes a new card (grid: at the
/// end of the focused column; free: at the cursor) that is then selected.
pub open spec fn card_added(a: EditorState, d: Dashboard, kind: CardKind, b: EditorState, e: Dashboard) -> bool {
    &&& b.edit_target is None
    &&& b.dirty
    &&& e.name == d.name
    &&& ({
        let fl = flat_cards(d);
        let id = (max_id(fl) + 1) as u64;
        if a.edit_target is Some && a.edit_target->0 < fl.len() {
            let idx = a.edit_target->0;
            &&& flat_cards(e) =~= fl.update(idx as int, with_kind(fl[idx as int], kind))
            &&& same_shape(d, e)
            &&& b.selected_card == Some(idx)
            &&& b.grid_focus == a.grid_focus
        } else if is_grid(d) {
            let (r, c) = focus_column(a.grid_focus);
            let rows = grid_rows(d);
            if valid_col(rows, r as int, c as int) {
                &&& is_grid(e)
                &&& col_replaced(rows, grid_rows(e), r as int, c as int,
                    rows[r as int].columns@[c as int].cards@.push(new_card(id, kind, None)))
                &&& b.grid_focus == Some(GridFocus::Card { row: r, col: c, pos_in_col: rows[r as int].columns@[c as int].cards@.len() as usize })
                &&& b.selected_card == Some((col_start(rows, r as int, c as int) + col_len(rows, r as int, c as int)) as usize)
            } else {
                &&& e == d
                &&& b.grid_focus == a.grid_focus
                &&& b.selected_card == match a.grid_focus {
                    Some(GridFocus::Card { row, col, pos_in_col }) => match grid_flat_idx(rows, row as int, col as int, pos_in_col as int) {
                        Some(f) => Some(f as usize),
                        None => None,
                    },
                    _ => None,
                }
            }
        } else {
            let (gc, gr) = placement_grid(d);
            &&& flat_cards(e) =~= fl.push(new_card(id, kind, Some(new_free_pos(a.cursor_col, a.cursor_row, gc, gr))))
            &&& e.free_grid_spec() == d.free_grid_spec()
            &&& b.selected_card == Some(fl.len() as usize)
            &&& b.grid_focus == a.grid_focus
        }
    })
    &&& b.cursor_col == a.cursor_col
    &&& b.cursor_row == a.cursor_row
    &&& same_view_state(b, a)
}

impl EditorState {
    /// Finish an add/replace flow: replace the edit target's kind, or add a
    /// new card (grid: to the focused column; free: at the cursor) and select it.
    pub fn add_card(&mut self, dash: &mut Dashboard, kind: CardKind)
        requires
            flat_cards(*old(dash)).len() < usize::MAX,
            max_id(flat_cards(*old(dash))) < u64::MAX,
        ensures
            card_added(*old(self), *old(dash), kind, *final(self), *final(dash)),
    {
        let target = self.edit_target;
        self.edit_target = None;
        if let Some(idx) = target {
            let ghost old_flat = flat_cards(*dash);
            match dash.card_mut(idx) {
                Some(card) => {
                    card.kind = kind;
                    self.dirty = true;
                    self.selected_card = Some(idx);
                    return;
                },
                None => {},
            }
        }
        let id = dash.next_card_id();
        if !dash.is_free() {
            let (row_idx, col_idx): (usize, usize) = match self.grid_focus {
                Some(GridFocus::Card { row, col, .. }) => (row, col),
                Some(GridFocus::Column { row, col }) => (row, col),
                Some(GridFocus::Row { row }) => (row, 0),
                None => (0, 0),
            };
            let card = Card { id, pos: None, height: None, kind, color: None, size: CardSize::Normal };
            let ghost old_dash = *dash;
            let ghost rows0 = grid_rows(*dash);
            dash.insert_card_grid(row_idx, col_idx, card);
            proof {
                if valid_col(rows0, row_idx as int, col_idx as int) {
                    lemma_col_replaced(rows0, grid_rows(*dash), row_idx as int, col_idx as int,
                        rows0[row_idx as int].columns@[col_idx as int].cards@.push(card));
                    lemma_col_within(rows0, row_idx as int, col_idx as int);
                    crate::flat::lemma_split(rows0, row_idx as int, col_idx as int);
                    assert(crate::flat::rows_flat(grid_rows(*dash)).len() == crate::flat::rows_flat(rows0).len() + 1);
                }
                assert(flat_cards(*dash).len() <= flat_cards(old_dash).len() + 1);
            }
            let n_in_col: Option<usize> = match &dash.layout {
                DashboardLayout::Grid { rows } => {
                    if row_idx < rows.len() && col_idx < rows[row_idx].columns.len() {
                        Some(rows[row_idx].columns[col_idx].cards.len())
                    } else {
                        None
                    }
                },
                DashboardLayout::Free { .. } => None,
            };
            if let Some(n) = n_in_col {
                let pos_in_col: usize = if n >= 1 { n - 1 } else { 0 };
                self.grid_focus = Some(GridFocus::Card { row: row_idx, col: col_idx, pos_in_col });
            }
            self.selected_card = match self.grid_focus {
                Some(GridFocus::Card { row, col, pos_in_col }) => dash.flat_idx_from_grid(row, col, pos_in_col),
                _ => None,
            };
            self.dirty = true;
        } else {
            let (gcols, grows) = placement_dims(dash);
            let wc: u16 = if gcols >= self.cursor_col { gcols - self.cursor_col } else { 0 };
            let hr: u16 = if grows >= self.cursor_row { grows - self.cursor_row } else { 0 };
            let wc1: u16 = if wc >= 1 { wc } else { 1 };
            let hr1: u16 = if hr >= 1 { hr } else { 1 };
            let w: u16 = if 3 <= wc1 { 3 } else { wc1 };
            let h: u16 = if 2 <= hr1 { 2 } else { hr1 };
            let card = Card {
                id,
                pos: Some(Pos { col: self.cursor_col, row: self.cursor_row, w, h }),
                height: None,
                kind,
                color: None,
                size: CardSize::Normal,
            };
            dash.push_card_free(card);
            let n = dash.card_count();
            self.selected_card = Some(n - 1);
            self.dirty = true;
        }
    }
}

/// Where a mouse drag in the editor started, in grid cells.
#[derive(Clone, Copy, PartialEq, Eq, Structural, Debug)]
pub struct MouseDrag {
    pub origin_col: u16,
    pub origin_row: u16,
}

} // verus!
