//! Dashboards: free-canvas and stacked-grid layouts, the cards they hold, and
//! the structural edits the editor performs on them.
use vstd::prelude::*;



verus! {

/// An instance alias, as written in the configuration.
pub type Alias = String;

/// A Home Assistant entity id such as `light.kitchen`.
pub type EntityId = String;

/// The IEEE-754 bit pattern of a floating-point setting (gauge bounds and
/// severity thresholds). The library stores and copies it; it never computes
/// with the number it encodes.
#[derive(Clone, Copy, PartialEq, Eq, Structural, Debug)]
pub struct RawF64(pub u64);

/// Stable per-card identity; zero means "not yet assigned".
#[derive(Clone, Copy, PartialEq, Eq, Structural, Debug, Hash, Default)]
pub struct CardId(pub u64);

impl CardId {
    pub fn is_zero(&self) -> (r: bool)
        ensures
            r == (self.0 == 0),
    {
        self.0 == 0
    }
}

/// Free-canvas grid dimensions.
#[derive(Clone, Copy, PartialEq, Eq, Structural, Debug)]
pub struct Grid {
    pub cols: u16,
    pub rows: u16,
}

/// A card's cell rectangle on a free canvas.
#[derive(Clone, Copy, PartialEq, Eq, Structural, Debug)]
pub struct Pos {
    pub col: u16,
    pub row: u16,
    pub w: u16,
    pub h: u16,
}

/// Height of a grid row: a fixed number of terminal rows, or a share of what is left.
#[derive(Clone, Copy, PartialEq, Eq, Structural, Debug)]
pub enum RowHeight {
    Fixed(u16),
    Auto,
}

#[derive(Clone, Copy, PartialEq, Eq, Structural, Debug)]
pub enum CardSize {
    Small,
    Normal,
    Large,
}

#[derive(Clone, Copy, PartialEq, Eq, Structural, Debug)]
pub enum GraphType {
    Line,
    Bar,
    Pie,
}

#[derive(Clone, Copy, PartialEq, Eq, Structural, Debug)]
pub enum BarOrientation {
    Vertical,
    Horizontal,
}

#[derive(Clone, Copy, PartialEq, Eq, Structural, Debug)]
pub enum StatsMetric {
    Avg,
    Min,
    Max,
    Sum,
    Count,
}

/// Navigation direction for 2D traversal of a grid dashboard.
#[derive(Clone, Copy, PartialEq, Eq, Structural, Debug)]
pub enum NavDir {
    Up,
    Down,
    Left,
    Right,
}

#[derive(Clone, Copy, PartialEq, Eq, Structural, Debug)]
pub struct Severity {
    pub green: RawF64,
    pub yellow: RawF64,
    pub red: RawF64,
}

#[derive(Debug)]
pub struct GraphSeries {
    pub entity: EntityId,
    pub label: Option<String>,
    pub color: Option<String>,
}

#[derive(Debug)]
pub enum ImageSource {
    ImageEntity { entity: EntityId },
    Camera { entity: EntityId },
}

/// One entry of an entity-list card: a bare id, or an id with display overrides.
#[derive(Debug)]
pub enum EntityListItem {
    Bare(EntityId),
    Full { entity: EntityId, name: Option<String>, hide_state: Option<bool> },
}

/// Per-entity display overrides of a filtered entity list.
#[derive(Debug)]
pub struct EntityOverride {
    pub name: Option<String>,
    pub hide_state: Option<bool>,
}

/// What a card shows. Every variant but `Text` and `Clock` belongs to one instance.
#[derive(Debug)]
#[allow(inconsistent_fields)]
pub enum CardKind {
    Entity { instance: Alias, entity: EntityId, title: Option<String>, ticker: bool },
    Toggle { instance: Alias, entity: EntityId, title: Option<String> },
    Gauge {
        instance: Alias,
        entity: EntityId,
        min: RawF64,
        max: RawF64,
        unit: Option<String>,
        severity: Option<Severity>,
        needle: bool,
        title: Option<String>,
    },
    Graph {
        instance: Alias,
        entity: Option<EntityId>,
        entities: Vec<GraphSeries>,
        graph_type: GraphType,
        window: String,
        orientation: BarOrientation,
        title: Option<String>,
    },
    Text { markdown: String, title: Option<String> },
    EntityList { instance: Alias, entities: Vec<EntityListItem>, title: Option<String> },
    FilteredEntityList {
        instance: Alias,
        query: String,
        hide_state: bool,
        hide_when_empty: bool,
        title: Option<String>,
        /// Overrides keyed by entity id, in ascending key order, each key once.
        overrides: Vec<(EntityId, EntityOverride)>,
    },
    Clock { format: String, timezone: Option<String>, title: Option<String> },
    Statistics {
        instance: Alias,
        entity: EntityId,
        window: String,
        metric: StatsMetric,
        unit: Option<String>,
        title: Option<String>,
    },
    MediaPlayer { instance: Alias, entity: EntityId, title: Option<String> },
    Image {
        instance: Alias,
        source: ImageSource,
        refresh_seconds: Option<u32>,
        title: Option<String>,
    },
    Weather {
        instance: Alias,
        entity: EntityId,
        show_forecast: bool,
        forecast_days: u8,
        title: Option<String>,
    },
    AttributeList {
        instance: Alias,
        entity: EntityId,
        attribute: String,
        template: String,
        limit: Option<usize>,
        title: Option<String>,
    },
}

#[derive(Debug)]
pub struct Card {
    pub id: CardId,
    pub kind: CardKind,
    /// Present on free-layout cards; absent on grid-layout cards.
    pub pos: Option<Pos>,
    /// Explicit height (terminal rows) for grid-layout cards.
    pub height: Option<u16>,
    pub color: Option<String>,
    pub size: CardSize,
}

/// One column inside a grid row.
#[derive(Debug)]
pub struct GridColumn {
    /// `None` inherits the row default.
    pub fill_height: Option<bool>,
    pub cards: Vec<Card>,
}

/// One horizontal band of columns in a grid dashboard.
#[derive(Debug)]
pub struct GridRow {
    pub height: RowHeight,
    pub fill_height: Option<bool>,
    pub columns: Vec<GridColumn>,
}

/// The layout strategy of a dashboard.
#[derive(Debug)]
pub enum DashboardLayout {
    /// Cards with explicit (col, row, w, h) positions on a grid.
    Free { grid: Grid, cards: Vec<Card> },
    /// Rows of columns; cards stack in their column.
    Grid { rows: Vec<GridRow> },
}

#[derive(Debug)]
pub struct Dashboard {
    pub name: String,
    pub layout: DashboardLayout,
}

#[derive(Debug)]
pub struct DashboardFile {
    pub dashboards: Vec<Dashboard>,
}


// ── equality of copies ───────────────────────────────────────────────────────
// Two values are "the same" when every field is equal, sequences of cards,
// columns and rows being compared element by element.

pub open spec fn kind_same(a: CardKind, b: CardKind) -> bool {
    match (a, b) {
        (
            CardKind::Graph {
                instance: i1,
                entity: e1,
                entities: s1,
                graph_type: g1,
                window: w1,
                orientation: o1,
                title: t1,
            },
            CardKind::Graph {
                instance: i2,
                entity: e2,
                entities: s2,
                graph_type: g2,
                window: w2,
                orientation: o2,
                title: t2,
            },
        ) => i1 == i2 && e1 == e2 && s1@ == s2@ && g1 == g2 && w1 == w2 && o1 == o2 && t1 == t2,
        (
            CardKind::EntityList { instance: i1, entities: s1, title: t1 },
            CardKind::EntityList { instance: i2, entities: s2, title: t2 },
        ) => i1 == i2 && s1@ == s2@ && t1 == t2,
        (
            CardKind::FilteredEntityList {
                instance: i1,
                query: q1,
                hide_state: h1,
                hide_when_empty: w1,
                title: t1,
                overrides: o1,
            },
            CardKind::FilteredEntityList {
                instance: i2,
                query: q2,
                hide_state: h2,
                hide_when_empty: w2,
                title: t2,
                overrides: o2,
            },
        ) => i1 == i2 && q1 == q2 && h1 == h2 && w1 == w2 && t1 == t2 && o1@ == o2@,
        _ => a == b,
    }
}

pub open spec fn card_same(a: Card, b: Card) -> bool {
    &&& a.id == b.id
    &&& kind_same(a.kind, b.kind)
    &&& a.pos == b.pos
    &&& a.height == b.height
    &&& a.color == b.color
    &&& a.size == b.size
}

pub open spec fn cards_same(a: Seq<Card>, b: Seq<Card>) -> bool {
    a.len() == b.len() && forall|i: int| 0 <= i < a.len() ==> card_same(#[trigger] a[i], b[i])
}

pub open spec fn column_same(a: GridColumn, b: GridColumn) -> bool {
    a.fill_height == b.fill_height && cards_same(a.cards@, b.cards@)
}

pub open spec fn columns_same(a: Seq<GridColumn>, b: Seq<GridColumn>) -> bool {
    a.len() == b.len() && forall|i: int| 0 <= i < a.len() ==> column_same(#[trigger] a[i], b[i])
}

pub open spec fn row_same(a: GridRow, b: GridRow) -> bool {
    a.height == b.height && a.fill_height == b.fill_height && columns_same(a.columns@, b.columns@)
}

pub open spec fn rows_same(a: Seq<GridRow>, b: Seq<GridRow>) -> bool {
    a.len() == b.len() && forall|i: int| 0 <= i < a.len() ==> row_same(#[trigger] a[i], b[i])
}

pub open spec fn layout_same(a: DashboardLayout, b: DashboardLayout) -> bool {
    match (a, b) {
        (DashboardLayout::Free { grid: g1, cards: c1 }, DashboardLayout::Free { grid: g2, cards: c2 }) =>
            g1 == g2 && cards_same(c1@, c2@),
        (DashboardLayout::Grid { rows: r1 }, DashboardLayout::Grid { rows: r2 }) => rows_same(r1@, r2@),
        _ => false,
    }
}

pub open spec fn dashboard_same(a: Dashboard, b: Dashboard) -> bool {
    a.name == b.name && layout_same(a.layout, b.layout)
}

// ── copies that are provably equal to their source ─────────────────────────

pub fn copy_opt_string(s: &Option<String>) -> (r: Option<String>)
    ensures
        r == *s,
{
    match s {
        Some(x) => Some(x.clone()),
        None => None,
    }
}

impl GraphSeries {
    pub fn duplicate(&self) -> (r: Self)
        ensures
            r == *self,
    {
        GraphSeries {
            entity: self.entity.clone(),
            label: copy_opt_string(&self.label),
            color: copy_opt_string(&self.color),
        }
    }
}

impl ImageSource {
    pub fn duplicate(&self) -> (r: Self)
        ensures
            r == *self,
    {
        match self {
            ImageSource::ImageEntity { entity } => ImageSource::ImageEntity { entity: entity.clone() },
            ImageSource::Camera { entity } => ImageSource::Camera { entity: entity.clone() },
        }
    }
}

impl EntityListItem {
    pub fn duplicate(&self) -> (r: Self)
        ensures
            r == *self,
    {
        match self {
            EntityListItem::Bare(e) => EntityListItem::Bare(e.clone()),
            EntityListItem::Full { entity, name, hide_state } => EntityListItem::Full {
                entity: entity.clone(),
                name: copy_opt_string(name),
                hide_state: *hide_state,
            },
        }
    }

    pub fn entity_id(&self) -> (r: &EntityId)
        ensures
            r == match self {
                EntityListItem::Bare(e) => e,
                EntityListItem::Full { entity, .. } => entity,
            },
    {
        match self {
            EntityListItem::Bare(e) => e,
            EntityListItem::Full { entity, .. } => entity,
        }
    }

    pub fn name_override(&self) -> (r: Option<&str>)
        ensures
            match self {
                EntityListItem::Full { name: Some(n), .. } => r is Some && r->0@ == n@,
                _ => r is None,
            },
    {
        match self {
            EntityListItem::Full { name: Some(n), .. } => Some(n.as_str()),
            _ => None,
        }
    }

    pub fn hide_state_override(&self) -> (r: Option<bool>)
        ensures
            r == match self {
                EntityListItem::Full { hide_state, .. } => *hide_state,
                EntityListItem::Bare(_) => None,
            },
    {
        match self {
            EntityListItem::Full { hide_state, .. } => *hide_state,
            EntityListItem::Bare(_) => None,
        }
    }
}

impl EntityOverride {
    pub fn duplicate(&self) -> (r: Self)
        ensures
            r == *self,
    {
        EntityOverride { name: copy_opt_string(&self.name), hide_state: self.hide_state }
    }
}

fn copy_series(v: &Vec<GraphSeries>) -> (r: Vec<GraphSeries>)
    ensures
        r@ == v@,
{
    let mut out: Vec<GraphSeries> = Vec::new();
    let mut i: usize = 0;
    while i < v.len()
        invariant
            i <= v.len(),
            out@ == v@.take(i as int),
        decreases v.len() - i,
    {
        out.push(v[i].duplicate());
        i = i + 1;
        assert(out@ == v@.take(i as int));
    }
    assert(v@.take(v.len() as int) == v@);
    out
}

fn copy_items(v: &Vec<EntityListItem>) -> (r: Vec<EntityListItem>)
    ensures
        r@ == v@,
{
    let mut out: Vec<EntityListItem> = Vec::new();
    let mut i: usize = 0;
    while i < v.len()
        invariant
            i <= v.len(),
            out@ == v@.take(i as int),
        decreases v.len() - i,
    {
        out.push(v[i].duplicate());
        i = i + 1;
        assert(out@ == v@.take(i as int));
    }
    assert(v@.take(v.len() as int) == v@);
    out
}

fn copy_overrides(v: &Vec<(EntityId, EntityOverride)>) -> (r: Vec<(EntityId, EntityOverride)>)
    ensures
        r@ == v@,
{
    let mut out: Vec<(EntityId, EntityOverride)> = Vec::new();
    let mut i: usize = 0;
    while i < v.len()
        invariant
            i <= v.len(),
            out@ == v@.take(i as int),
        decreases v.len() - i,
    {
        let e = &v[i];
        out.push((e.0.clone(), e.1.duplicate()));
        i = i + 1;
        assert(out@ == v@.take(i as int));
    }
    assert(v@.take(v.len() as int) == v@);
    out
}

impl CardKind {
    pub fn duplicate(&self) -> (r: Self)
        ensures
            kind_same(r, *self),
    {
        match self {
            CardKind::Entity { instance, entity, title, ticker } => CardKind::Entity {
                instance: instance.clone(),
                entity: entity.clone(),
                title: copy_opt_string(title),
                ticker: *ticker,
            },
            CardKind::Toggle { instance, entity, title } => CardKind::Toggle {
                instance: instance.clone(),
                entity: entity.clone(),
                title: copy_opt_string(title),
            },
            CardKind::Gauge { instance, entity, min, max, unit, severity, needle, title } =>
                CardKind::Gauge {
                instance: instance.clone(),
                entity: entity.clone(),
                min: *min,
                max: *max,
                unit: copy_opt_string(unit),
                severity: *severity,
                needle: *needle,
                title: copy_opt_string(title),
            },
            CardKind::Graph {
                instance,
                entity,
                entities,
                graph_type,
                window,
                orientation,
                title,
            } => CardKind::Graph {
                instance: instance.clone(),
                entity: copy_opt_string(entity),
                entities: copy_series(entities),
                graph_type: *graph_type,
                window: window.clone(),
                orientation: *orientation,
                title: copy_opt_string(title),
            },
            CardKind::Text { markdown, title } => CardKind::Text {
                markdown: markdown.clone(),
                title: copy_opt_string(title),
            },
            CardKind::EntityList { instance, entities, title } => CardKind::EntityList {
                instance: instance.clone(),
                entities: copy_items(entities),
                title: copy_opt_string(title),
            },
            CardKind::FilteredEntityList {
                instance,
                query,
                hide_state,
                hide_when_empty,
                title,
                overrides,
            } => CardKind::FilteredEntityList {
                instance: instance.clone(),
                query: query.clone(),
                hide_state: *hide_state,
                hide_when_empty: *hide_when_empty,
                title: copy_opt_string(title),
                overrides: copy_overrides(overrides),
            },
            CardKind::Clock { format, timezone, title } => CardKind::Clock {
                format: format.clone(),
                timezone: copy_opt_string(timezone),
                title: copy_opt_string(title),
            },
            CardKind::Statistics { instance, entity, window, metric, unit, title } =>
                CardKind::Statistics {
                instance: instance.clone(),
                entity: entity.clone(),
                window: window.clone(),
                metric: *metric,
                unit: copy_opt_string(unit),
                title: copy_opt_string(title),
            },
            CardKind::MediaPlayer { instance, entity, title } => CardKind::MediaPlayer {
                instance: instance.clone(),
                entity: entity.clone(),
                title: copy_opt_string(title),
            },
            CardKind::Image { instance, source, refresh_seconds, title } => CardKind::Image {
                instance: instance.clone(),
                source: source.duplicate(),
                refresh_seconds: *refresh_seconds,
                title: copy_opt_string(title),
            },
            CardKind::Weather { instance, entity, show_forecast, forecast_days, title } =>
                CardKind::Weather {
                instance: instance.clone(),
                entity: entity.clone(),
                show_forecast: *show_forecast,
                forecast_days: *forecast_days,
                title: copy_opt_string(title),
            },
            CardKind::AttributeList { instance, entity, attribute, template, limit, title } =>
                CardKind::AttributeList {
                instance: instance.clone(),
                entity: entity.clone(),
                attribute: attribute.clone(),
                template: template.clone(),
                limit: *limit,
                title: copy_opt_string(title),
            },
        }
    }
}

impl Card {
    pub fn duplicate(&self) -> (r: Self)
        ensures
            card_same(r, *self),
    {
        Card {
            id: self.id,
            kind: self.kind.duplicate(),
            pos: self.pos,
            height: self.height,
            color: copy_opt_string(&self.color),
            size: self.size,
        }
    }
}

pub fn copy_cards(v: &Vec<Card>) -> (r: Vec<Card>)
    ensures
        cards_same(r@, v@),
{
    let mut out: Vec<Card> = Vec::new();
    let mut i: usize = 0;
    while i < v.len()
        invariant
            i <= v.len(),
            cards_same(out@, v@.take(i as int)),
        decreases v.len() - i,
    {
        out.push(v[i].duplicate());
        i = i + 1;
        assert(cards_same(out@, v@.take(i as int)));
    }
    assert(v@.take(v.len() as int) == v@);
    out
}

impl GridColumn {
    pub fn duplicate(&self) -> (r: Self)
        ensures
            column_same(r, *self),
    {
        GridColumn { fill_height: self.fill_height, cards: copy_cards(&self.cards) }
    }

    /// Resolve `fill_height`, falling back to the row default.
    pub fn effective_fill_height(&self, row_default: bool) -> (r: bool)
        ensures
            r == match self.fill_height {
                Some(b) => b,
                None => row_default,
            },
    {
        match self.fill_height {
            Some(b) => b,
            None => row_default,
        }
    }
}

fn copy_columns(v: &Vec<GridColumn>) -> (r: Vec<GridColumn>)
    ensures
        columns_same(r@, v@),
{
    let mut out: Vec<GridColumn> = Vec::new();
    let mut i: usize = 0;
    while i < v.len()
        invariant
            i <= v.len(),
            columns_same(out@, v@.take(i as int)),
        decreases v.len() - i,
    {
        out.push(v[i].duplicate());
        i = i + 1;
        assert(columns_same(out@, v@.take(i as int)));
    }
    assert(v@.take(v.len() as int) == v@);
    out
}

impl GridRow {
    pub fn duplicate(&self) -> (r: Self)
        ensures
            row_same(r, *self),
    {
        GridRow {
            height: self.height,
            fill_height: self.fill_height,
            columns: copy_columns(&self.columns),
        }
    }

    pub fn fill_height_default(&self) -> (r: bool)
        ensures
            r == (self.fill_height == Some(true)),
    {
        match self.fill_height {
            Some(b) => b,
            None => false,
        }
    }
}

fn copy_rows(v: &Vec<GridRow>) -> (r: Vec<GridRow>)
    ensures
        rows_same(r@, v@),
{
    let mut out: Vec<GridRow> = Vec::new();
    let mut i: usize = 0;
    while i < v.len()
        invariant
            i <= v.len(),
            rows_same(out@, v@.take(i as int)),
        decreases v.len() - i,
    {
        out.push(v[i].duplicate());
        i = i + 1;
        assert(rows_same(out@, v@.take(i as int)));
    }
    assert(v@.take(v.len() as int) == v@);
    out
}

impl Dashboard {
    pub fn duplicate(&self) -> (r: Self)
        ensures
            dashboard_same(r, *self),
    {
        let layout = match &self.layout {
            DashboardLayout::Free { grid, cards } => DashboardLayout::Free {
                grid: *grid,
                cards: copy_cards(cards),
            },
            DashboardLayout::Grid { rows } => DashboardLayout::Grid { rows: copy_rows(rows) },
        };
        Dashboard { name: self.name.clone(), layout }
    }
}

} // verus!
