//! Building new cards: the entity picker each card type starts with, the card
//! a type and an entity make, and where a new free-canvas card goes.
use vstd::prelude::*;

use crate::dashboard::{BarOrientation, CardKind, EntityListItem, GraphType, Grid, Pos, RawF64};
use crate::editor::{CardTypeStub, EditorMode, FilterFocus};
use crate::strings::{char_len, find_char, find_char_in, slice, to_owned_string, trim, trim_str};

verus! {

/// The IEEE-754 bits of `100.0`, a new gauge's upper bound.
pub const GAUGE_DEFAULT_MAX: u64 = 0x4059_0000_0000_0000;

/// The entity-id prefix the picker filters on for a card type, if any.
/// Image cards accept both `image.` and `camera.` entities, so they have none.
pub fn domain_prefix_for_type(kind: CardTypeStub) -> (r: Option<&'static str>)
    ensures
        match kind {
            CardTypeStub::MediaPlayer => r matches Some(p) && p@ == "media_player."@,
            CardTypeStub::Weather => r matches Some(p) && p@ == "weather."@,
            _ => r is None,
        },
{
    match kind {
        CardTypeStub::MediaPlayer => Some("media_player."),
        CardTypeStub::Weather => Some("weather."),
        _ => None,
    }
}

/// `r` is the step that picks the entities of a new card of type `kind` on
/// instance `inst`: several entities for an entity list, a query for a
/// filtered list, one entity otherwise; every field starts empty.
pub open spec fn picker_mode(kind: CardTypeStub, inst: Seq<char>, r: EditorMode) -> bool {
    match kind {
        CardTypeStub::EntityList => r matches EditorMode::PickingMulti { instance: i, query, selected, picked }
            && i@ == inst && query@.len() == 0 && selected == 0 && picked@.len() == 0,
        CardTypeStub::FilteredEntityList => r matches EditorMode::EditingFilterQuery {
            instance: i,
            query_buffer,
            title_buffer,
            hide_state,
            focus,
        } && i@ == inst && query_buffer@.len() == 0 && title_buffer@.len() == 0 && !hide_state && focus
            == FilterFocus::Query,
        _ => r matches EditorMode::PickingEntity { card_type, instance: i, query, selected } && card_type == kind
            && i@ == inst && query@.len() == 0 && selected == 0,
    }
}

/// The editor step that picks the entities of a new card of type `kind`.
pub fn picker_mode_for(kind: CardTypeStub, instance: String) -> (r: EditorMode)
    ensures
        picker_mode(kind, instance@, r),
{
    match kind {
        CardTypeStub::EntityList => EditorMode::PickingMulti {
            instance,
            query: String::new(),
            selected: 0,
            picked: Vec::new(),
        },
        CardTypeStub::FilteredEntityList => EditorMode::EditingFilterQuery {
            instance,
            query_buffer: String::new(),
            title_buffer: String::new(),
            hide_state: false,
            focus: FilterFocus::Query,
        },
        _ => EditorMode::PickingEntity { card_type: kind, instance, query: String::new(), selected: 0 },
    }
}

/// Card types that are built from one picked entity.
pub open spec fn built_from_entity(kind: CardTypeStub) -> bool {
    match kind {
        CardTypeStub::Entity | CardTypeStub::Toggle | CardTypeStub::Gauge | CardTypeStub::Graph
        | CardTypeStub::Text | CardTypeStub::EntityList | CardTypeStub::MediaPlayer => true,
        _ => false,
    }
}

pub open spec fn opt_view(t: Option<String>) -> Option<Seq<char>> {
    match t {
        Some(s) => Some(s@),
        None => None,
    }
}

/// The card of type `kind` for `entity` of `inst`, with default settings:
/// no ticker, a needle gauge from 0 to 100, a line graph over one hour, an
/// empty text card, a one-item entity list.
pub open spec fn typed_kind(kind: CardTypeStub, k: CardKind, inst: Seq<char>, ent: Seq<char>, title: Option<Seq<char>>) -> bool {
    match kind {
        CardTypeStub::Entity => k matches CardKind::Entity { instance, entity, title: t, ticker } && instance@
            == inst && entity@ == ent && opt_view(t) == title && !ticker,
        CardTypeStub::Toggle => k matches CardKind::Toggle { instance, entity, title: t } && instance@ == inst
            && entity@ == ent && opt_view(t) == title,
        CardTypeStub::Gauge => k matches CardKind::Gauge {
            instance,
            entity,
            min,
            max,
            unit,
            severity,
            needle,
            title: t,
        } && instance@ == inst && entity@ == ent && min == RawF64(0) && max == RawF64(GAUGE_DEFAULT_MAX)
            && unit is None && severity is None && needle && opt_view(t) == title,
        CardTypeStub::Graph => k matches CardKind::Graph {
            instance,
            entity: Some(e),
            entities,
            graph_type,
            window,
            orientation,
            title: t,
        } && instance@ == inst && e@ == ent && entities@.len() == 0 && graph_type == GraphType::Line
            && window@ == "1h"@ && orientation == BarOrientation::Vertical && opt_view(t) == title,
        CardTypeStub::Text => k matches CardKind::Text { markdown, title: t } && markdown@.len() == 0 && opt_view(
            t,
        ) == title,
        CardTypeStub::EntityList => k matches CardKind::EntityList { instance, entities, title: t } && instance@
            == inst && entities@.len() == 1 && opt_view(t) == title && (entities@[0] matches EntityListItem::Bare(
            e) && e@ == ent),
        CardTypeStub::MediaPlayer => k matches CardKind::MediaPlayer { instance, entity, title: t } && instance@
            == inst && entity@ == ent && opt_view(t) == title,
        _ => false,
    }
}

/// The card a type, an instance and a picked entity make.
pub fn build_typed_card(kind: CardTypeStub, instance: String, entity: String, title: Option<String>) -> (r: CardKind)
    requires
        built_from_entity(kind),
    ensures
        typed_kind(kind, r, instance@, entity@, opt_view(title)),
{
    match kind {
        CardTypeStub::Entity => CardKind::Entity { instance, entity, title, ticker: false },
        CardTypeStub::Toggle => CardKind::Toggle { instance, entity, title },
        CardTypeStub::Gauge => CardKind::Gauge {
            instance,
            entity,
            min: RawF64(0),
            max: RawF64(GAUGE_DEFAULT_MAX),
            unit: None,
            severity: None,
            needle: true,
            title,
        },
        CardTypeStub::Graph => CardKind::Graph {
            instance,
            entity: Some(entity),
            entities: Vec::new(),
            graph_type: GraphType::Line,
            window: to_owned_string("1h"),
            orientation: BarOrientation::Vertical,
            title,
        },
        CardTypeStub::Text => CardKind::Text { markdown: String::new(), title },
        CardTypeStub::EntityList => {
            let mut entities: Vec<EntityListItem> = Vec::new();
            entities.push(EntityListItem::Bare(entity));
            CardKind::EntityList { instance, entities, title }
        },
        _ => CardKind::MediaPlayer { instance, entity, title },
    }
}

/// Card types that `build_card_kind` builds from a typed reference.
pub open spec fn built_from_reference(kind: CardTypeStub) -> bool {
    match kind {
        CardTypeStub::Entity | CardTypeStub::Toggle | CardTypeStub::Gauge | CardTypeStub::Graph
        | CardTypeStub::MediaPlayer => true,
        _ => false,
    }
}

/// `alias/entity` split at the first `/`, or the default alias and the whole text.
pub open spec fn reference_parts(buf: Seq<char>, default_alias: Option<Seq<char>>) -> Option<(Seq<char>, Seq<char>)> {
    match find_char(buf, '/') {
        Some(i) => Some((buf.take(i), buf.skip(i + 1))),
        None => match default_alias {
            Some(a) => Some((a, buf)),
            None => None,
        },
    }
}

/// `build_card_kind` reaches a card type it cannot build from a reference.
pub open spec fn reference_unbuildable(kind: CardTypeStub, buf: Seq<char>, default_alias: Option<Seq<char>>) -> bool {
    let t = trim(buf);
    &&& kind != CardTypeStub::Text
    &&& !built_from_reference(kind)
    &&& t.len() > 0
    &&& reference_parts(t, default_alias) is Some
}

/// A card from a typed `alias/entity` reference (the alias defaults to
/// `default_alias`); a text card takes the whole text as its body. Nothing
/// when the text is blank (but for text cards) or names no instance.
pub fn build_card_kind(kind: CardTypeStub, buf: &str, default_alias: Option<&str>) -> (r: Option<CardKind>)
    requires
        !reference_unbuildable(kind, buf@, opt_str_view(default_alias)),
    ensures
        ({
            let t = trim(buf@);
            if kind == CardTypeStub::Text {
                r matches Some(CardKind::Text { markdown, title }) && markdown@ == t && title is None
            } else if t.len() == 0 {
                r is None
            } else {
                match reference_parts(t, opt_str_view(default_alias)) {
                    None => r is None,
                    Some((a, e)) => r matches Some(k) && typed_kind(kind, k, a, e, None),
                }
            }
        }),
{
    let t = trim_str(buf);
    let n = char_len(t);
    let is_text = match kind {
        CardTypeStub::Text => true,
        _ => false,
    };
    if n == 0 && !is_text {
        return None;
    }
    if is_text {
        return Some(CardKind::Text { markdown: to_owned_string(t), title: None });
    }
    proof {
        crate::strings::lemma_find_char_bound(t@, '/');
    }
    let (instance, entity) = match find_char_in(t, '/') {
        Some(i) => {
            let a = slice(t, 0, i);
            let e = slice(t, i + 1, n);
            assert(a@ =~= t@.take(i as int));
            assert(e@ =~= t@.skip(i as int + 1));
            (to_owned_string(a), to_owned_string(e))
        },
        None => match default_alias {
            Some(a) => (to_owned_string(a), to_owned_string(t)),
            None => {
                return None;
            },
        },
    };
    Some(build_typed_card(kind, instance, entity, None))
}

pub open spec fn opt_str_view(s: Option<&str>) -> Option<Seq<char>> {
    match s {
        Some(x) => Some(x@),
        None => None,
    }
}

/// Two cell rectangles share a cell.
pub open spec fn overlaps(col: int, row: int, w: int, h: int, p: Pos) -> bool {
    col < p.col + p.w && col + w > p.col && row < p.row + p.h && row + h > p.row
}

/// A `w×h` card fits at (`col`, `row`): inside the grid and over no occupied rectangle.
pub open spec fn fits_at(grid: Grid, occupied: Seq<Pos>, col: int, row: int, w: int, h: int) -> bool {
    &&& col + w <= grid.cols
    &&& row + h <= grid.rows
    &&& forall|k: int| 0 <= k < occupied.len() ==> !overlaps(col, row, w, h, #[trigger] occupied[k])
}

/// (`col2`, `row2`) comes before (`col`, `row`) in row-major order.
pub open spec fn scanned_before(col2: int, row2: int, col: int, row: int) -> bool {
    row2 < row || (row2 == row && col2 < col)
}

fn overlaps_any(occupied: &[Pos], col: u16, row: u16, w: u16, h: u16) -> (r: bool)
    ensures
        r == exists|k: int| 0 <= k < occupied@.len() && overlaps(col as int, row as int, w as int, h as int, #[trigger] occupied@[k]),
{
    let mut k: usize = 0;
    while k < occupied.len()
        invariant
            k <= occupied@.len(),
            forall|j: int| 0 <= j < k ==> !overlaps(col as int, row as int, w as int, h as int, #[trigger] occupied@[j]),
        decreases occupied.len() - k,
    {
        let p = occupied[k];
        let (c, r0, ww, hh, pc, pr, pw, ph) = (col as u32, row as u32, w as u32, h as u32, p.col as u32, p.row as u32, p.w as u32, p.h as u32);
        if c < pc + pw && c + ww > pc && r0 < pr + ph && r0 + hh > pr {
            assert(overlaps(col as int, row as int, w as int, h as int, occupied@[k as int]));
            return true;
        }
        k = k + 1;
    }
    false
}

/// `r` is the first cell, scanning left to right and top to bottom, where a `w×h` card fits on a free canvas (none when it fits nowhere).
pub open spec fn free_cell(grid: Grid, occupied: Seq<Pos>, w: u16, h: u16, r: Option<Pos>) -> bool {
    &&& match r {
        Some(p) => {
            &&& p.w == w && p.h == h
            &&& p.col < grid.cols && p.row < grid.rows
            &&& fits_at(grid, occupied, p.col as int, p.row as int, w as int, h as int)
            &&& forall|c: int, rw: int|
                0 <= c < grid.cols && 0 <= rw < grid.rows && scanned_before(c, rw, p.col as int, p.row as int)
                    ==> !#[trigger] fits_at(grid, occupied, c, rw, w as int, h as int)
        },
        None => forall|c: int, rw: int|
            0 <= c < grid.cols && 0 <= rw < grid.rows ==> !#[trigger] fits_at(grid, occupied, c, rw, w as int, h as int),
    }
}

/// The first cell, scanning left to right and top to bottom, where a new
/// `w×h` card fits on a free canvas.
pub fn find_free_cell(grid: Grid, occupied: &[Pos], w: u16, h: u16) -> (r: Option<Pos>)
    ensures
        free_cell(grid, occupied@, w, h, r),
{
    let mut row: u16 = 0;
    while row < grid.rows
        invariant
            row <= grid.rows,
            forall|c: int, rw: int|
                0 <= c < grid.cols && 0 <= rw < row ==> !#[trigger] fits_at(grid, occupied@, c, rw, w as int, h as int),
        decreases grid.rows - row,
    {
        let mut col: u16 = 0;
        while col < grid.cols
            invariant
                row < grid.rows,
                col <= grid.cols,
                forall|c: int, rw: int|
                    0 <= c < grid.cols && 0 <= rw < row ==> !#[trigger] fits_at(grid, occupied@, c, rw, w as int, h as int),
                forall|c: int| 0 <= c < col ==> !#[trigger] fits_at(grid, occupied@, c, row as int, w as int, h as int),
            decreases grid.cols - col,
        {
            let inside = (col as u32) + (w as u32) <= (grid.cols as u32) && (row as u32) + (h as u32) <= (grid.rows as u32);
            if inside && !overlaps_any(occupied, col, row, w, h) {
                let p = Pos { col, row, w, h };
                return Some(p);
            }
            proof {
                if !inside {
                } else {
                    let k = choose|k: int| 0 <= k < occupied@.len() && overlaps(col as int, row as int, w as int, h as int, #[trigger] occupied@[k]);
                    assert(!fits_at(grid, occupied@, col as int, row as int, w as int, h as int));
                }
            }
            col = col + 1;
        }
        row = row + 1;
    }
    None
}

} // verus!
