//! How a dashboard entry of the dashboards file becomes a layout: which
//! fields decide between the free and the grid layout, the errors for
//! entries that say neither or both, and the forms a row height takes.
use vstd::prelude::*;

use crate::dashboard::{Card, CardSize, DashboardLayout, Grid, GridRow, RowHeight};
use crate::search::{eq_ignore_ascii_case, lower_seq};

verus! {

/// The name for what `{:?}` prints for a string: the string quoted, with
/// quotes, backslashes and unprintable characters escaped.
pub uninterp spec fn debug_str(s: Seq<char>) -> Seq<char>;

/// `<str as Debug>::fmt`, through `format!`.
#[verifier::external_body]
fn debug_string(s: &str) -> (r: String)
    ensures
        r@ == debug_str(s@),
{
    format!("{:?}", s)
}

/// The layout fields of one dashboard entry, as read.
pub struct LayoutFields {
    /// `type:`, when given.
    pub layout_type: Option<String>,
    pub grid: Option<Grid>,
    pub cards: Option<Vec<Card>>,
    pub rows: Option<Vec<GridRow>>,
}

/// Why an entry has no layout.
#[derive(Debug)]
pub enum LayoutError {
    /// `type: free` beside `rows`.
    FreeWithRows,
    /// `type: grid` beside `grid` or `cards`.
    GridWithFreeFields,
    /// No type, but both `grid` and `rows`.
    Ambiguous,
    /// None of the layout fields.
    NoLayout,
    /// No type, `cards` but no `grid`.
    CardsWithoutGrid,
    /// Any other combination, with the type as given.
    UnknownType(Option<String>),
}

pub open spec fn type_is(t: Option<String>, s: Seq<char>) -> bool {
    t matches Some(x) && x@ == s
}

pub open spec fn vec_or_empty<T>(v: Option<Vec<T>>) -> Seq<T> {
    match v {
        Some(x) => x@,
        None => Seq::empty(),
    }
}

/// The entry gives a free layout: no type or `free`, a `grid`, no `rows`.
pub open spec fn gives_free(f: LayoutFields) -> bool {
    (f.layout_type is None || type_is(f.layout_type, "free"@)) && f.grid is Some && f.rows is None
}

/// The entry gives a grid layout: `type: grid` without the free fields, or
/// no type and `rows` alone.
pub open spec fn gives_grid(f: LayoutFields) -> bool {
    &&& f.grid is None
    &&& f.cards is None
    &&& (type_is(f.layout_type, "grid"@) || (f.layout_type is None && f.rows is Some))
}

/// The error for an entry that gives no layout.
pub open spec fn layout_error(f: LayoutFields) -> LayoutError {
    let t = f.layout_type;
    if type_is(t, "free"@) && f.rows is Some {
        LayoutError::FreeWithRows
    } else if type_is(t, "grid"@) {
        LayoutError::GridWithFreeFields
    } else if t is None && f.grid is Some && f.rows is Some {
        LayoutError::Ambiguous
    } else if t is None && f.grid is None && f.cards is None && f.rows is None {
        LayoutError::NoLayout
    } else if t is None && f.grid is None && f.cards is Some && f.rows is None {
        LayoutError::CardsWithoutGrid
    } else {
        LayoutError::UnknownType(t)
    }
}

/// The layout of a dashboard entry: free when `gives_free`, grid when
/// `gives_grid` (a missing `cards` or `rows` is empty), else the error.
pub fn layout_from_fields(f: LayoutFields) -> (r: Result<DashboardLayout, LayoutError>)
    ensures
        gives_free(f) ==> (r matches Ok(DashboardLayout::Free { grid, cards }) && f.grid == Some(grid) && cards@
            == vec_or_empty(f.cards)),
        gives_grid(f) ==> (r matches Ok(DashboardLayout::Grid { rows }) && rows@ == vec_or_empty(f.rows)),
        !gives_free(f) && !gives_grid(f) ==> (r matches Err(e) && e == layout_error(f)),
{
    let ghost f0 = f;
    let LayoutFields { layout_type, grid, cards, rows } = f;
    let (is_none, is_free, is_grid) = match &layout_type {
        None => (true, false, false),
        Some(t) => (false, crate::strings::str_eq(t.as_str(), "free"), crate::strings::str_eq(t.as_str(), "grid")),
    };
    proof {
        reveal_strlit("free");
        reveal_strlit("grid");
        assert(is_free == type_is(f0.layout_type, "free"@));
        assert(is_grid == type_is(f0.layout_type, "grid"@));
        assert("free"@[0] != "grid"@[0]);
    }
    if (is_none || is_free) && grid.is_some() && rows.is_none() {
        let cards = match cards {
            Some(c) => c,
            None => Vec::new(),
        };
        return match grid {
            Some(g) => Ok(DashboardLayout::Free { grid: g, cards }),
            None => Err(LayoutError::NoLayout),
        };
    }
    if is_free && rows.is_some() {
        return Err(LayoutError::FreeWithRows);
    }
    if is_grid {
        if grid.is_some() || cards.is_some() {
            return Err(LayoutError::GridWithFreeFields);
        }
        let rows = match rows {
            Some(r) => r,
            None => Vec::new(),
        };
        return Ok(DashboardLayout::Grid { rows });
    }
    if is_none {
        if grid.is_none() && cards.is_none() {
            return match rows {
                Some(r) => Ok(DashboardLayout::Grid { rows: r }),
                None => Err(LayoutError::NoLayout),
            };
        }
        if grid.is_some() && rows.is_some() {
            return Err(LayoutError::Ambiguous);
        }
        if grid.is_none() && cards.is_some() && rows.is_none() {
            return Err(LayoutError::CardsWithoutGrid);
        }
    }
    Err(LayoutError::UnknownType(layout_type))
}

/// `f` are the layout fields written for layout `l`: a free layout writes
/// its `grid` and `cards`, a grid layout `type: grid` and its `rows`.
pub open spec fn written_fields(l: DashboardLayout, f: LayoutFields) -> bool {
    match l {
        DashboardLayout::Free { grid, cards } => f.layout_type is None && f.grid == Some(grid) && f.cards == Some(cards)
            && f.rows is None,
        DashboardLayout::Grid { rows } => type_is(f.layout_type, "grid"@) && f.grid is None && f.cards is None && f.rows
            == Some(rows),
    }
}

/// The layout fields to write for `l`.
pub fn layout_fields(l: DashboardLayout) -> (f: LayoutFields)
    ensures
        written_fields(l, f),
{
    match l {
        DashboardLayout::Free { grid, cards } => LayoutFields { layout_type: None, grid: Some(grid), cards: Some(cards), rows: None },
        DashboardLayout::Grid { rows } => {
            let t = "grid".to_string();
            proof {
                reveal_strlit("grid");
            }
            LayoutFields { layout_type: Some(t), grid: None, cards: None, rows: Some(rows) }
        },
    }
}

/// What is written for a layout reads back as the same layout: the fields
/// written for a free layout give it back with its grid and cards, those for
/// a grid layout give back its rows.
pub proof fn law_written_layout_reads_back(l: DashboardLayout, f: LayoutFields)
    requires
        written_fields(l, f),
    ensures
        l is Free ==> gives_free(f) && !gives_grid(f),
        l is Grid ==> gives_grid(f) && !gives_free(f),
        l matches DashboardLayout::Free { grid, cards } ==> f.grid == Some(grid) && vec_or_empty(f.cards) == cards@,
        l matches DashboardLayout::Grid { rows } ==> vec_or_empty(f.rows) == rows@,
{
    reveal_strlit("free");
    reveal_strlit("grid");
    if l is Grid {
        assert(f.layout_type->0@[0] != "free"@[0]);
    }
}

impl LayoutError {
    /// The message shown for the error.
    pub fn message(&self) -> (r: String)
        ensures
            r@ == match *self {
                LayoutError::FreeWithRows => "dashboard has `type: free` but also `rows` — remove one"@,
                LayoutError::GridWithFreeFields => "dashboard has `type: grid` but also `grid`/`cards` fields — remove them"@,
                LayoutError::Ambiguous =>
                    "ambiguous dashboard layout: has both `grid`/`cards` and `rows`; add `type: free` or `type: grid`"@,
                LayoutError::NoLayout => "dashboard has neither `grid`/`cards` (free layout) nor `rows` (grid layout)"@,
                LayoutError::CardsWithoutGrid => "free dashboard has `cards` but no `grid`"@,
                LayoutError::UnknownType(None) => "unrecognized dashboard type None"@,
                LayoutError::UnknownType(Some(t)) => "unrecognized dashboard type Some("@ + debug_str(t@) + ")"@,
            },
    {
        match self {
            LayoutError::FreeWithRows => "dashboard has `type: free` but also `rows` — remove one".to_string(),
            LayoutError::GridWithFreeFields => "dashboard has `type: grid` but also `grid`/`cards` fields — remove them".to_string(),
            LayoutError::Ambiguous =>
                "ambiguous dashboard layout: has both `grid`/`cards` and `rows`; add `type: free` or `type: grid`".to_string(),
            LayoutError::NoLayout => "dashboard has neither `grid`/`cards` (free layout) nor `rows` (grid layout)".to_string(),
            LayoutError::CardsWithoutGrid => "free dashboard has `cards` but no `grid`".to_string(),
            LayoutError::UnknownType(None) => "unrecognized dashboard type None".to_string(),
            LayoutError::UnknownType(Some(t)) => {
                let mut m = "unrecognized dashboard type Some(".to_string();
                let q = debug_string(t.as_str());
                m.append(q.as_str());
                m.append(")");
                m
            },
        }
    }
}

/// The row height an unsigned integer gives: kept to its low 16 bits.
pub fn row_height_from_u64(v: u64) -> (r: RowHeight)
    ensures
        r == RowHeight::Fixed((v % 65536) as u16),
{
    RowHeight::Fixed((v % 65536) as u16)
}

/// The row height a signed integer gives: a positive one its low 16 bits,
/// any other an error.
pub fn row_height_from_i64(v: i64) -> (r: Result<RowHeight, String>)
    ensures
        v > 0 ==> r == Ok::<RowHeight, String>(RowHeight::Fixed((v % 65536) as u16)),
        v <= 0 ==> (r matches Err(m) && m@ == "row height must be positive"@),
{
    if v > 0 {
        Ok(RowHeight::Fixed((v % 65536) as u16))
    } else {
        Err("row height must be positive".to_string())
    }
}

/// The row height a string gives: `auto` in any case, else an error.
pub fn row_height_from_str(v: &str) -> (r: Result<RowHeight, String>)
    ensures
        lower_seq(v@) == "auto"@ ==> r == Ok::<RowHeight, String>(RowHeight::Auto),
        lower_seq(v@) != "auto"@ ==> (r matches Err(m) && m@ == "expected \"auto\" or integer, got "@ + debug_str(v@)),
{
    if eq_ignore_ascii_case(v, "auto") {
        proof {
            reveal_strlit("auto");
            assert(lower_seq("auto"@) =~= "auto"@);
        }
        Ok(RowHeight::Auto)
    } else {
        proof {
            reveal_strlit("auto");
            assert(lower_seq("auto"@) =~= "auto"@);
        }
        let mut m = "expected \"auto\" or integer, got ".to_string();
        let q = debug_string(v);
        m.append(q.as_str());
        Err(m)
    }
}

/// A row height reads back as written: a fixed height is written as its
/// number, which `row_height_from_u64` keeps whole, and `auto` as the word
/// `auto`, which `row_height_from_str` takes.
pub proof fn law_row_height_reads_back(n: u16)
    ensures
        ((n as u64) % 65536) as u16 == n,
        lower_seq("auto"@) == "auto"@,
{
    reveal_strlit("auto");
    assert(lower_seq("auto"@) =~= "auto"@);
}

/// The history window a graph or statistics entry without one gets.
pub fn default_window() -> (r: String)
    ensures
        r@ == "1h"@,
{
    "1h".to_string()
}

/// The time format a clock entry without one gets.
pub fn default_clock_format() -> (r: String)
    ensures
        r@ == "%H:%M:%S"@,
{
    "%H:%M:%S".to_string()
}

/// How many forecast days a weather entry without the field shows.
pub fn default_forecast_days() -> (r: u8)
    ensures
        r == 3,
{
    3
}

/// The value of a flag that is on unless the entry says otherwise.
pub fn default_true() -> (r: bool)
    ensures
        r,
{
    true
}

/// A card of the normal size leaves its size out of the file.
pub fn is_default_size(s: &CardSize) -> (r: bool)
    ensures
        r == (*s == CardSize::Normal),
{
    match s {
        CardSize::Normal => true,
        _ => false,
    }
}

} // verus!
