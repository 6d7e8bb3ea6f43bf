//! Screen layout of grid dashboards in whole terminal cells: row heights,
//! column rectangles, and where each card of a column lands once scrolled
//! and clipped. (Proportional scaling in fractions is done by the caller.)
use vstd::prelude::*;

use crate::dashboard::{GridRow, RowHeight};
use crate::flat::{col_start, cols_flat, rows_flat, valid_col};

verus! {

/// A screen rectangle in terminal cells.
#[derive(Clone, Copy, PartialEq, Eq, Structural, Debug)]
pub struct Rect {
    pub x: u16,
    pub y: u16,
    pub width: u16,
    pub height: u16,
}

/// Minimum terminal rows of any grid row: a border and one content line.
pub const MIN_ROW_HEIGHT: u16 = 3;

/// One rendered card slot of a grid layout.
#[derive(Clone, Copy, PartialEq, Eq, Structural, Debug)]
pub struct GridCardSlot {
    /// Flat card index of the dashboard.
    pub flat_idx: usize,
    /// Where the card is drawn, clipped to its column.
    pub rect: Rect,
    /// The card's height before clipping.
    pub natural_height: u16,
}

/// What the renderer needs of one column of a grid layout.
#[derive(Clone, Copy, PartialEq, Eq, Structural, Debug)]
pub struct ColInfo {
    pub row_idx: usize,
    pub col_idx: usize,
    pub rect: Rect,
    pub needs_scrollbar: bool,
    /// Sum of the natural heights of the column's cards.
    pub content_height: u16,
}

pub open spec fn max_i(a: int, b: int) -> int {
    if a < b { b } else { a }
}

pub open spec fn min_i(a: int, b: int) -> int {
    if a < b { a } else { b }
}

/// The slots of a column's cards, the first starting at `top` (which the
/// scroll offset may put above the column) with flat index `idx`: each card
/// that shows at least two rows inside the column, clipped to it.
pub open spec fn column_slots(col: Rect, hs: Seq<u16>, top: int, idx: int) -> Seq<GridCardSlot>
    decreases hs.len(),
{
    if hs.len() == 0 {
        Seq::empty()
    } else {
        let h = hs[0] as int;
        let rest = column_slots(col, hs.drop_first(), top + h, idx + 1);
        let bottom = col.y + col.height;
        if top + h > col.y && top < bottom {
            let vy = max_i(top, col.y as int);
            let vh = min_i(top + h, bottom) - vy;
            if vh >= 2 {
                seq![
                    GridCardSlot {
                        flat_idx: idx as usize,
                        rect: Rect { x: col.x, y: vy as u16, width: col.width, height: vh as u16 },
                        natural_height: hs[0],
                    },
                ] + rest
            } else {
                rest
            }
        } else {
            rest
        }
    }
}

/// Place the cards of one column, `heights` tall each, scrolled down by `scroll`.
pub fn place_column(col: Rect, heights: &Vec<u16>, scroll: u16, flat_start: usize) -> (r: Vec<GridCardSlot>)
    requires
        col.y + col.height <= u16::MAX,
        flat_start + heights@.len() <= usize::MAX,
    ensures
        r@ == column_slots(col, heights@, col.y - scroll, flat_start as int),
{
    let mut out: Vec<GridCardSlot> = Vec::new();
    let bottom: i128 = col.y as i128 + col.height as i128;
    let mut top: i128 = col.y as i128 - scroll as i128;
    let ghost top0 = top as int;
    let mut i: usize = 0;
    assert(heights@.skip(0) =~= heights@);
    while i < heights.len()
        invariant
            i <= heights@.len(),
            col.y + col.height <= u16::MAX,
            flat_start + heights@.len() <= usize::MAX,
            bottom == col.y + col.height,
            top0 == col.y - scroll,
            -65536 <= top <= 65535 + 65535 * i,
            out@ + column_slots(col, heights@.skip(i as int), top as int, flat_start + i) == column_slots(
                col,
                heights@,
                top0,
                flat_start as int,
            ),
        decreases heights.len() - i,
    {
        let h = heights[i] as i128;
        let ghost hs = heights@.skip(i as int);
        assert(hs.drop_first() =~= heights@.skip(i as int + 1));
        assert(hs[0] == heights@[i as int]);
        if top + h > col.y as i128 && top < bottom {
            let vy: i128 = if top < col.y as i128 { col.y as i128 } else { top };
            let vb: i128 = if top + h < bottom { top + h } else { bottom };
            let vh = vb - vy;
            if vh >= 2 {
                let slot = GridCardSlot {
                    flat_idx: flat_start + i,
                    rect: Rect { x: col.x, y: vy as u16, width: col.width, height: vh as u16 },
                    natural_height: heights[i],
                };
                let ghost before = out@;
                out.push(slot);
                assert(out@ == before.push(slot));
                assert(before.push(slot) + column_slots(col, heights@.skip(i as int + 1), top + h, flat_start + i + 1)
                    =~= before + (seq![slot] + column_slots(col, heights@.skip(i as int + 1), top + h, flat_start + i + 1)));
            }
        }
        top = top + h;
        i = i + 1;
    }
    assert(out@ + column_slots(col, heights@.skip(i as int), top as int, flat_start + i) =~= out@);
    out
}

/// Proportional heights adjusted to fill the column exactly: the last card
/// takes whatever the rounded-down shares leave over.
pub open spec fn filled_heights(floors: Seq<u16>, target: u16) -> Seq<u16> {
    if floors.len() == 0 {
        floors
    } else {
        let sum = seq_sum(floors);
        let extra: int = if sum < target { target - sum } else { 0 };
        let last = floors.last() + extra;
        floors.update(floors.len() - 1, if last > u16::MAX { u16::MAX } else { last as u16 })
    }
}

/// The sum of a sequence of heights.
pub open spec fn seq_sum(s: Seq<u16>) -> int
    decreases s.len(),
{
    if s.len() == 0 {
        0
    } else {
        seq_sum(s.drop_last()) + s.last()
    }
}

proof fn lemma_seq_sum_prefix(s: Seq<u16>, k: int)
    requires
        0 <= k <= s.len(),
    ensures
        seq_sum(s.take(k)) <= seq_sum(s),
    decreases s.len() - k,
{
    if k < s.len() {
        lemma_seq_sum_prefix(s, k + 1);
        assert(s.take(k + 1).drop_last() =~= s.take(k));
    } else {
        assert(s.take(k) =~= s);
    }
}

/// Sum of heights, as a `u16`.
pub fn sum_heights(hs: &Vec<u16>) -> (r: u16)
    requires
        seq_sum(hs@) <= u16::MAX,
    ensures
        r == seq_sum(hs@),
{
    let mut s: u16 = 0;
    let mut i: usize = 0;
    while i < hs.len()
        invariant
            i <= hs@.len(),
            seq_sum(hs@) <= u16::MAX,
            s == seq_sum(hs@.take(i as int)),
        decreases hs.len() - i,
    {
        assert(hs@.take(i as int + 1).drop_last() =~= hs@.take(i as int));
        proof {
            lemma_seq_sum_prefix(hs@, i as int + 1);
        }
        s = s + hs[i];
        i = i + 1;
    }
    assert(hs@.take(hs@.len() as int) =~= hs@);
    s
}

/// Correct the rounding drift of proportional card heights so that they fill
/// `target` rows.
pub fn fill_heights(floors: Vec<u16>, target: u16) -> (r: Vec<u16>)
    requires
        seq_sum(floors@) <= u16::MAX,
    ensures
        r@ == filled_heights(floors@, target),
{
    let mut hs = floors;
    let n = hs.len();
    if n == 0 {
        return hs;
    }
    let sum = sum_heights(&hs);
    let extra: u16 = if sum < target { target - sum } else { 0 };
    let last = hs[n - 1];
    let v = last.saturating_add(extra);
    hs.set(n - 1, v);
    hs
}

/// Total height of the fixed rows.
pub open spec fn fixed_sum(rows: Seq<GridRow>) -> int
    decreases rows.len(),
{
    if rows.len() == 0 {
        0
    } else {
        fixed_sum(rows.drop_last()) + match rows.last().height {
            RowHeight::Fixed(h) => h as int,
            RowHeight::Auto => 0,
        }
    }
}

/// Number of auto-height rows.
pub open spec fn auto_count(rows: Seq<GridRow>) -> int
    decreases rows.len(),
{
    if rows.len() == 0 {
        0
    } else {
        auto_count(rows.drop_last()) + if rows.last().height == RowHeight::Auto { 1int } else { 0int }
    }
}

/// The fixed rows need scaling down to fit `height`.
pub open spec fn needs_scaling(rows: Seq<GridRow>, height: u16) -> bool {
    fixed_sum(rows) >= height && fixed_sum(rows) > 0
}

/// Row heights when the fixed rows fit: each fixed row as given (at least
/// the minimum), the auto rows sharing what is left equally (at least the minimum).
pub open spec fn row_heights_spec(rows: Seq<GridRow>, height: u16) -> Seq<u16> {
    let n_auto = auto_count(rows);
    let remaining = height - fixed_sum(rows);
    let share: int = if n_auto > 0 {
        max_i(remaining / n_auto, MIN_ROW_HEIGHT as int)
    } else {
        0
    };
    rows.map_values(
        |r: GridRow|
            match r.height {
                RowHeight::Fixed(h) => if h < MIN_ROW_HEIGHT { MIN_ROW_HEIGHT } else { h },
                RowHeight::Auto => share as u16,
            },
    )
}

proof fn lemma_sums_nonneg(rows: Seq<GridRow>)
    ensures
        0 <= fixed_sum(rows),
        0 <= auto_count(rows),
    decreases rows.len(),
{
    if rows.len() > 0 {
        lemma_sums_nonneg(rows.drop_last());
    }
}

proof fn lemma_fixed_sum_prefix(rows: Seq<GridRow>, k: int)
    requires
        0 <= k <= rows.len(),
    ensures
        fixed_sum(rows.take(k)) <= fixed_sum(rows),
        auto_count(rows.take(k)) <= auto_count(rows),
        0 <= fixed_sum(rows.take(k)),
        0 <= auto_count(rows.take(k)),
    decreases rows.len() - k,
{
    if k < rows.len() {
        lemma_fixed_sum_prefix(rows, k + 1);
        assert(rows.take(k + 1).drop_last() =~= rows.take(k));
    } else {
        assert(rows.take(k) =~= rows);
    }
    lemma_sums_nonneg(rows.take(k));
}

/// Row heights of a grid dashboard `height` rows tall, or `None` when its
/// fixed rows overflow it and must be scaled down.
pub fn unscaled_row_heights(rows: &Vec<GridRow>, height: u16) -> (r: Option<Vec<u16>>)
    requires
        fixed_sum(rows@) <= u16::MAX,
        auto_count(rows@) <= u16::MAX,
    ensures
        match r {
            None => needs_scaling(rows@, height),
            Some(hs) => !needs_scaling(rows@, height) && hs@ == row_heights_spec(rows@, height),
        },
{
    let mut sum: u16 = 0;
    let mut n_auto: u16 = 0;
    let mut i: usize = 0;
    while i < rows.len()
        invariant
            i <= rows@.len(),
            fixed_sum(rows@) <= u16::MAX,
            auto_count(rows@) <= u16::MAX,
            sum == fixed_sum(rows@.take(i as int)),
            n_auto == auto_count(rows@.take(i as int)),
        decreases rows.len() - i,
    {
        assert(rows@.take(i as int + 1).drop_last() =~= rows@.take(i as int));
        proof {
            lemma_fixed_sum_prefix(rows@, i as int + 1);
        }
        match rows[i].height {
            RowHeight::Fixed(h) => {
                sum = sum + h;
            },
            RowHeight::Auto => {
                n_auto = n_auto + 1;
            },
        }
        i = i + 1;
    }
    assert(rows@.take(rows@.len() as int) =~= rows@);
    if sum >= height && sum > 0 {
        return None;
    }
    let remaining = height - sum;
    let share: u16 = if n_auto > 0 {
        let s = remaining / n_auto;
        if s < MIN_ROW_HEIGHT {
            MIN_ROW_HEIGHT
        } else {
            s
        }
    } else {
        0
    };
    let mut out: Vec<u16> = Vec::new();
    let mut k: usize = 0;
    while k < rows.len()
        invariant
            k <= rows@.len(),
            !needs_scaling(rows@, height),
            share as int == (if auto_count(rows@) > 0 {
                max_i((height - fixed_sum(rows@)) / auto_count(rows@), MIN_ROW_HEIGHT as int)
            } else {
                0
            }),
            out@ == row_heights_spec(rows@, height).take(k as int),
        decreases rows.len() - k,
    {
        let h = match rows[k].height {
            RowHeight::Fixed(h) => if h < MIN_ROW_HEIGHT {
                MIN_ROW_HEIGHT
            } else {
                h
            },
            RowHeight::Auto => share,
        };
        out.push(h);
        assert(out@ =~= row_heights_spec(rows@, height).take(k as int + 1));
        k = k + 1;
    }
    assert(row_heights_spec(rows@, height).take(rows@.len() as int) =~= row_heights_spec(rows@, height));
    Some(out)
}

/// The scroll offset of one column of a grid dashboard.
#[derive(Clone, Copy, PartialEq, Eq, Structural, Debug)]
pub struct ColScroll {
    pub row: usize,
    pub col: usize,
    pub offset: u16,
}

/// The offset recorded for column (`r`, `c`), or 0.
pub open spec fn scroll_for(s: Seq<ColScroll>, r: int, c: int) -> u16
    decreases s.len(),
{
    if s.len() == 0 {
        0
    } else if s[0].row == r && s[0].col == c {
        s[0].offset
    } else {
        scroll_for(s.drop_first(), r, c)
    }
}

pub fn find_scroll(s: &Vec<ColScroll>, r: usize, c: usize) -> (o: u16)
    ensures
        o == scroll_for(s@, r as int, c as int),
{
    let mut i: usize = 0;
    assert(s@.skip(0) =~= s@);
    while i < s.len()
        invariant
            i <= s@.len(),
            scroll_for(s@, r as int, c as int) == scroll_for(s@.skip(i as int), r as int, c as int),
        decreases s.len() - i,
    {
        assert(s@.skip(i as int)[0] == s@[i as int]);
        assert(s@.skip(i as int).drop_first() =~= s@.skip(i as int + 1));
        if s[i].row == r && s[i].col == c {
            return s[i].offset;
        }
        i = i + 1;
    }
    0
}

/// A card's natural height, 4 when none was measured.
pub open spec fn height_or_default(hs: Seq<u16>, i: int) -> u16 {
    if 0 <= i < hs.len() {
        hs[i]
    } else {
        4
    }
}

/// Natural heights of the cards of column (`r`, `c`).
pub open spec fn natural_heights(rows: Seq<GridRow>, card_heights: Seq<u16>, r: int, c: int) -> Seq<u16> {
    Seq::new(
        rows[r].columns@[c].cards@.len(),
        |k: int| height_or_default(card_heights, col_start(rows, r, c) + k),
    )
}

/// Total height of the rows before row `r`.
pub open spec fn rows_above(rh: Seq<u16>, r: int) -> int {
    seq_sum(rh.take(r))
}

/// The screen rectangle of column (`r`, `c`): the row's width split evenly,
/// the last column taking the remainder.
pub open spec fn column_rect(rows: Seq<GridRow>, area: Rect, rh: Seq<u16>, r: int, c: int) -> Rect {
    let n = rows[r].columns@.len() as int;
    let base = area.width as int / n;
    Rect {
        x: (area.x + c * base) as u16,
        y: (area.y + rows_above(rh, r)) as u16,
        width: (base + if c == n - 1 { area.width as int % n } else { 0 }) as u16,
        height: rh[r],
    }
}

/// Whether column (`r`, `c`) stretches its cards to its height.
pub open spec fn column_fill(rows: Seq<GridRow>, r: int, c: int) -> bool {
    match rows[r].columns@[c].fill_height {
        Some(b) => b,
        None => rows[r].fill_height == Some(true),
    }
}

/// Number of columns in the rows before row `r`.
pub open spec fn cols_before(rows: Seq<GridRow>, r: int) -> int
    decreases r,
{
    if r <= 0 {
        0
    } else {
        cols_before(rows, r - 1) + rows[r - 1].columns@.len()
    }
}

/// What the layout knows of one column before its cards are placed.
#[derive(Debug)]
pub struct ColumnPlan {
    pub row_idx: usize,
    pub col_idx: usize,
    pub rect: Rect,
    pub fill: bool,
    pub scroll: u16,
    /// Flat index of the column's first card.
    pub flat_start: usize,
    /// Natural height of each of the column's cards.
    pub natural: Vec<u16>,
    /// Sum of the natural heights.
    pub content_height: u16,
}

/// `p` is the plan of column (`r`, `c`).
pub open spec fn plan_of(p: ColumnPlan, rows: Seq<GridRow>, area: Rect, rh: Seq<u16>, scrolls: Seq<ColScroll>, card_heights: Seq<u16>, r: int, c: int) -> bool {
    &&& p.row_idx == r
    &&& p.col_idx == c
    &&& p.rect == column_rect(rows, area, rh, r, c)
    &&& p.fill == column_fill(rows, r, c)
    &&& p.scroll == scroll_for(scrolls, r, c)
    &&& p.flat_start == col_start(rows, r, c)
    &&& p.natural@ == natural_heights(rows, card_heights, r, c)
    &&& p.content_height == seq_sum(natural_heights(rows, card_heights, r, c))
}

/// A plan whose column ends on screen and whose cards' flat indices fit a `usize`.
pub open spec fn plan_sane(p: ColumnPlan) -> bool {
    &&& p.rect.y + p.rect.height <= u16::MAX
    &&& p.flat_start + p.natural@.len() <= usize::MAX
    &&& p.content_height == seq_sum(p.natural@)
}

/// The sizes involved fit the integer types the layout computes in.
pub open spec fn layout_fits(rows: Seq<GridRow>, area: Rect, rh: Seq<u16>, card_heights: Seq<u16>) -> bool {
    &&& rh.len() == rows.len()
    &&& area.y + seq_sum(rh) <= u16::MAX
    &&& area.x + area.width <= u16::MAX
    &&& rows_flat(rows).len() <= usize::MAX
    &&& forall|r: int| 0 <= r < rows.len() ==> (#[trigger] rows[r]).columns@.len() <= u16::MAX
    &&& forall|r: int, c: int| valid_col(rows, r, c) ==> seq_sum(#[trigger] natural_heights(rows, card_heights, r, c)) <= u16::MAX
}

proof fn lemma_cols_before_nonneg(rows: Seq<GridRow>, r: int)
    ensures
        cols_before(rows, r) >= 0,
    decreases r,
{
    if r > 0 {
        lemma_cols_before_nonneg(rows, r - 1);
    }
}

proof fn lemma_cols_before_mono(rows: Seq<GridRow>, r: int, c: int, r2: int)
    requires
        0 <= r < r2,
        0 <= c < rows[r].columns@.len(),
    ensures
        cols_before(rows, r) + c < cols_before(rows, r2),
    decreases r2,
{
    if r2 - 1 > r {
        lemma_cols_before_mono(rows, r, c, r2 - 1);
    }
}

/// The columns of a grid layout, row by row: their rectangles, fill and
/// scroll settings, and the natural heights of their cards. An empty grid
/// or area has none.
pub fn column_plans(rows: &Vec<GridRow>, area: Rect, row_heights: &Vec<u16>, col_scrolls: &Vec<ColScroll>, card_heights: &Vec<u16>) -> (r: Vec<ColumnPlan>)
    requires
        layout_fits(rows@, area, row_heights@, card_heights@),
    ensures
        rows@.len() == 0 || area.height == 0 || area.width == 0 ==> r@.len() == 0,
        forall|k: int| 0 <= k < r@.len() ==> plan_sane(#[trigger] r@[k]),
        !(rows@.len() == 0 || area.height == 0 || area.width == 0) ==> {
            &&& r@.len() == cols_before(rows@, rows@.len() as int)
            &&& forall|ri: int, ci: int| #[trigger] valid_col(rows@, ri, ci) ==> plan_of(
                r@[cols_before(rows@, ri) + ci],
                rows@,
                area,
                row_heights@,
                col_scrolls@,
                card_heights@,
                ri,
                ci,
            )
        },
{
    let mut plans: Vec<ColumnPlan> = Vec::new();
    if rows.len() == 0 || area.height == 0 || area.width == 0 {
        return plans;
    }
    let ghost rh = row_heights@;
    let mut row_y: u16 = area.y;
    let mut flat: usize = 0;
    let mut ri: usize = 0;
    while ri < rows.len()
        invariant
            ri <= rows@.len(),
            rh == row_heights@,
            layout_fits(rows@, area, rh, card_heights@),
            area.width > 0,
            row_y == area.y + rows_above(rh, ri as int),
            flat == rows_flat(rows@.take(ri as int)).len(),
            plans@.len() == cols_before(rows@, ri as int),
            forall|k: int| 0 <= k < plans@.len() ==> plan_sane(#[trigger] plans@[k]),
            forall|r: int, c: int| #[trigger] valid_col(rows@, r, c) && r < ri ==> plan_of(
                plans@[cols_before(rows@, r) + c],
                rows@,
                area,
                rh,
                col_scrolls@,
                card_heights@,
                r,
                c,
            ),
        decreases rows.len() - ri,
    {
        let row = &rows[ri];
        let row_h = row_heights[ri];
        proof {
            lemma_seq_sum_prefix(rh, ri as int + 1);
            assert(rh.take(ri as int + 1).drop_last() =~= rh.take(ri as int));
            crate::flat::lemma_rows_take_step(rows@, ri as int);
            crate::flat::lemma_rows_take_mono(rows@, ri as int + 1, rows@.len() as int);
            crate::flat::lemma_rows_take_full(rows@);
        }
        let ncols = row.columns.len();
        let n = ncols as u16;
        let ghost plans_row0 = plans@.len();
        if ncols > 0 {
            let base = area.width / n;
            let rem = area.width % n;
            proof {
                assert(base * n <= area.width) by (nonlinear_arith)
                    requires
                        base == area.width / n,
                        n > 0,
                ;
            }
            let mut col_x: u16 = area.x;
            let mut ci: usize = 0;
            assert(row.columns@.take(0) =~= Seq::<crate::dashboard::GridColumn>::empty());
            while ci < ncols
                invariant
                    ri < rows@.len(),
                    *row == rows@[ri as int],
                    ncols == row.columns@.len(),
                    n == ncols,
                    n > 0,
                    base == area.width as int / (n as int),
                    rem == area.width as int % (n as int),
                    base * n <= area.width,
                    rh == row_heights@,
                    row_h == rh[ri as int],
                    layout_fits(rows@, area, rh, card_heights@),
                    row_y == area.y + rows_above(rh, ri as int),
                    row_y + row_h <= u16::MAX,
                    ci <= ncols,
                    ci < ncols ==> col_x == area.x + ci * base,
                    flat == col_start(rows@, ri as int, ci as int),
                    plans@.len() == cols_before(rows@, ri as int) + ci,
                    forall|k: int| 0 <= k < plans@.len() ==> plan_sane(#[trigger] plans@[k]),
                    forall|r: int, c: int| #[trigger] valid_col(rows@, r, c) && (r < ri || (r == ri && c < ci)) ==> plan_of(
                        plans@[cols_before(rows@, r) + c],
                        rows@,
                        area,
                        rh,
                        col_scrolls@,
                        card_heights@,
                        r,
                        c,
                    ),
                decreases ncols - ci,
            {
                let col = &row.columns[ci];
                proof {
                    assert(ci * base + base <= area.width) by (nonlinear_arith)
                        requires
                            ci < n,
                            base * n <= area.width,
                    ;
                    crate::flat::lemma_cols_take_step(row.columns@, ci as int);
                    assert(valid_col(rows@, ri as int, ci as int));
                    crate::flat::lemma_col_within(rows@, ri as int, ci as int);
                    assert((ci + 1) * base == ci * base + base) by (nonlinear_arith);
                }
                proof {
                    vstd::arithmetic::div_mod::lemma_fundamental_div_mod(area.width as int, n as int);
                    assert(base <= base * n) by (nonlinear_arith)
                        requires
                            n >= 1,
                            base >= 0,
                    ;
                }
                let col_w: u16 = if ci == ncols - 1 {
                    base + rem
                } else {
                    base
                };
                proof {
                    if ci == ncols - 1 {
                        assert(col_x + col_w == area.x + area.width) by (nonlinear_arith)
                            requires
                                col_x == area.x + ci * base,
                                ci == n - 1,
                                col_w == base + rem,
                                base == area.width as int / (n as int),
                                rem == area.width as int % (n as int),
                                n > 0,
                        ;
                    }
                }
                let rect = Rect { x: col_x, y: row_y, width: col_w, height: row_h };
                let fill = col.effective_fill_height(row.fill_height_default());
                let scroll = find_scroll(col_scrolls, ri, ci);
                let mut natural: Vec<u16> = Vec::new();
                let m = col.cards.len();
                let mut k: usize = 0;
                while k < m
                    invariant
                        k <= m,
                        m == col.cards@.len(),
                        *col == rows@[ri as int].columns@[ci as int],
                        flat == col_start(rows@, ri as int, ci as int),
                        flat + m <= usize::MAX,
                        natural@ == natural_heights(rows@, card_heights@, ri as int, ci as int).take(k as int),
                    decreases m - k,
                {
                    let idx = flat + k;
                    let h = if idx < card_heights.len() {
                        card_heights[idx]
                    } else {
                        4
                    };
                    natural.push(h);
                    assert(natural@ =~= natural_heights(rows@, card_heights@, ri as int, ci as int).take(k as int + 1));
                    k = k + 1;
                }
                assert(natural_heights(rows@, card_heights@, ri as int, ci as int).take(m as int) =~= natural_heights(
                    rows@,
                    card_heights@,
                    ri as int,
                    ci as int,
                ));
                assert(valid_col(rows@, ri as int, ci as int));
                let content = sum_heights(&natural);
                let plan = ColumnPlan {
                    row_idx: ri,
                    col_idx: ci,
                    rect,
                    fill,
                    scroll,
                    flat_start: flat,
                    natural,
                    content_height: content,
                };
                proof {
                    assert(rect == column_rect(rows@, area, rh, ri as int, ci as int));
                    assert(plan_of(plan, rows@, area, rh, col_scrolls@, card_heights@, ri as int, ci as int));
                    lemma_seq_sum_prefix(rh, ri as int + 1);
                    assert(rh.take(ri as int + 1).drop_last() =~= rh.take(ri as int));
                    crate::flat::lemma_col_within(rows@, ri as int, ci as int);
                    assert(plan_sane(plan));
                }
                let ghost old_plans = plans@;
                plans.push(plan);
                proof {
                    assert(plans@ == old_plans.push(plan));
                    assert forall|r: int, c: int| #[trigger] valid_col(rows@, r, c) && (r < ri || (r == ri && c < ci + 1)) implies plan_of(
                        plans@[cols_before(rows@, r) + c],
                        rows@,
                        area,
                        rh,
                        col_scrolls@,
                        card_heights@,
                        r,
                        c,
                    ) by {
                        lemma_cols_before_nonneg(rows@, r);
                        if r < ri {
                            lemma_cols_before_mono(rows@, r, c, ri as int);
                            assert(plans@[cols_before(rows@, r) + c] == old_plans[cols_before(rows@, r) + c]);
                        } else if c < ci {
                            assert(plans@[cols_before(rows@, r) + c] == old_plans[cols_before(rows@, r) + c]);
                        }
                    }
                }
                flat = flat + m;
                col_x = col_x + col_w;
                ci = ci + 1;
            }
            proof {
                crate::flat::lemma_cols_take_full(row.columns@);
            }
        }
        row_y = row_y + row_h;
        ri = ri + 1;
    }
    plans
}

/// The column's entry for the renderer: it needs a scrollbar when it does
/// not stretch its cards and they are taller than it.
pub fn col_info(p: &ColumnPlan) -> (r: ColInfo)
    ensures
        r == (ColInfo {
            row_idx: p.row_idx,
            col_idx: p.col_idx,
            rect: p.rect,
            needs_scrollbar: !p.fill && p.content_height > p.rect.height,
            content_height: p.content_height,
        }),
{
    ColInfo {
        row_idx: p.row_idx,
        col_idx: p.col_idx,
        rect: p.rect,
        needs_scrollbar: !p.fill && p.content_height > p.rect.height,
        content_height: p.content_height,
    }
}

proof fn lemma_seq_sum_update_last(s: Seq<u16>, v: u16)
    requires
        s.len() > 0,
    ensures
        seq_sum(s.update(s.len() - 1, v)) == seq_sum(s) - s.last() + v,
{
    assert(s.update(s.len() - 1, v).drop_last() =~= s.drop_last());
}

/// Stretched heights fill their column exactly: once the drift is given to
/// the last card, shares that do not exceed the column add up to its height.
pub proof fn law_fill_heights_sum(floors: Seq<u16>, target: u16)
    requires
        floors.len() > 0,
        seq_sum(floors) <= target,
    ensures
        seq_sum(filled_heights(floors, target)) == target,
{
    lemma_seq_sum_prefix(floors, floors.len() - 1);
    assert(floors.take(floors.len() - 1) =~= floors.drop_last());
    lemma_seq_sum_nonneg(floors.drop_last());
    let last = floors.last() + (target - seq_sum(floors));
    assert(last <= u16::MAX);
    lemma_seq_sum_update_last(floors, last as u16);
}

proof fn lemma_seq_sum_nonneg(s: Seq<u16>)
    ensures
        seq_sum(s) >= 0,
    decreases s.len(),
{
    if s.len() > 0 {
        lemma_seq_sum_nonneg(s.drop_last());
    }
}

/// Every slot of a column lies inside the column, spans its width, and
/// shows at least two rows; flat indices count up from the column's first.
pub proof fn law_slots_inside_column(col: Rect, hs: Seq<u16>, top: int, idx: int)
    requires
        col.y + col.height <= u16::MAX,
        idx >= 0,
        idx + hs.len() <= usize::MAX,
    ensures
        forall|k: int| 0 <= k < column_slots(col, hs, top, idx).len() ==> {
            let s = #[trigger] column_slots(col, hs, top, idx)[k];
            &&& s.rect.x == col.x
            &&& s.rect.width == col.width
            &&& col.y <= s.rect.y
            &&& s.rect.y + s.rect.height <= col.y + col.height
            &&& s.rect.height >= 2
            &&& idx <= s.flat_idx < idx + hs.len()
        },
    decreases hs.len(),
{
    if hs.len() > 0 {
        let h = hs[0] as int;
        let rest = column_slots(col, hs.drop_first(), top + h, idx + 1);
        law_slots_inside_column(col, hs.drop_first(), top + h, idx + 1);
        let all = column_slots(col, hs, top, idx);
        let bottom = col.y + col.height;
        if top + h > col.y && top < bottom {
            let vy = max_i(top, col.y as int);
            let vh = min_i(top + h, bottom) - vy;
            if vh >= 2 {
                assert(all == seq![all[0]] + rest);
                assert(all[0].rect.y == vy);
                assert(all[0].rect.height == vh);
                assert(all[0].flat_idx == idx);
                assert forall|k: int| 1 <= k < all.len() implies #[trigger] all[k] == rest[k - 1] by {}
            }
        }
    }
}

/// The heights a column's cards are drawn with: shares stretched to fill the
/// column when it fills and has content, else their natural heights.
pub open spec fn rendered_heights(p: ColumnPlan, shares: Seq<u16>) -> Seq<u16> {
    if p.fill && p.content_height > 0 {
        filled_heights(shares, p.rect.height)
    } else {
        p.natural@
    }
}

/// The slots of all columns, column after column.
pub open spec fn all_slots(plans: Seq<ColumnPlan>, shares: Seq<Vec<u16>>) -> Seq<GridCardSlot>
    decreases plans.len(),
{
    if plans.len() == 0 {
        Seq::empty()
    } else {
        let k = plans.len() - 1;
        let p = plans[k];
        all_slots(plans.drop_last(), shares) + column_slots(
            p.rect,
            rendered_heights(p, shares[k]@),
            p.rect.y - p.scroll,
            p.flat_start as int,
        )
    }
}

pub open spec fn info_of(p: ColumnPlan) -> ColInfo {
    ColInfo {
        row_idx: p.row_idx,
        col_idx: p.col_idx,
        rect: p.rect,
        needs_scrollbar: !p.fill && p.content_height > p.rect.height,
        content_height: p.content_height,
    }
}

/// `shares` gives every filling column one share per card, summing within a `u16`.
pub open spec fn shares_fit(plans: Seq<ColumnPlan>, shares: Seq<Vec<u16>>) -> bool {
    &&& shares.len() == plans.len()
    &&& forall|k: int| 0 <= k < plans.len() ==> {
        &&& plan_sane(#[trigger] plans[k])
        &&& (plans[k].fill && plans[k].content_height > 0) ==> shares[k]@.len() == plans[k].natural@.len()
            && seq_sum(shares[k]@) <= u16::MAX
    }
}

/// Card slots and column entries of a planned grid layout. `shares[k]` holds
/// the proportional heights of column `k`'s cards, used when it fills.
pub fn layout_slots(plans: &Vec<ColumnPlan>, shares: &Vec<Vec<u16>>) -> (r: (Vec<GridCardSlot>, Vec<ColInfo>))
    requires
        shares_fit(plans@, shares@),
    ensures
        r.0@ == all_slots(plans@, shares@),
        r.1@ == plans@.map_values(|p: ColumnPlan| info_of(p)),
{
    let mut slots: Vec<GridCardSlot> = Vec::new();
    let mut infos: Vec<ColInfo> = Vec::new();
    let mut k: usize = 0;
    while k < plans.len()
        invariant
            k <= plans@.len(),
            shares_fit(plans@, shares@),
            slots@ == all_slots(plans@.take(k as int), shares@),
            infos@ == plans@.take(k as int).map_values(|p: ColumnPlan| info_of(p)),
        decreases plans.len() - k,
    {
        let p = &plans[k];
        assert(plan_sane(plans@[k as int]));
        assert(plans@.take(k as int + 1).drop_last() =~= plans@.take(k as int));
        let col_slots = if p.fill && p.content_height > 0 {
            let hs = fill_heights(shares[k].clone(), p.rect.height);
            place_column(p.rect, &hs, p.scroll, p.flat_start)
        } else {
            place_column(p.rect, &p.natural, p.scroll, p.flat_start)
        };
        let mut cs = col_slots;
        let ghost before = slots@;
        slots.append(&mut cs);
        infos.push(col_info(p));
        assert(infos@ =~= plans@.take(k as int + 1).map_values(|p: ColumnPlan| info_of(p)));
        k = k + 1;
    }
    assert(plans@.take(plans@.len() as int) =~= plans@);
    (slots, infos)
}

} // verus!
