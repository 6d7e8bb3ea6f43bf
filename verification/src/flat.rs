//! The flat card order of a dashboard: free cards by index, grid cards
//! row-major (rows top to bottom, columns left to right, cards top to bottom).
use vstd::prelude::*;

use crate::dashboard::{Card, Dashboard, DashboardLayout, GridColumn, GridRow};

verus! {

/// The cards of a row's columns, concatenated left to right.
pub open spec fn cols_flat(cols: Seq<GridColumn>) -> Seq<Card>
    decreases cols.len(),
{
    if cols.len() == 0 {
        Seq::empty()
    } else {
        cols_flat(cols.drop_last()) + cols.last().cards@
    }
}

/// The cards of a grid, concatenated row by row.
pub open spec fn rows_flat(rows: Seq<GridRow>) -> Seq<Card>
    decreases rows.len(),
{
    if rows.len() == 0 {
        Seq::empty()
    } else {
        rows_flat(rows.drop_last()) + cols_flat(rows.last().columns@)
    }
}

/// All cards of a dashboard in flat order.
pub open spec fn flat_cards(d: Dashboard) -> Seq<Card> {
    match d.layout {
        DashboardLayout::Free { cards, .. } => cards@,
        DashboardLayout::Grid { rows } => rows_flat(rows@),
    }
}

pub open spec fn valid_col(rows: Seq<GridRow>, r: int, c: int) -> bool {
    0 <= r < rows.len() && 0 <= c < rows[r].columns@.len()
}

pub open spec fn col_len(rows: Seq<GridRow>, r: int, c: int) -> int {
    rows[r].columns@[c].cards@.len() as int
}

/// Flat index of the first card of column `c` of row `r`.
pub open spec fn col_start(rows: Seq<GridRow>, r: int, c: int) -> int {
    rows_flat(rows.take(r)).len() + cols_flat(rows[r].columns@.take(c)).len() as int
}

/// `f` is the flat index of card `p` of column `c` of row `r`.
pub open spec fn is_loc(rows: Seq<GridRow>, f: int, r: int, c: int, p: int) -> bool {
    valid_col(rows, r, c) && 0 <= p < col_len(rows, r, c) && col_start(rows, r, c) + p == f
}

/// The (row, column, position) of flat index `f`, if a card has that index.
pub open spec fn locate(rows: Seq<GridRow>, f: int) -> Option<(int, int, int)> {
    if exists|r: int, c: int, p: int| is_loc(rows, f, r, c, p) {
        let (r, c, p) = choose|r: int, c: int, p: int| is_loc(rows, f, r, c, p);
        Some((r, c, p))
    } else {
        None
    }
}

pub proof fn lemma_cols_take_step(cols: Seq<GridColumn>, c: int)
    requires
        0 <= c < cols.len(),
    ensures
        cols_flat(cols.take(c + 1)) == cols_flat(cols.take(c)) + cols[c].cards@,
{
    assert(cols.take(c + 1).drop_last() =~= cols.take(c));
}

pub proof fn lemma_rows_take_step(rows: Seq<GridRow>, r: int)
    requires
        0 <= r < rows.len(),
    ensures
        rows_flat(rows.take(r + 1)) == rows_flat(rows.take(r)) + cols_flat(rows[r].columns@),
{
    assert(rows.take(r + 1).drop_last() =~= rows.take(r));
}

pub proof fn lemma_cols_take_full(cols: Seq<GridColumn>)
    ensures
        cols.take(cols.len() as int) == cols,
{
    assert(cols.take(cols.len() as int) =~= cols);
}

pub proof fn lemma_rows_take_full(rows: Seq<GridRow>)
    ensures
        rows.take(rows.len() as int) == rows,
{
    assert(rows.take(rows.len() as int) =~= rows);
}

pub proof fn lemma_cols_concat(a: Seq<GridColumn>, b: Seq<GridColumn>)
    ensures
        cols_flat(a + b) == cols_flat(a) + cols_flat(b),
    decreases b.len(),
{
    if b.len() == 0 {
        assert(a + b =~= a);
        assert(cols_flat(a) + cols_flat(b) =~= cols_flat(a));
    } else {
        lemma_cols_concat(a, b.drop_last());
        assert((a + b).drop_last() =~= a + b.drop_last());
        assert((a + b).last() == b.last());
        assert(cols_flat(a + b) == cols_flat(a + b.drop_last()) + b.last().cards@);
        assert(cols_flat(a) + cols_flat(b) =~= cols_flat(a) + cols_flat(b.drop_last())
            + b.last().cards@);
    }
}

pub proof fn lemma_rows_concat(a: Seq<GridRow>, b: Seq<GridRow>)
    ensures
        rows_flat(a + b) == rows_flat(a) + rows_flat(b),
    decreases b.len(),
{
    if b.len() == 0 {
        assert(a + b =~= a);
        assert(rows_flat(a) + rows_flat(b) =~= rows_flat(a));
    } else {
        lemma_rows_concat(a, b.drop_last());
        assert((a + b).drop_last() =~= a + b.drop_last());
        assert((a + b).last() == b.last());
        assert(rows_flat(a) + rows_flat(b) =~= rows_flat(a) + rows_flat(b.drop_last())
            + cols_flat(b.last().columns@));
    }
}

pub proof fn lemma_cols_take_mono(cols: Seq<GridColumn>, a: int, b: int)
    requires
        0 <= a <= b <= cols.len(),
    ensures
        cols_flat(cols.take(a)).len() <= cols_flat(cols.take(b)).len(),
    decreases b - a,
{
    if a < b {
        lemma_cols_take_mono(cols, a, b - 1);
        lemma_cols_take_step(cols, b - 1);
    }
}

pub proof fn lemma_rows_take_mono(rows: Seq<GridRow>, a: int, b: int)
    requires
        0 <= a <= b <= rows.len(),
    ensures
        rows_flat(rows.take(a)).len() <= rows_flat(rows.take(b)).len(),
    decreases b - a,
{
    if a < b {
        lemma_rows_take_mono(rows, a, b - 1);
        lemma_rows_take_step(rows, b - 1);
    }
}

/// The end of a column's range lies before the start of any later column.
pub proof fn lemma_col_before(rows: Seq<GridRow>, r: int, c: int, r2: int, c2: int)
    requires
        valid_col(rows, r, c),
        valid_col(rows, r2, c2),
        r < r2 || (r == r2 && c < c2),
    ensures
        col_start(rows, r, c) + col_len(rows, r, c) <= col_start(rows, r2, c2),
{
    let cols = rows[r].columns@;
    lemma_cols_take_step(cols, c);
    if r == r2 {
        lemma_cols_take_mono(cols, c + 1, c2);
    } else {
        lemma_cols_take_mono(cols, c + 1, cols.len() as int);
        lemma_cols_take_full(cols);
        lemma_rows_take_step(rows, r);
        lemma_rows_take_mono(rows, r + 1, r2);
    }
}

/// The end of any column's range lies within the grid's card count.
pub proof fn lemma_col_within(rows: Seq<GridRow>, r: int, c: int)
    requires
        valid_col(rows, r, c),
    ensures
        0 <= col_start(rows, r, c),
        col_start(rows, r, c) + col_len(rows, r, c) <= rows_flat(rows).len(),
{
    let cols = rows[r].columns@;
    lemma_cols_take_step(cols, c);
    lemma_cols_take_mono(cols, c + 1, cols.len() as int);
    lemma_cols_take_full(cols);
    lemma_rows_take_step(rows, r);
    lemma_rows_take_mono(rows, r + 1, rows.len() as int);
    lemma_rows_take_full(rows);
}

/// A flat index names at most one (row, column, position).
pub proof fn lemma_loc_unique(rows: Seq<GridRow>, f: int, r: int, c: int, p: int, r2: int, c2: int, p2: int)
    requires
        is_loc(rows, f, r, c, p),
        is_loc(rows, f, r2, c2, p2),
    ensures
        r == r2 && c == c2 && p == p2,
{
    if r < r2 || (r == r2 && c < c2) {
        lemma_col_before(rows, r, c, r2, c2);
    } else if r2 < r || (r == r2 && c2 < c) {
        lemma_col_before(rows, r2, c2, r, c);
    }
}

/// When `(r, c, p)` is the location of `f`, `locate` finds exactly it.
pub proof fn lemma_locate_is(rows: Seq<GridRow>, f: int, r: int, c: int, p: int)
    requires
        is_loc(rows, f, r, c, p),
    ensures
        locate(rows, f) == Some((r, c, p)),
{
    let (r2, c2, p2) = choose|r2: int, c2: int, p2: int| is_loc(rows, f, r2, c2, p2);
    lemma_loc_unique(rows, f, r, c, p, r2, c2, p2);
}

/// An index past every column has no location.
pub proof fn lemma_locate_none(rows: Seq<GridRow>, f: int)
    requires
        f >= rows_flat(rows).len() || f < 0,
    ensures
        locate(rows, f) is None,
{
    if exists|r: int, c: int, p: int| is_loc(rows, f, r, c, p) {
        let (r, c, p) = choose|r: int, c: int, p: int| is_loc(rows, f, r, c, p);
        lemma_col_within(rows, r, c);
    }
}

/// The card at a located flat index is the card at its grid position.
pub proof fn lemma_loc_card(rows: Seq<GridRow>, f: int, r: int, c: int, p: int)
    requires
        is_loc(rows, f, r, c, p),
    ensures
        0 <= f < rows_flat(rows).len(),
        rows_flat(rows)[f] == rows[r].columns@[c].cards@[p],
{
    lemma_col_within(rows, r, c);
    let cols = rows[r].columns@;
    lemma_rows_concat(rows.take(r), rows.skip(r));
    assert(rows =~= rows.take(r) + rows.skip(r));
    let rest = rows.skip(r);
    assert(rest =~= seq![rows[r]] + rest.skip(1));
    lemma_rows_concat(seq![rows[r]], rest.skip(1));
    assert(seq![rows[r]].drop_last() =~= Seq::<GridRow>::empty());
    assert(seq![rows[r]].last() == rows[r]);
    assert(rows_flat(Seq::<GridRow>::empty()) == Seq::<Card>::empty());
    assert(rows_flat(seq![rows[r]]) =~= cols_flat(cols));
    lemma_cols_concat(cols.take(c), cols.skip(c));
    assert(cols =~= cols.take(c) + cols.skip(c));
    let crest = cols.skip(c);
    assert(crest =~= seq![cols[c]] + crest.skip(1));
    lemma_cols_concat(seq![cols[c]], crest.skip(1));
    assert(seq![cols[c]].drop_last() =~= Seq::<GridColumn>::empty());
    assert(seq![cols[c]].last() == cols[c]);
    assert(cols_flat(Seq::<GridColumn>::empty()) == Seq::<Card>::empty());
    assert(cols_flat(seq![cols[c]]) =~= cols[c].cards@);
}


/// The flat order of a grid, cut around one column.
pub proof fn lemma_split(rows: Seq<GridRow>, r: int, c: int)
    requires
        valid_col(rows, r, c),
    ensures
        rows_flat(rows) == rows_flat(rows.take(r)) + cols_flat(rows[r].columns@.take(c))
            + rows[r].columns@[c].cards@ + cols_flat(rows[r].columns@.skip(c + 1)) + rows_flat(
            rows.skip(r + 1),
        ),
{
    let cols = rows[r].columns@;
    lemma_rows_concat(rows.take(r), rows.skip(r));
    assert(rows =~= rows.take(r) + rows.skip(r));
    let rest = rows.skip(r);
    assert(rest =~= seq![rows[r]] + rows.skip(r + 1));
    lemma_rows_concat(seq![rows[r]], rows.skip(r + 1));
    assert(seq![rows[r]].drop_last() =~= Seq::<GridRow>::empty());
    assert(seq![rows[r]].last() == rows[r]);
    assert(rows_flat(Seq::<GridRow>::empty()) == Seq::<Card>::empty());
    assert(rows_flat(seq![rows[r]]) =~= cols_flat(cols));
    lemma_cols_concat(cols.take(c), cols.skip(c));
    assert(cols =~= cols.take(c) + cols.skip(c));
    let crest = cols.skip(c);
    assert(crest =~= seq![cols[c]] + cols.skip(c + 1));
    lemma_cols_concat(seq![cols[c]], cols.skip(c + 1));
    assert(seq![cols[c]].drop_last() =~= Seq::<GridColumn>::empty());
    assert(seq![cols[c]].last() == cols[c]);
    assert(cols_flat(Seq::<GridColumn>::empty()) == Seq::<Card>::empty());
    assert(cols_flat(seq![cols[c]]) =~= cols[c].cards@);
    assert(rows_flat(rows) =~= rows_flat(rows.take(r)) + cols_flat(rows[r].columns@.take(c))
        + rows[r].columns@[c].cards@ + cols_flat(rows[r].columns@.skip(c + 1)) + rows_flat(
        rows.skip(r + 1),
    ));
}

/// `new` is `old` with only the cards of column `c` of row `r` replaced by `cards`.
pub open spec fn col_replaced(old: Seq<GridRow>, new: Seq<GridRow>, r: int, c: int, cards: Seq<Card>) -> bool {
    &&& valid_col(old, r, c)
    &&& new.len() == old.len()
    &&& forall|i: int| 0 <= i < old.len() && i != r ==> #[trigger] new[i] == old[i]
    &&& new[r].height == old[r].height
    &&& new[r].fill_height == old[r].fill_height
    &&& new[r].columns@.len() == old[r].columns@.len()
    &&& forall|j: int| 0 <= j < old[r].columns@.len() && j != c ==> #[trigger] new[r].columns@[j] == old[r].columns@[j]
    &&& new[r].columns@[c].fill_height == old[r].columns@[c].fill_height
    &&& new[r].columns@[c].cards@ == cards
}

/// Replacing one column's cards replaces exactly that slice of the flat order.
pub proof fn lemma_col_replaced(old: Seq<GridRow>, new: Seq<GridRow>, r: int, c: int, cards: Seq<Card>)
    requires
        col_replaced(old, new, r, c, cards),
    ensures
        rows_flat(new) == rows_flat(old.take(r)) + cols_flat(old[r].columns@.take(c)) + cards
            + cols_flat(old[r].columns@.skip(c + 1)) + rows_flat(old.skip(r + 1)),
        col_start(new, r, c) == col_start(old, r, c),
{
    lemma_split(new, r, c);
    assert(new.take(r) =~= old.take(r));
    assert(new.skip(r + 1) =~= old.skip(r + 1));
    assert(new[r].columns@.take(c) =~= old[r].columns@.take(c));
    assert(new[r].columns@.skip(c + 1) =~= old[r].columns@.skip(c + 1));
}

} // verus!
