//! Queries and structural edits on dashboards, stated over the flat card order.
use vstd::prelude::*;

use crate::dashboard::{Card, CardId, Dashboard, DashboardLayout, Grid, GridColumn, GridRow, NavDir, RowHeight};
use crate::flat::{
    col_len, col_start, cols_flat, flat_cards, is_loc, lemma_col_before, lemma_col_within,
    lemma_cols_take_step, lemma_loc_card, lemma_locate_is, lemma_locate_none,
    lemma_rows_take_step, locate, rows_flat, valid_col, col_replaced, lemma_col_replaced, lemma_split,
};

verus! {

pub open spec fn min_int(a: int, b: int) -> int {
    if a <= b {
        a
    } else {
        b
    }
}

/// The column a horizontal move lands in, before checking that it holds cards.
pub open spec fn side_target(rows: Seq<GridRow>, r: int, c: int, dir: NavDir) -> Option<(int, int)> {
    match dir {
        NavDir::Left => if c > 0 {
            Some((r, c - 1))
        } else if r > 0 {
            if rows[r - 1].columns@.len() == 0 {
                None
            } else {
                Some((r - 1, rows[r - 1].columns@.len() - 1))
            }
        } else {
            None
        },
        NavDir::Right => if c + 1 < rows[r].columns@.len() {
            Some((r, c + 1))
        } else if r + 1 < rows.len() {
            Some((r + 1, 0))
        } else {
            None
        },
        _ => None,
    }
}

/// Flat index of the card a grid navigation step reaches from `f`.
/// Up/Down stay in the column; Left/Right go to the neighbouring column
/// (wrapping across row ends) at the same position, clamped to its last card.
pub open spec fn neighbor_spec(rows: Seq<GridRow>, f: int, dir: NavDir) -> Option<int> {
    match locate(rows, f) {
        None => None,
        Some((r, c, p)) => match dir {
            NavDir::Up => if p == 0 {
                None
            } else {
                Some(f - 1)
            },
            NavDir::Down => if p + 1 >= col_len(rows, r, c) {
                None
            } else {
                Some(f + 1)
            },
            _ => match side_target(rows, r, c, dir) {
                None => None,
                Some((tr, tc)) => if !valid_col(rows, tr, tc) || col_len(rows, tr, tc) == 0 {
                    None
                } else {
                    Some(col_start(rows, tr, tc) + min_int(p, col_len(rows, tr, tc) - 1))
                },
            },
        },
    }
}

/// The flat card count fits in a `usize` (it always does for cards held in memory).
pub open spec fn count_fits(d: Dashboard) -> bool {
    flat_cards(d).len() <= usize::MAX
}

/// Flat index of the first card of column `c` of row `r`.
fn col_start_of(rows: &Vec<GridRow>, r: usize, c: usize) -> (s: usize)
    requires
        valid_col(rows@, r as int, c as int),
        rows_flat(rows@).len() <= usize::MAX,
    ensures
        s == col_start(rows@, r as int, c as int),
{
    proof {
        lemma_col_within(rows@, r as int, c as int);
    }
    let mut s: usize = 0;
    let mut i: usize = 0;
    while i < r
        invariant
            i <= r,
            valid_col(rows@, r as int, c as int),
            col_start(rows@, r as int, c as int) <= usize::MAX,
            s == rows_flat(rows@.take(i as int)).len(),
        decreases r - i,
    {
        let row = &rows[i];
        let mut j: usize = 0;
        while j < row.columns.len()
            invariant
                i < r,
                j <= row.columns@.len(),
                row == rows@[i as int],
                valid_col(rows@, r as int, c as int),
                col_start(rows@, r as int, c as int) <= usize::MAX,
                s == rows_flat(rows@.take(i as int)).len() + cols_flat(row.columns@.take(j as int)).len(),
            decreases row.columns.len() - j,
        {
            proof {
                lemma_cols_take_step(row.columns@, j as int);
                crate::flat::lemma_cols_take_mono(row.columns@, j as int + 1, row.columns@.len() as int);
                crate::flat::lemma_cols_take_full(row.columns@);
                lemma_rows_take_step(rows@, i as int);
                crate::flat::lemma_rows_take_mono(rows@, i as int + 1, r as int);
            }
            s = s + row.columns[j].cards.len();
            j = j + 1;
        }
        proof {
            crate::flat::lemma_cols_take_full(row.columns@);
            lemma_rows_take_step(rows@, i as int);
        }
        i = i + 1;
    }
    let cols = &rows[r].columns;
    let mut j: usize = 0;
    while j < c
        invariant
            j <= c,
            cols == rows@[r as int].columns,
            valid_col(rows@, r as int, c as int),
            col_start(rows@, r as int, c as int) <= usize::MAX,
            s == rows_flat(rows@.take(r as int)).len() + cols_flat(cols@.take(j as int)).len(),
        decreases c - j,
    {
        proof {
            lemma_cols_take_step(cols@, j as int);
            crate::flat::lemma_cols_take_mono(cols@, j as int + 1, c as int);
        }
        s = s + cols[j].cards.len();
        j = j + 1;
    }
    s
}

/// Locate a flat index in a grid: the (row, column, position) whose card has it.
fn locate_in_rows(rows: &Vec<GridRow>, flat_idx: usize) -> (res: Option<(usize, usize, usize)>)
    ensures
        match res {
            Some((r, c, p)) => is_loc(rows@, flat_idx as int, r as int, c as int, p as int),
            None => flat_idx >= rows_flat(rows@).len(),
        },
{
    let mut f: usize = 0;
    let mut ri: usize = 0;
    while ri < rows.len()
        invariant
            ri <= rows@.len(),
            f == rows_flat(rows@.take(ri as int)).len(),
            flat_idx >= f,
        decreases rows.len() - ri,
    {
        let row = &rows[ri];
        let mut ci: usize = 0;
        while ci < row.columns.len()
            invariant
                ri < rows@.len(),
                row == rows@[ri as int],
                ci <= row.columns@.len(),
                f == rows_flat(rows@.take(ri as int)).len() + cols_flat(row.columns@.take(ci as int)).len(),
                flat_idx >= f,
            decreases row.columns.len() - ci,
        {
            proof {
                lemma_cols_take_step(row.columns@, ci as int);
            }
            let n = row.columns[ci].cards.len();
            if flat_idx - f < n {
                return Some((ri, ci, flat_idx - f));
            }
            f = f + n;
            ci = ci + 1;
        }
        proof {
            crate::flat::lemma_cols_take_full(row.columns@);
            lemma_rows_take_step(rows@, ri as int);
        }
        ri = ri + 1;
    }
    proof {
        crate::flat::lemma_rows_take_full(rows@);
    }
    None
}


/// `s` with the adjacent elements at `lo` and `lo + 1` exchanged.
pub open spec fn swap_adj<T>(s: Seq<T>, lo: int) -> Seq<T> {
    s.update(lo, s[lo + 1]).update(lo + 1, s[lo])
}

fn swap_adjacent<T>(v: &mut Vec<T>, lo: usize)
    requires
        lo + 1 < old(v)@.len(),
    ensures
        final(v)@ == swap_adj(old(v)@, lo as int),
{
    let n = v.len();
    let x = v.remove(lo + 1);
    v.insert(lo, x);
    assert(v@ =~= swap_adj(old(v)@, lo as int));
}

/// The partner index of an adjacent move: one before (`toward_start`) or one after.
pub open spec fn partner(i: int, toward_start: bool) -> int {
    if toward_start {
        i - 1
    } else {
        i + 1
    }
}

/// An adjacent move from `i` toward the start or the end stays inside `0..len`.
pub open spec fn move_ok(i: int, toward_start: bool, len: int) -> bool {
    if toward_start {
        0 < i && i - 1 < len
    } else {
        i + 1 <= usize::MAX && i + 1 < len
    }
}

/// `s` after moving element `i` one step toward the start or the end.
pub open spec fn moved<T>(s: Seq<T>, i: int, toward_start: bool) -> Seq<T> {
    if toward_start {
        swap_adj(s, i - 1)
    } else {
        swap_adj(s, i)
    }
}

/// A move that cannot be made (it would index out of bounds): toward the
/// start from one past the end.
pub open spec fn move_panics(i: int, toward_start: bool, len: int) -> bool {
    toward_start && i > 0 && i == len
}

fn move_check(i: usize, toward_start: bool, len: usize) -> (r: bool)
    ensures
        r == move_ok(i as int, toward_start, len as int),
{
    if toward_start {
        i > 0 && i - 1 < len
    } else {
        i < usize::MAX && i + 1 < len
    }
}

fn do_move<T>(v: &mut Vec<T>, i: usize, toward_start: bool)
    requires
        move_ok(i as int, toward_start, old(v)@.len() as int),
        !move_panics(i as int, toward_start, old(v)@.len() as int),
    ensures
        final(v)@ == moved(old(v)@, i as int, toward_start),
{
    if toward_start {
        swap_adjacent(v, i - 1);
    } else {
        swap_adjacent(v, i);
    }
}

/// A freshly added grid row: the given height, no fill default, `n` empty columns.
pub open spec fn is_new_row(row: GridRow, height: RowHeight, n: int) -> bool {
    &&& row.height == height
    &&& row.fill_height is None
    &&& row.columns@.len() == n
    &&& forall|j: int| 0 <= j < n ==> (#[trigger] row.columns@[j]).fill_height is None
        && row.columns@[j].cards@.len() == 0
}

/// The rows of a grid layout (empty for a free layout).
pub open spec fn grid_rows(d: Dashboard) -> Seq<GridRow> {
    match d.layout {
        DashboardLayout::Grid { rows } => rows@,
        DashboardLayout::Free { .. } => Seq::empty(),
    }
}

pub open spec fn is_grid(d: Dashboard) -> bool {
    d.layout is Grid
}


/// `i` is the first flat index whose card carries `id`.
pub open spec fn first_with_id(s: Seq<Card>, id: CardId, i: int) -> bool {
    0 <= i < s.len() && s[i].id == id && forall|j: int| 0 <= j < i ==> (#[trigger] s[j]).id != id
}

pub open spec fn has_id(s: Seq<Card>, id: CardId) -> bool {
    exists|i: int| 0 <= i < s.len() && (#[trigger] s[i]).id == id
}

/// The largest card id value, 0 for no cards.
pub open spec fn max_id(s: Seq<Card>) -> u64
    decreases s.len(),
{
    if s.len() == 0 {
        0
    } else {
        let m = max_id(s.drop_last());
        if s.last().id.0 > m {
            s.last().id.0
        } else {
            m
        }
    }
}

pub proof fn lemma_max_id_bounds(s: Seq<Card>)
    ensures
        forall|i: int| 0 <= i < s.len() ==> (#[trigger] s[i]).id.0 <= max_id(s),
    decreases s.len(),
{
    if s.len() > 0 {
        lemma_max_id_bounds(s.drop_last());
        assert forall|i: int| 0 <= i < s.len() implies (#[trigger] s[i]).id.0 <= max_id(s) by {
            if i < s.len() - 1 {
                assert(s[i] == s.drop_last()[i]);
            }
        }
    }
}


/// Same name, same free grid, and in a grid layout the same rows and columns
/// (heights, fill settings, card counts); only cards' contents may differ.
pub open spec fn same_shape(a: Dashboard, b: Dashboard) -> bool {
    let ra = grid_rows(a);
    let rb = grid_rows(b);
    &&& a.name == b.name
    &&& a.free_grid_spec() == b.free_grid_spec()
    &&& is_grid(a) == is_grid(b)
    &&& ra.len() == rb.len()
    &&& forall|r: int| 0 <= r < ra.len() ==> {
        &&& (#[trigger] ra[r]).height == rb[r].height
        &&& ra[r].fill_height == rb[r].fill_height
        &&& ra[r].columns@.len() == rb[r].columns@.len()
        &&& forall|c: int| 0 <= c < ra[r].columns@.len() ==> (#[trigger] ra[r].columns@[c]).fill_height
            == rb[r].columns@[c].fill_height && ra[r].columns@[c].cards@.len() == rb[r].columns@[c].cards@.len()
    }
}

pub proof fn lemma_col_replaced_shape(a: Dashboard, b: Dashboard, r: int, c: int, cards: Seq<Card>)
    requires
        a.name == b.name,
        is_grid(a),
        is_grid(b),
        col_replaced(grid_rows(a), grid_rows(b), r, c, cards),
        cards.len() == grid_rows(a)[r].columns@[c].cards@.len(),
    ensures
        same_shape(a, b),
{
    let ra = grid_rows(a);
    let rb = grid_rows(b);
    assert forall|i: int| 0 <= i < ra.len() implies {
        &&& (#[trigger] ra[i]).height == rb[i].height
        &&& ra[i].fill_height == rb[i].fill_height
        &&& ra[i].columns@.len() == rb[i].columns@.len()
        &&& forall|j: int| 0 <= j < ra[i].columns@.len() ==> (#[trigger] ra[i].columns@[j]).fill_height
            == rb[i].columns@[j].fill_height && ra[i].columns@[j].cards@.len() == rb[i].columns@[j].cards@.len()
    } by {
        if i != r {
            assert(rb[i] == ra[i]);
        } else {
            assert forall|j: int| 0 <= j < ra[i].columns@.len() implies (#[trigger] ra[i].columns@[j]).fill_height
                == rb[i].columns@[j].fill_height && ra[i].columns@[j].cards@.len() == rb[i].columns@[j].cards@.len() by {
                if j != c {
                    assert(rb[i].columns@[j] == ra[i].columns@[j]);
                }
            }
        }
    }
}

/// `e` is `d` after taking out the card at flat index `flat_idx` (`r`, if there is one).
pub open spec fn card_removed(d: Dashboard, e: Dashboard, flat_idx: usize, r: Option<Card>) -> bool {
    &&& e.name == d.name
    &&& match r {
        Some(c) => {
            &&& flat_idx < flat_cards(d).len()
            &&& c == flat_cards(d)[flat_idx as int]
            &&& flat_cards(e) == flat_cards(d).remove(flat_idx as int)
        },
        None => flat_idx >= flat_cards(d).len() && e == d,
    }
    &&& match (d.layout, e.layout) {
        (DashboardLayout::Free { grid: g1, .. }, DashboardLayout::Free { grid: g2, .. }) => g1 == g2,
        (DashboardLayout::Grid { rows: r1 }, DashboardLayout::Grid { rows: r2 }) => match r {
            Some(_) => {
                let (a, b, p) = locate(r1@, flat_idx as int)->0;
                col_replaced(r1@, r2@, a, b, r1@[a].columns@[b].cards@.remove(p))
            },
            None => r1 == r2,
        },
        _ => false,
    }
}

/// `e` is free dashboard `d` with `card` appended.
pub open spec fn free_card_pushed(d: Dashboard, e: Dashboard, card: Card) -> bool {
    &&& e.name == d.name
    &&& match (d.layout, e.layout) {
        (DashboardLayout::Free { grid: g1, cards: c1 }, DashboardLayout::Free { grid: g2, cards: c2 }) =>
            g1 == g2 && c2@ == c1@.push(card),
        _ => false,
    }
}

/// `e` is grid dashboard `d` with `card` appended to a column (unchanged when there is no such column).
pub open spec fn grid_card_inserted(d: Dashboard, e: Dashboard, row_idx: usize, col_idx: usize, card: Card) -> bool {
    &&& e.name == d.name
    &&& e.layout is Grid
    &&& if valid_col(grid_rows(d), row_idx as int, col_idx as int) {
        col_replaced(grid_rows(d), grid_rows(e), row_idx as int, col_idx as int,
            grid_rows(d)[row_idx as int].columns@[col_idx as int].cards@.push(card))
    } else {
        e == d
    }
}

/// `e` is the dashboard after appending a row of `max(n_cols, 1)` empty columns (a free dashboard stays).
pub open spec fn row_added(d: Dashboard, e: Dashboard, height: RowHeight, n_cols: usize) -> bool {
    &&& e.name == d.name
    &&& is_grid(e) == is_grid(d)
    &&& !is_grid(d) ==> e == d
    &&& is_grid(d) ==> {
        let n = if n_cols == 0 { 1 } else { n_cols as int };
        &&& grid_rows(e).len() == grid_rows(d).len() + 1
        &&& grid_rows(e).drop_last() == grid_rows(d)
        &&& is_new_row(grid_rows(e).last(), height, n)
    }
}

/// `e` is the dashboard after removing row `row_idx` (`r` says whether it was removed).
pub open spec fn row_removed(d: Dashboard, e: Dashboard, row_idx: usize, r: bool) -> bool {
    &&& e.name == d.name
    &&& r == (is_grid(d) && grid_rows(d).len() > 1 && row_idx < grid_rows(d).len())
    &&& r ==> is_grid(e) && grid_rows(e) == grid_rows(d).remove(row_idx as int)
    &&& !r ==> e == d
}

/// `e` is the dashboard after swapping row `row_idx` with the one above (`up`) or below.
pub open spec fn row_moved(d: Dashboard, e: Dashboard, row_idx: usize, up: bool, r: bool) -> bool {
    &&& e.name == d.name
    &&& r == (is_grid(d) && move_ok(row_idx as int, up, grid_rows(d).len() as int))
    &&& r ==> is_grid(e) && grid_rows(e) == moved(grid_rows(d), row_idx as int, up)
    &&& !r ==> e == d
}

/// `e` is the dashboard after appending an empty column to row `row_idx`.
pub open spec fn column_added(d: Dashboard, e: Dashboard, row_idx: usize, r: bool) -> bool {
    &&& e.name == d.name
    &&& r == (is_grid(d) && row_idx < grid_rows(d).len())
    &&& !r ==> e == d
    &&& r ==> {
        let old_rows = grid_rows(d);
        let new_rows = grid_rows(e);
        &&& is_grid(e)
        &&& new_rows.len() == old_rows.len()
        &&& forall|i: int| 0 <= i < old_rows.len() && i != row_idx ==> #[trigger] new_rows[i] == old_rows[i]
        &&& new_rows[row_idx as int].height == old_rows[row_idx as int].height
        &&& new_rows[row_idx as int].fill_height == old_rows[row_idx as int].fill_height
        &&& new_rows[row_idx as int].columns@.drop_last() == old_rows[row_idx as int].columns@
        &&& new_rows[row_idx as int].columns@.len() == old_rows[row_idx as int].columns@.len() + 1
        &&& new_rows[row_idx as int].columns@.last().fill_height is None
        &&& new_rows[row_idx as int].columns@.last().cards@.len() == 0
    }
}

/// `e` is the dashboard after removing a column.
pub open spec fn column_removed(d: Dashboard, e: Dashboard, row_idx: usize, col_idx: usize, r: bool) -> bool {
    &&& e.name == d.name
    &&& r == (is_grid(d) && row_idx < grid_rows(d).len()
        && grid_rows(d)[row_idx as int].columns@.len() > 1
        && col_idx < grid_rows(d)[row_idx as int].columns@.len())
    &&& !r ==> e == d
    &&& r ==> {
        let old_rows = grid_rows(d);
        let new_rows = grid_rows(e);
        &&& is_grid(e)
        &&& new_rows.len() == old_rows.len()
        &&& forall|i: int| 0 <= i < old_rows.len() && i != row_idx ==> #[trigger] new_rows[i] == old_rows[i]
        &&& new_rows[row_idx as int].height == old_rows[row_idx as int].height
        &&& new_rows[row_idx as int].fill_height == old_rows[row_idx as int].fill_height
        &&& new_rows[row_idx as int].columns@ == old_rows[row_idx as int].columns@.remove(col_idx as int)
    }
}

/// `e` is the dashboard after swapping a column with a neighbour.
pub open spec fn column_moved(d: Dashboard, e: Dashboard, row_idx: usize, col_idx: usize, left: bool, r: bool) -> bool {
    &&& e.name == d.name
    &&& r == (is_grid(d) && row_idx < grid_rows(d).len()
        && move_ok(col_idx as int, left, grid_rows(d)[row_idx as int].columns@.len() as int))
    &&& !r ==> e == d
    &&& r ==> {
        let old_rows = grid_rows(d);
        let new_rows = grid_rows(e);
        &&& is_grid(e)
        &&& new_rows.len() == old_rows.len()
        &&& forall|i: int| 0 <= i < old_rows.len() && i != row_idx ==> #[trigger] new_rows[i] == old_rows[i]
        &&& new_rows[row_idx as int].height == old_rows[row_idx as int].height
        &&& new_rows[row_idx as int].fill_height == old_rows[row_idx as int].fill_height
        &&& new_rows[row_idx as int].columns@ == moved(old_rows[row_idx as int].columns@, col_idx as int, left)
    }
}

/// `e` is the dashboard after swapping a card with a neighbour in its column.
pub open spec fn card_moved_in_column(d: Dashboard, e: Dashboard, row_idx: usize, col_idx: usize, pos: usize, up: bool, r: bool) -> bool {
    &&& e.name == d.name
    &&& r == (is_grid(d) && valid_col(grid_rows(d), row_idx as int, col_idx as int)
        && move_ok(pos as int, up, col_len(grid_rows(d), row_idx as int, col_idx as int)))
    &&& !r ==> e == d
    &&& r ==> is_grid(e) && col_replaced(grid_rows(d), grid_rows(e),
        row_idx as int, col_idx as int,
        moved(grid_rows(d)[row_idx as int].columns@[col_idx as int].cards@, pos as int, up))
}

/// `e` is the dashboard after setting a row height.
pub open spec fn row_height_set(d: Dashboard, e: Dashboard, row_idx: usize, height: RowHeight, r: bool) -> bool {
    &&& e.name == d.name
    &&& r == (is_grid(d) && row_idx < grid_rows(d).len())
    &&& !r ==> e == d
    &&& r ==> {
        let old_rows = grid_rows(d);
        let new_rows = grid_rows(e);
        &&& is_grid(e)
        &&& new_rows.len() == old_rows.len()
        &&& forall|i: int| 0 <= i < old_rows.len() && i != row_idx ==> #[trigger] new_rows[i] == old_rows[i]
        &&& new_rows[row_idx as int].height == height
        &&& new_rows[row_idx as int].fill_height == old_rows[row_idx as int].fill_height
        &&& new_rows[row_idx as int].columns == old_rows[row_idx as int].columns
    }
}

/// `e` is the dashboard after flipping a row's `fill_height` default.
pub open spec fn row_fill_toggled(d: Dashboard, e: Dashboard, row_idx: usize, r: bool) -> bool {
    &&& e.name == d.name
    &&& r == (is_grid(d) && row_idx < grid_rows(d).len())
    &&& !r ==> e == d
    &&& r ==> {
        let old_rows = grid_rows(d);
        let new_rows = grid_rows(e);
        &&& is_grid(e)
        &&& new_rows.len() == old_rows.len()
        &&& forall|i: int| 0 <= i < old_rows.len() && i != row_idx ==> #[trigger] new_rows[i] == old_rows[i]
        &&& new_rows[row_idx as int].height == old_rows[row_idx as int].height
        &&& new_rows[row_idx as int].fill_height == Some(!(old_rows[row_idx as int].fill_height == Some(true)))
        &&& new_rows[row_idx as int].columns == old_rows[row_idx as int].columns
    }
}

/// `e` is the dashboard after flipping a column's `fill_height`.
pub open spec fn column_fill_toggled(d: Dashboard, e: Dashboard, row_idx: usize, col_idx: usize, r: bool) -> bool {
    &&& e.name == d.name
    &&& r == (is_grid(d) && valid_col(grid_rows(d), row_idx as int, col_idx as int))
    &&& !r ==> e == d
    &&& r ==> {
        let old_rows = grid_rows(d);
        let new_rows = grid_rows(e);
        let oc = old_rows[row_idx as int].columns@;
        let nc = new_rows[row_idx as int].columns@;
        &&& is_grid(e)
        &&& new_rows.len() == old_rows.len()
        &&& forall|i: int| 0 <= i < old_rows.len() && i != row_idx ==> #[trigger] new_rows[i] == old_rows[i]
        &&& new_rows[row_idx as int].height == old_rows[row_idx as int].height
        &&& new_rows[row_idx as int].fill_height == old_rows[row_idx as int].fill_height
        &&& nc.len() == oc.len()
        &&& forall|j: int| 0 <= j < oc.len() && j != col_idx ==> #[trigger] nc[j] == oc[j]
        &&& nc[col_idx as int].cards == oc[col_idx as int].cards
        &&& nc[col_idx as int].fill_height == Some(!(oc[col_idx as int].fill_height == Some(true)))
    }
}

impl Dashboard {
    pub open spec fn free_grid_spec(self) -> Option<Grid> {
        match self.layout {
            DashboardLayout::Free { grid, .. } => Some(grid),
            DashboardLayout::Grid { .. } => None,
        }
    }

    /// The free-canvas grid, or `None` for a grid-layout dashboard.
    pub fn free_grid(&self) -> (r: Option<Grid>)
        ensures
            r == self.free_grid_spec(),
    {
        match &self.layout {
            DashboardLayout::Free { grid, .. } => Some(*grid),
            DashboardLayout::Grid { .. } => None,
        }
    }

    pub fn is_free(&self) -> (r: bool)
        ensures
            r == (self.layout is Free),
    {
        match &self.layout {
            DashboardLayout::Free { .. } => true,
            DashboardLayout::Grid { .. } => false,
        }
    }

    /// Flat index → (row, column, position) in a grid layout.
    pub fn locate_grid_flat(&self, flat_idx: usize) -> (r: Option<(usize, usize, usize)>)
        ensures
            match self.layout {
                DashboardLayout::Free { .. } => r is None,
                DashboardLayout::Grid { rows } => {
                    &&& (r is Some <==> flat_idx < rows_flat(rows@).len())
                    &&& match r {
                        Some((a, b, c)) => locate(rows@, flat_idx as int) == Some(
                            (a as int, b as int, c as int),
                        ),
                        None => locate(rows@, flat_idx as int) is None,
                    }
                },
            },
    {
        match &self.layout {
            DashboardLayout::Free { .. } => None,
            DashboardLayout::Grid { rows } => {
                let res = locate_in_rows(rows, flat_idx);
                proof {
                    match res {
                        Some((a, b, c)) => {
                            lemma_locate_is(rows@, flat_idx as int, a as int, b as int, c as int);
                            lemma_col_within(rows@, a as int, b as int);
                        },
                        None => lemma_locate_none(rows@, flat_idx as int),
                    }
                }
                res
            },
        }
    }

    /// (row, column, position) → flat index in a grid layout.
    pub fn flat_idx_from_grid(&self, row_idx: usize, col_idx: usize, pos_in_col: usize) -> (r: Option<usize>)
        requires
            count_fits(*self),
        ensures
            match self.layout {
                DashboardLayout::Free { .. } => r is None,
                DashboardLayout::Grid { rows } => {
                    &&& (r is Some <==> valid_col(rows@, row_idx as int, col_idx as int)
                        && pos_in_col < col_len(rows@, row_idx as int, col_idx as int))
                    &&& (r matches Some(f) ==> f == col_start(rows@, row_idx as int, col_idx as int) + pos_in_col)
                },
            },
    {
        match &self.layout {
            DashboardLayout::Free { .. } => None,
            DashboardLayout::Grid { rows } => {
                if row_idx < rows.len() && col_idx < rows[row_idx].columns.len()
                    && pos_in_col < rows[row_idx].columns[col_idx].cards.len() {
                    proof {
                        lemma_col_within(rows@, row_idx as int, col_idx as int);
                    }
                    let s = col_start_of(rows, row_idx, col_idx);
                    Some(s + pos_in_col)
                } else {
                    None
                }
            },
        }
    }

    /// Total number of cards.
    pub fn card_count(&self) -> (r: usize)
        requires
            count_fits(*self),
        ensures
            r == flat_cards(*self).len(),
    {
        match &self.layout {
            DashboardLayout::Free { cards, .. } => cards.len(),
            DashboardLayout::Grid { rows } => {
                let mut f: usize = 0;
                let mut ri: usize = 0;
                while ri < rows.len()
                    invariant
                        ri <= rows@.len(),
                        rows_flat(rows@).len() <= usize::MAX,
                        f == rows_flat(rows@.take(ri as int)).len(),
                    decreases rows.len() - ri,
                {
                    let row = &rows[ri];
                    let mut ci: usize = 0;
                    while ci < row.columns.len()
                        invariant
                            ri < rows@.len(),
                            row == rows@[ri as int],
                            ci <= row.columns@.len(),
                            rows_flat(rows@).len() <= usize::MAX,
                            f == rows_flat(rows@.take(ri as int)).len() + cols_flat(
                                row.columns@.take(ci as int),
                            ).len(),
                        decreases row.columns.len() - ci,
                    {
                        proof {
                            lemma_cols_take_step(row.columns@, ci as int);
                            lemma_col_within(rows@, ri as int, ci as int);
                        }
                        f = f + row.columns[ci].cards.len();
                        ci = ci + 1;
                    }
                    proof {
                        crate::flat::lemma_cols_take_full(row.columns@);
                        lemma_rows_take_step(rows@, ri as int);
                    }
                    ri = ri + 1;
                }
                proof {
                    crate::flat::lemma_rows_take_full(rows@);
                }
                f
            },
        }
    }

    /// The card at a flat index.
    pub fn card(&self, idx: usize) -> (r: Option<&Card>)
        ensures
            match r {
                Some(c) => idx < flat_cards(*self).len() && *c == flat_cards(*self)[idx as int],
                None => idx >= flat_cards(*self).len(),
            },
    {
        match &self.layout {
            DashboardLayout::Free { cards, .. } => {
                if idx < cards.len() {
                    Some(&cards[idx])
                } else {
                    None
                }
            },
            DashboardLayout::Grid { rows } => {
                match locate_in_rows(rows, idx) {
                    Some((a, b, c)) => {
                        proof {
                            lemma_loc_card(rows@, idx as int, a as int, b as int, c as int);
                        }
                        Some(&rows[a].columns[b].cards[c])
                    },
                    None => None,
                }
            },
        }
    }

    /// The flat index of the card a grid navigation step reaches.
    pub fn neighbor(&self, flat_idx: usize, dir: NavDir) -> (r: Option<usize>)
        requires
            count_fits(*self),
        ensures
            match self.layout {
                DashboardLayout::Free { .. } => r is None,
                DashboardLayout::Grid { rows } => match r {
                    Some(n) => neighbor_spec(rows@, flat_idx as int, dir) == Some(n as int),
                    None => neighbor_spec(rows@, flat_idx as int, dir) is None,
                },
            },
    {
        let rows = match &self.layout {
            DashboardLayout::Free { .. } => {
                return None;
            },
            DashboardLayout::Grid { rows } => rows,
        };
        let (ri0, ci0, pos0) = match locate_in_rows(rows, flat_idx) {
            Some(t) => t,
            None => {
                proof {
                    lemma_locate_none(rows@, flat_idx as int);
                }
                return None;
            },
        };
        proof {
            lemma_locate_is(rows@, flat_idx as int, ri0 as int, ci0 as int, pos0 as int);
            lemma_col_within(rows@, ri0 as int, ci0 as int);
            assert(flat_cards(*self) == rows_flat(rows@));
        }
        assert(ri0 < rows.len() && ci0 < rows[ri0 as int].columns.len());
        assert(flat_idx + rows[ri0 as int].columns[ci0 as int].cards.len() - pos0 <= usize::MAX);
        match dir {
            NavDir::Up => {
                if pos0 == 0 {
                    None
                } else {
                    Some(flat_idx - 1)
                }
            },
            NavDir::Down => {
                let col_len = rows[ri0].columns[ci0].cards.len();
                if pos0 + 1 >= col_len {
                    None
                } else {
                    Some(flat_idx + 1)
                }
            },
            NavDir::Left | NavDir::Right => {
                let target: Option<(usize, usize)> = match dir {
                    NavDir::Left => {
                        if ci0 > 0 {
                            Some((ri0, ci0 - 1))
                        } else if ri0 > 0 {
                            let n = rows[ri0 - 1].columns.len();
                            if n == 0 {
                                None
                            } else {
                                Some((ri0 - 1, n - 1))
                            }
                        } else {
                            None
                        }
                    },
                    _ => {
                        if ci0 + 1 < rows[ri0].columns.len() {
                            Some((ri0, ci0 + 1))
                        } else if ri0 + 1 < rows.len() {
                            Some((ri0 + 1, 0))
                        } else {
                            None
                        }
                    },
                };
                match target {
                    None => None,
                    Some((tri, tci)) => {
                        if tci >= rows[tri].columns.len() {
                            return None;
                        }
                        let col_len = rows[tri].columns[tci].cards.len();
                        if col_len == 0 {
                            return None;
                        }
                        proof {
                            lemma_col_within(rows@, tri as int, tci as int);
                        }
                        let start = col_start_of(rows, tri, tci);
                        let p = if pos0 < col_len - 1 {
                            pos0
                        } else {
                            col_len - 1
                        };
                        Some(start + p)
                    },
                }
            },
        }
    }

    /// Remove the card at a flat index, whatever the layout. Empty columns stay.
    pub fn remove_card_at(&mut self, flat_idx: usize) -> (r: Option<Card>)
        ensures
            card_removed(*old(self), *final(self), flat_idx, r),
    {
        match &mut self.layout {
            DashboardLayout::Free { cards, .. } => {
                if flat_idx < cards.len() {
                    Some(cards.remove(flat_idx))
                } else {
                    None
                }
            },
            DashboardLayout::Grid { rows } => {
                let ghost old_rows = rows@;
                match locate_in_rows(rows, flat_idx) {
                    Some((a, b, p)) => {
                        proof {
                            lemma_locate_is(old_rows, flat_idx as int, a as int, b as int, p as int);
                            lemma_loc_card(old_rows, flat_idx as int, a as int, b as int, p as int);
                            lemma_split(old_rows, a as int, b as int);
                        }
                        let card = rows[a].columns[b].cards.remove(p);
                        proof {
                            lemma_col_replaced(old_rows, rows@, a as int, b as int, old_rows[a as int].columns@[b as int].cards@.remove(p as int));
                            assert(rows_flat(rows@) =~= rows_flat(old_rows).remove(flat_idx as int));
                        }
                        Some(card)
                    },
                    None => None,
                }
            },
        }
    }

    /// Remove a free-canvas card by index.
    pub fn remove_card_at_free(&mut self, idx: usize) -> (r: Option<Card>)
        ensures
            match old(self).layout {
                DashboardLayout::Free { grid, cards } => match r {
                    Some(c) => idx < cards@.len() && c == cards@[idx as int] && (final(self).layout
                        matches DashboardLayout::Free { grid: g2, cards: c2 } && g2 == grid && c2@
                        == cards@.remove(idx as int)),
                    None => idx >= cards@.len() && *final(self) == *old(self),
                },
                DashboardLayout::Grid { .. } => r is None && *final(self) == *old(self),
            },
            final(self).name == old(self).name,
    {
        match &mut self.layout {
            DashboardLayout::Free { cards, .. } => {
                if idx < cards.len() {
                    Some(cards.remove(idx))
                } else {
                    None
                }
            },
            DashboardLayout::Grid { .. } => None,
        }
    }

    /// Append a card to a free-canvas dashboard.
    pub fn push_card_free(&mut self, card: Card)
        requires
            old(self).layout is Free,
        ensures
            free_card_pushed(*old(self), *final(self), card),
    {
        match &mut self.layout {
            DashboardLayout::Free { cards, .. } => {
                cards.push(card);
            },
            DashboardLayout::Grid { .. } => {},
        }
    }

    /// Append a card to a column of a grid dashboard; a missing column is left alone.
    pub fn insert_card_grid(&mut self, row_idx: usize, col_idx: usize, card: Card)
        requires
            old(self).layout is Grid,
        ensures
            grid_card_inserted(*old(self), *final(self), row_idx, col_idx, card),
    {
        match &mut self.layout {
            DashboardLayout::Grid { rows } => {
                if row_idx < rows.len() && col_idx < rows[row_idx].columns.len() {
                    rows[row_idx].columns[col_idx].cards.push(card);
                }
            },
            DashboardLayout::Free { .. } => {},
        }
    }

    /// Append a row of `max(n_cols, 1)` empty columns to a grid dashboard.
    pub fn grid_add_row(&mut self, height: RowHeight, n_cols: usize)
        ensures
            row_added(*old(self), *final(self), height, n_cols),
    {
        match &mut self.layout {
            DashboardLayout::Grid { rows } => {
                let n: usize = if n_cols == 0 {
                    1
                } else {
                    n_cols
                };
                let mut columns: Vec<GridColumn> = Vec::new();
                let mut i: usize = 0;
                while i < n
                    invariant
                        i <= n,
                        columns@.len() == i,
                        forall|j: int| 0 <= j < i ==> (#[trigger] columns@[j]).fill_height is None
                            && columns@[j].cards@.len() == 0,
                    decreases n - i,
                {
                    columns.push(GridColumn { fill_height: None, cards: Vec::new() });
                    i = i + 1;
                }
                let ghost old_rows = rows@;
                rows.push(GridRow { height, fill_height: None, columns });
                assert(rows@.drop_last() =~= old_rows);
            },
            DashboardLayout::Free { .. } => {},
        }
    }

    /// Remove a row; refused for the last remaining row or an index out of range.
    pub fn grid_remove_row(&mut self, row_idx: usize) -> (r: bool)
        ensures
            row_removed(*old(self), *final(self), row_idx, r),
    {
        match &mut self.layout {
            DashboardLayout::Grid { rows } => {
                if rows.len() <= 1 || row_idx >= rows.len() {
                    return false;
                }
                rows.remove(row_idx);
                true
            },
            DashboardLayout::Free { .. } => false,
        }
    }

    /// Swap a row with the one above (`up`) or below it.
    pub fn grid_move_row(&mut self, row_idx: usize, up: bool) -> (r: bool)
        requires
            !move_panics(row_idx as int, up, grid_rows(*old(self)).len() as int),
        ensures
            row_moved(*old(self), *final(self), row_idx, up, r),
    {
        match &mut self.layout {
            DashboardLayout::Grid { rows } => {
                if !move_check(row_idx, up, rows.len()) {
                    return false;
                }
                do_move(rows, row_idx, up);
                true
            },
            DashboardLayout::Free { .. } => false,
        }
    }

    /// Append an empty column to a row.
    pub fn grid_add_column(&mut self, row_idx: usize) -> (r: bool)
        ensures
            column_added(*old(self), *final(self), row_idx, r),
    {
        match &mut self.layout {
            DashboardLayout::Grid { rows } => {
                if row_idx >= rows.len() {
                    return false;
                }
                let ghost old_cols = rows@[row_idx as int].columns@;
                rows[row_idx].columns.push(GridColumn { fill_height: None, cards: Vec::new() });
                assert(rows@[row_idx as int].columns@.drop_last() =~= old_cols);
                true
            },
            DashboardLayout::Free { .. } => false,
        }
    }

    /// Remove a column (and its cards); refused for a row's last column.
    pub fn grid_remove_column(&mut self, row_idx: usize, col_idx: usize) -> (r: bool)
        ensures
            column_removed(*old(self), *final(self), row_idx, col_idx, r),
    {
        match &mut self.layout {
            DashboardLayout::Grid { rows } => {
                if row_idx >= rows.len() {
                    return false;
                }
                if rows[row_idx].columns.len() <= 1 || col_idx >= rows[row_idx].columns.len() {
                    return false;
                }
                rows[row_idx].columns.remove(col_idx);
                true
            },
            DashboardLayout::Free { .. } => false,
        }
    }

    /// Swap a column with its left (`left`) or right neighbour.
    pub fn grid_move_column(&mut self, row_idx: usize, col_idx: usize, left: bool) -> (r: bool)
        requires
            row_idx < grid_rows(*old(self)).len() ==> !move_panics(col_idx as int, left,
                grid_rows(*old(self))[row_idx as int].columns@.len() as int),
        ensures
            column_moved(*old(self), *final(self), row_idx, col_idx, left, r),
    {
        match &mut self.layout {
            DashboardLayout::Grid { rows } => {
                if row_idx >= rows.len() {
                    return false;
                }
                if !move_check(col_idx, left, rows[row_idx].columns.len()) {
                    return false;
                }
                do_move(&mut rows[row_idx].columns, col_idx, left);
                true
            },
            DashboardLayout::Free { .. } => false,
        }
    }

    /// Swap a card with the one above (`up`) or below it in its column.
    pub fn grid_move_card_in_column(&mut self, row_idx: usize, col_idx: usize, pos: usize, up: bool) -> (r: bool)
        requires
            valid_col(grid_rows(*old(self)), row_idx as int, col_idx as int) ==> !move_panics(pos as int, up,
                col_len(grid_rows(*old(self)), row_idx as int, col_idx as int)),
        ensures
            card_moved_in_column(*old(self), *final(self), row_idx, col_idx, pos, up, r),
    {
        match &mut self.layout {
            DashboardLayout::Grid { rows } => {
                if row_idx >= rows.len() || col_idx >= rows[row_idx].columns.len() {
                    return false;
                }
                if !move_check(pos, up, rows[row_idx].columns[col_idx].cards.len()) {
                    return false;
                }
                do_move(&mut rows[row_idx].columns[col_idx].cards, pos, up);
                true
            },
            DashboardLayout::Free { .. } => false,
        }
    }

    /// Set the height of a grid row.
    pub fn grid_set_row_height(&mut self, row_idx: usize, height: RowHeight) -> (r: bool)
        ensures
            row_height_set(*old(self), *final(self), row_idx, height, r),
    {
        match &mut self.layout {
            DashboardLayout::Grid { rows } => {
                if row_idx >= rows.len() {
                    return false;
                }
                rows[row_idx].height = height;
                true
            },
            DashboardLayout::Free { .. } => false,
        }
    }

    /// Flip a row's `fill_height` default (unset counts as off).
    pub fn grid_toggle_row_fill_height(&mut self, row_idx: usize) -> (r: bool)
        ensures
            row_fill_toggled(*old(self), *final(self), row_idx, r),
    {
        match &mut self.layout {
            DashboardLayout::Grid { rows } => {
                if row_idx >= rows.len() {
                    return false;
                }
                let current = match rows[row_idx].fill_height {
                    Some(b) => b,
                    None => false,
                };
                rows[row_idx].fill_height = Some(!current);
                true
            },
            DashboardLayout::Free { .. } => false,
        }
    }

    /// Flip a column's `fill_height` (unset counts as off).
    pub fn grid_toggle_column_fill_height(&mut self, row_idx: usize, col_idx: usize) -> (r: bool)
        ensures
            column_fill_toggled(*old(self), *final(self), row_idx, col_idx, r),
    {
        match &mut self.layout {
            DashboardLayout::Grid { rows } => {
                if row_idx >= rows.len() || col_idx >= rows[row_idx].columns.len() {
                    return false;
                }
                let current = match rows[row_idx].columns[col_idx].fill_height {
                    Some(b) => b,
                    None => false,
                };
                rows[row_idx].columns[col_idx].fill_height = Some(!current);
                true
            },
            DashboardLayout::Free { .. } => false,
        }
    }

    /// All cards in flat order.
    pub fn cards_iter(&self) -> (r: Vec<&Card>)
        requires
            count_fits(*self),
        ensures
            r@.len() == flat_cards(*self).len(),
            forall|i: int| 0 <= i < r@.len() ==> *(#[trigger] r@[i]) == flat_cards(*self)[i],
    {
        let n = self.card_count();
        let mut out: Vec<&Card> = Vec::new();
        let mut i: usize = 0;
        while i < n
            invariant
                i <= n,
                n == flat_cards(*self).len(),
                out@.len() == i,
                forall|k: int| 0 <= k < i ==> *(#[trigger] out@[k]) == flat_cards(*self)[k],
            decreases n - i,
        {
            match self.card(i) {
                Some(c) => out.push(c),
                None => {},
            }
            i = i + 1;
        }
        out
    }

    /// Flat index of the first card with the given id.
    pub fn flat_idx_of(&self, id: CardId) -> (r: Option<usize>)
        requires
            count_fits(*self),
        ensures
            match r {
                Some(i) => first_with_id(flat_cards(*self), id, i as int),
                None => !has_id(flat_cards(*self), id),
            },
    {
        let n = self.card_count();
        let mut i: usize = 0;
        while i < n
            invariant
                i <= n,
                n == flat_cards(*self).len(),
                forall|k: int| 0 <= k < i ==> (#[trigger] flat_cards(*self)[k]).id != id,
            decreases n - i,
        {
            match self.card(i) {
                Some(c) => {
                    if c.id == id {
                        return Some(i);
                    }
                },
                None => {},
            }
            i = i + 1;
        }
        None
    }

    /// The first card with the given id.
    pub fn card_by_id(&self, id: CardId) -> (r: Option<&Card>)
        requires
            count_fits(*self),
        ensures
            match r {
                Some(c) => exists|i: int| first_with_id(flat_cards(*self), id, i) && *c == flat_cards(*self)[i],
                None => !has_id(flat_cards(*self), id),
            },
    {
        match self.flat_idx_of(id) {
            Some(i) => self.card(i),
            None => None,
        }
    }

    /// (row, column, position) of the first card with the given id, in a grid layout.
    pub fn locate_grid(&self, id: CardId) -> (r: Option<(usize, usize, usize)>)
        requires
            count_fits(*self),
        ensures
            match self.layout {
                DashboardLayout::Free { .. } => r is None,
                DashboardLayout::Grid { rows } => match r {
                    Some((a, b, c)) => exists|i: int| first_with_id(rows_flat(rows@), id, i)
                        && is_loc(rows@, i, a as int, b as int, c as int),
                    None => !has_id(rows_flat(rows@), id),
                },
            },
    {
        if self.is_free() {
            return None;
        }
        match self.flat_idx_of(id) {
            Some(i) => {
                let r = self.locate_grid_flat(i);
                r
            },
            None => None,
        }
    }

    /// Remove the first card with the given id.
    pub fn remove_card_by_id(&mut self, id: CardId) -> (r: Option<Card>)
        requires
            count_fits(*old(self)),
        ensures
            final(self).name == old(self).name,
            match r {
                Some(c) => c.id == id && exists|i: int| first_with_id(flat_cards(*old(self)), id, i)
                    && flat_cards(*final(self)) == flat_cards(*old(self)).remove(i),
                None => !has_id(flat_cards(*old(self)), id) && *final(self) == *old(self),
            },
    {
        match self.flat_idx_of(id) {
            Some(i) => self.remove_card_at(i),
            None => None,
        }
    }

    /// A fresh card id: one more than the largest id in use.
    pub fn next_card_id(&self) -> (r: CardId)
        requires
            count_fits(*self),
            max_id(flat_cards(*self)) < u64::MAX,
        ensures
            r.0 == max_id(flat_cards(*self)) + 1,
            !has_id(flat_cards(*self), r),
    {
        let n = self.card_count();
        let mut m: u64 = 0;
        let mut i: usize = 0;
        while i < n
            invariant
                i <= n,
                n == flat_cards(*self).len(),
                m == max_id(flat_cards(*self).take(i as int)),
            decreases n - i,
        {
            assert(flat_cards(*self).take(i as int + 1).drop_last() =~= flat_cards(*self).take(i as int));
            match self.card(i) {
                Some(c) => {
                    if c.id.0 > m {
                        m = c.id.0;
                    }
                },
                None => {},
            }
            i = i + 1;
        }
        assert(flat_cards(*self).take(n as int) =~= flat_cards(*self));
        proof {
            lemma_max_id_bounds(flat_cards(*self));
        }
        CardId(m + 1)
    }

    /// Mutable access to the card at a flat index.
    pub fn card_mut(&mut self, idx: usize) -> (r: Option<&mut Card>)
        ensures
            final(self).name == old(self).name,
            match r {
                Some(c) => {
                    &&& idx < flat_cards(*old(self)).len()
                    &&& *c == flat_cards(*old(self))[idx as int]
                    &&& flat_cards(*final(self)) == flat_cards(*old(self)).update(idx as int, *final(c))
                    &&& match (old(self).layout, final(self).layout) {
                        (DashboardLayout::Free { grid: g1, .. }, DashboardLayout::Free { grid: g2, .. }) => g1 == g2,
                        (DashboardLayout::Grid { rows: r1 }, DashboardLayout::Grid { rows: r2 }) => {
                            let (a, b, p) = locate(r1@, idx as int)->0;
                            col_replaced(r1@, r2@, a, b, r1@[a].columns@[b].cards@.update(p, *final(c)))
                        },
                        _ => false,
                    }
                },
                None => idx >= flat_cards(*old(self)).len() && *final(self) == *old(self),
            },
            r is Some ==> same_shape(*old(self), *final(self)),
    {
        match &mut self.layout {
            DashboardLayout::Free { cards, .. } => {
                if idx < cards.len() {
                    Some(&mut cards[idx])
                } else {
                    None
                }
            },
            DashboardLayout::Grid { rows } => {
                let ghost old_rows = rows@;
                match locate_in_rows(rows, idx) {
                    Some((a, b, p)) => {
                        proof {
                            lemma_locate_is(old_rows, idx as int, a as int, b as int, p as int);
                            lemma_loc_card(old_rows, idx as int, a as int, b as int, p as int);
                            lemma_split(old_rows, a as int, b as int);
                        }
                        let c = &mut rows[a].columns[b].cards[p];
                        proof {
                            lemma_col_replaced(old_rows, after_borrow(*rows)@, a as int, b as int,
                                old_rows[a as int].columns@[b as int].cards@.update(p as int, *final(c)));
                        }
                        Some(c)
                    },
                    None => None,
                }
            },
        }
    }

    /// Mutable access to the first card with the given id.
    pub fn card_by_id_mut(&mut self, id: CardId) -> (r: Option<&mut Card>)
        requires
            count_fits(*old(self)),
        ensures
            final(self).name == old(self).name,
            match r {
                Some(c) => exists|i: int|
                    #[trigger] first_with_id(flat_cards(*old(self)), id, i) && *c == flat_cards(*old(self))[i] && flat_cards(
                        *final(self),
                    ) == flat_cards(*old(self)).update(i, *final(c)),
                None => !has_id(flat_cards(*old(self)), id) && *final(self) == *old(self),
            },
            r is Some ==> same_shape(*old(self), *final(self)),
    {
        match self.flat_idx_of(id) {
            Some(i) => {
                let r = self.card_mut(i);
                proof {
                    assert(first_with_id(flat_cards(*old(self)), id, i as int));
                }
                r
            },
            None => None,
        }
    }
}

} // verus!
