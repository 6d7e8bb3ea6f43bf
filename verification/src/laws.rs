//! Laws of grid dashboards: flat indexing, navigation and moves.
use vstd::prelude::*;

use crate::dashboard::{Card, GridColumn, GridRow, NavDir};
use crate::flat::{
    col_len, col_replaced, col_start, cols_flat, is_loc, lemma_col_replaced, lemma_cols_concat,
    lemma_cols_take_step, lemma_locate_is, lemma_rows_concat, lemma_rows_take_step, lemma_split, locate,
    rows_flat, valid_col,
};
use crate::grid_ops::{move_ok, moved, neighbor_spec, swap_adj};

verus! {

pub open spec fn in_col(cols: Seq<GridColumn>, g: int, c: int, p: int) -> bool {
    0 <= c < cols.len() && 0 <= p < cols[c].cards@.len() && cols_flat(cols.take(c)).len() + p == g
}

proof fn lemma_cols_locate(cols: Seq<GridColumn>, g: int)
    requires
        0 <= g < cols_flat(cols).len(),
    ensures
        exists|c: int, p: int| in_col(cols, g, c, p),
    decreases cols.len(),
{
    let last = cols.len() - 1;
    let prefix = cols_flat(cols.drop_last()).len();
    assert(cols.take(last) =~= cols.drop_last());
    if g < prefix {
        lemma_cols_locate(cols.drop_last(), g);
        let (c, p) = choose|c: int, p: int| in_col(cols.drop_last(), g, c, p);
        assert(cols.drop_last().take(c) =~= cols.take(c));
        assert(cols[c] == cols.drop_last()[c]);
        assert(in_col(cols, g, c, p));
    } else {
        let p = g - prefix;
        assert(cols_flat(cols.take(last)).len() + p == g);
        assert(in_col(cols, g, last, p));
    }
}

/// Every flat index below the card count has a location.
pub proof fn lemma_locate_exists(rows: Seq<GridRow>, f: int)
    requires
        0 <= f < rows_flat(rows).len(),
    ensures
        exists|r: int, c: int, p: int| is_loc(rows, f, r, c, p),
    decreases rows.len(),
{
    let last = rows.len() - 1;
    let prefix = rows_flat(rows.drop_last()).len();
    assert(rows.take(last) =~= rows.drop_last());
    if f < prefix {
        lemma_locate_exists(rows.drop_last(), f);
        let (r, c, p) = choose|r: int, c: int, p: int| is_loc(rows.drop_last(), f, r, c, p);
        assert(rows.drop_last().take(r) =~= rows.take(r));
        assert(rows[r] == rows.drop_last()[r]);
        assert(is_loc(rows, f, r, c, p));
    } else {
        lemma_cols_locate(rows.last().columns@, f - prefix);
        let lc = rows.last().columns@;
        let g = f - prefix;
        let (c, p) = choose|c: int, p: int| #[trigger] in_col(lc, g, c, p);
        assert(is_loc(rows, f, last, c, p));
    }
}

/// Flat index ↔ (row, column, position) is a bijection between the indices
/// below the card count and the positions that hold a card.
pub proof fn law_flat_index_roundtrip(rows: Seq<GridRow>, r: int, c: int, p: int, f: int)
    ensures
        valid_col(rows, r, c) && 0 <= p < col_len(rows, r, c) ==> locate(rows, col_start(rows, r, c) + p)
            == Some((r, c, p)),
        0 <= f < rows_flat(rows).len() ==> match locate(rows, f) {
            Some((r2, c2, p2)) => is_loc(rows, f, r2, c2, p2),
            None => false,
        },
{
    if valid_col(rows, r, c) && 0 <= p < col_len(rows, r, c) {
        lemma_locate_is(rows, col_start(rows, r, c) + p, r, c, p);
    }
    if 0 <= f < rows_flat(rows).len() {
        lemma_locate_exists(rows, f);
        let (r2, c2, p2) = choose|r2: int, c2: int, p2: int| is_loc(rows, f, r2, c2, p2);
        lemma_locate_is(rows, f, r2, c2, p2);
    }
}

/// Down then Up (and Up then Down) within a column returns to the start.
pub proof fn law_neighbor_up_down_inverse(rows: Seq<GridRow>, f: int)
    ensures
        neighbor_spec(rows, f, NavDir::Down) matches Some(g) ==> neighbor_spec(rows, g, NavDir::Up) == Some(f),
        neighbor_spec(rows, f, NavDir::Up) matches Some(g) ==> neighbor_spec(rows, g, NavDir::Down) == Some(f),
{
    match locate(rows, f) {
        Some((r, c, p)) => {
            let (r0, c0, p0) = choose|r0: int, c0: int, p0: int| is_loc(rows, f, r0, c0, p0);
            assert(is_loc(rows, f, r, c, p));
            if p + 1 < col_len(rows, r, c) {
                assert(is_loc(rows, f + 1, r, c, p + 1));
                lemma_locate_is(rows, f + 1, r, c, p + 1);
            }
            if p > 0 {
                assert(is_loc(rows, f - 1, r, c, p - 1));
                lemma_locate_is(rows, f - 1, r, c, p - 1);
            }
        },
        None => {},
    }
}

proof fn lemma_swap_twice<T>(s: Seq<T>, lo: int)
    requires
        0 <= lo && lo + 1 < s.len(),
    ensures
        swap_adj(swap_adj(s, lo), lo) == s,
{
    let t = swap_adj(s, lo);
    let u = swap_adj(t, lo);
    assert(t.len() == s.len());
    assert(u.len() == s.len());
    assert forall|k: int| 0 <= k < s.len() implies u[k] == s[k] by {
        if k != lo && k != lo + 1 {
            assert(t[k] == s[k]);
        }
    }
    assert(u =~= s);
}

proof fn lemma_swap_concat<T>(a: Seq<T>, m: Seq<T>, b: Seq<T>, lo: int)
    requires
        0 <= lo && lo + 1 < m.len(),
    ensures
        a + swap_adj(m, lo) + b == swap_adj(a + m + b, a.len() + lo),
{
    let l = a + swap_adj(m, lo) + b;
    let r = swap_adj(a + m + b, a.len() + lo);
    assert(l.len() == r.len());
    assert forall|k: int| 0 <= k < l.len() implies l[k] == r[k] by {
        if k < a.len() {
        } else if k < a.len() + m.len() {
        } else {
        }
    }
    assert(l =~= r);
}

/// Moving an element one step and back restores the sequence.
pub proof fn law_move_round_trip<T>(s: Seq<T>, i: int)
    requires
        0 <= i < s.len(),
    ensures
        move_ok(i, false, s.len() as int) ==> moved(moved(s, i, false), i + 1, true) == s,
        move_ok(i, true, s.len() as int) ==> moved(moved(s, i, true), i - 1, false) == s,
{
    if move_ok(i, false, s.len() as int) {
        lemma_swap_twice(s, i);
    }
    if move_ok(i, true, s.len() as int) {
        lemma_swap_twice(s, i - 1);
    }
}

/// Moving a card within its column swaps it with its neighbour in the flat
/// order, so a selection can follow the card by flat index.
pub proof fn law_move_in_column_swaps_flat(rows: Seq<GridRow>, rows2: Seq<GridRow>, r: int, c: int, p: int, up: bool)
    requires
        valid_col(rows, r, c),
        0 <= p < col_len(rows, r, c),
        move_ok(p, up, col_len(rows, r, c)),
        col_replaced(rows, rows2, r, c, moved(rows[r].columns@[c].cards@, p, up)),
    ensures
        rows_flat(rows2) == moved(rows_flat(rows), col_start(rows, r, c) + p, up),
{
    let cards = rows[r].columns@[c].cards@;
    lemma_split(rows, r, c);
    lemma_col_replaced(rows, rows2, r, c, moved(cards, p, up));
    let a = rows_flat(rows.take(r)) + cols_flat(rows[r].columns@.take(c));
    let b = cols_flat(rows[r].columns@.skip(c + 1)) + rows_flat(rows.skip(r + 1));
    assert(rows_flat(rows) =~= a + cards + b);
    assert(rows_flat(rows2) =~= a + moved(cards, p, up) + b);
    assert(col_start(rows, r, c) == a.len());
    if up {
        lemma_swap_concat(a, cards, b, p - 1);
    } else {
        lemma_swap_concat(a, cards, b, p);
    }
}

/// Swapping two adjacent rows keeps the same cards (as a multiset).
pub proof fn law_row_move_keeps_cards(rows: Seq<GridRow>, lo: int)
    requires
        0 <= lo && lo + 1 < rows.len(),
    ensures
        rows_flat(swap_adj(rows, lo)).to_multiset() == rows_flat(rows).to_multiset(),
{
    broadcast use vstd::seq_lib::group_to_multiset_ensures;
    let s = swap_adj(rows, lo);
    let pre = rows.take(lo);
    let post = rows.skip(lo + 2);
    let x = rows[lo];
    let y = rows[lo + 1];
    assert(rows =~= pre + (seq![x] + (seq![y] + post)));
    assert(s =~= pre + (seq![y] + (seq![x] + post)));
    lemma_rows_concat(pre, seq![x] + (seq![y] + post));
    lemma_rows_concat(seq![x], seq![y] + post);
    lemma_rows_concat(seq![y], post);
    lemma_rows_concat(pre, seq![y] + (seq![x] + post));
    lemma_rows_concat(seq![y], seq![x] + post);
    lemma_rows_concat(seq![x], post);
    let fx = rows_flat(seq![x]);
    let fy = rows_flat(seq![y]);
    let fp = rows_flat(pre);
    let fq = rows_flat(post);
    vstd::seq_lib::lemma_multiset_commutative(fp, fx + (fy + fq));
    vstd::seq_lib::lemma_multiset_commutative(fx, fy + fq);
    vstd::seq_lib::lemma_multiset_commutative(fy, fq);
    vstd::seq_lib::lemma_multiset_commutative(fp, fy + (fx + fq));
    vstd::seq_lib::lemma_multiset_commutative(fy, fx + fq);
    vstd::seq_lib::lemma_multiset_commutative(fx, fq);
    assert(rows_flat(s).to_multiset() =~= rows_flat(rows).to_multiset());
}

/// Swapping two adjacent columns of a row keeps the same cards (as a multiset).
pub proof fn law_column_move_keeps_cards(rows: Seq<GridRow>, rows2: Seq<GridRow>, r: int, lo: int)
    requires
        0 <= r < rows.len(),
        0 <= lo && lo + 1 < rows[r].columns@.len(),
        rows2.len() == rows.len(),
        forall|i: int| 0 <= i < rows.len() && i != r ==> rows2[i] == rows[i],
        rows2[r].columns@ == swap_adj(rows[r].columns@, lo),
    ensures
        rows_flat(rows2).to_multiset() == rows_flat(rows).to_multiset(),
{
    broadcast use vstd::seq_lib::group_to_multiset_ensures;
    let cols = rows[r].columns@;
    let sc = swap_adj(cols, lo);
    let pre = cols.take(lo);
    let post = cols.skip(lo + 2);
    let x = cols[lo];
    let y = cols[lo + 1];
    assert(cols =~= pre + (seq![x] + (seq![y] + post)));
    assert(sc =~= pre + (seq![y] + (seq![x] + post)));
    lemma_cols_concat(pre, seq![x] + (seq![y] + post));
    lemma_cols_concat(seq![x], seq![y] + post);
    lemma_cols_concat(seq![y], post);
    lemma_cols_concat(pre, seq![y] + (seq![x] + post));
    lemma_cols_concat(seq![y], seq![x] + post);
    lemma_cols_concat(seq![x], post);
    let fx = cols_flat(seq![x]);
    let fy = cols_flat(seq![y]);
    let fp = cols_flat(pre);
    let fq = cols_flat(post);
    vstd::seq_lib::lemma_multiset_commutative(fp, fx + (fy + fq));
    vstd::seq_lib::lemma_multiset_commutative(fx, fy + fq);
    vstd::seq_lib::lemma_multiset_commutative(fy, fq);
    vstd::seq_lib::lemma_multiset_commutative(fp, fy + (fx + fq));
    vstd::seq_lib::lemma_multiset_commutative(fy, fx + fq);
    vstd::seq_lib::lemma_multiset_commutative(fx, fq);
    assert(cols_flat(sc).to_multiset() =~= cols_flat(cols).to_multiset());
    let a = rows.take(r);
    let b = rows.skip(r + 1);
    assert(rows =~= a + (seq![rows[r]] + b));
    assert(rows2 =~= a + (seq![rows2[r]] + b));
    lemma_rows_concat(a, seq![rows[r]] + b);
    lemma_rows_concat(seq![rows[r]], b);
    lemma_rows_concat(a, seq![rows2[r]] + b);
    lemma_rows_concat(seq![rows2[r]], b);
    assert(seq![rows[r]].drop_last() =~= Seq::<GridRow>::empty());
    assert(seq![rows2[r]].drop_last() =~= Seq::<GridRow>::empty());
    assert(rows_flat(Seq::<GridRow>::empty()) =~= Seq::<Card>::empty());
    assert(seq![rows[r]].last() == rows[r]);
    assert(seq![rows2[r]].last() == rows2[r]);
    assert(rows_flat(seq![rows[r]]) =~= cols_flat(cols));
    assert(rows_flat(seq![rows2[r]]) =~= cols_flat(sc));
    let fa = rows_flat(a);
    let fb = rows_flat(b);
    vstd::seq_lib::lemma_multiset_commutative(fa, cols_flat(cols) + fb);
    vstd::seq_lib::lemma_multiset_commutative(cols_flat(cols), fb);
    vstd::seq_lib::lemma_multiset_commutative(fa, cols_flat(sc) + fb);
    vstd::seq_lib::lemma_multiset_commutative(cols_flat(sc), fb);
    assert(rows_flat(rows2).to_multiset() =~= rows_flat(rows).to_multiset());
}

} // verus!
