//! Keeping only the cards a predicate accepts, with every row and column left
//! in place.
use vstd::prelude::*;

use crate::dashboard::{Card, Dashboard, DashboardLayout, GridColumn, GridRow};

verus! {

/// The elements of `s` whose flag in `keep` is set, in order.
pub open spec fn masked(s: Seq<Card>, keep: Seq<bool>) -> Seq<Card>
    decreases s.len(),
{
    if s.len() == 0 {
        Seq::empty()
    } else {
        let prev = masked(s.drop_last(), keep.drop_last());
        if keep.last() {
            prev.push(s.last())
        } else {
            prev
        }
    }
}

/// `new` is `old` less the cards for which `pred` answered `false`.
pub open spec fn retained_by<F: Fn(&Card) -> bool>(old: Seq<Card>, new: Seq<Card>, pred: F) -> bool {
    exists|keep: Seq<bool>|
        #![trigger masked(old, keep)]
        keep.len() == old.len() && (forall|i: int| 0 <= i < old.len() ==> call_ensures(pred, (&old[i],), #[trigger] keep[i]))
            && new == masked(old, keep)
}

/// `c2` is column `c1` with its cards filtered by `pred`.
pub open spec fn column_retained<F: Fn(&Card) -> bool>(c1: GridColumn, c2: GridColumn, pred: F) -> bool {
    c2.fill_height == c1.fill_height && retained_by(c1.cards@, c2.cards@, pred)
}

/// `r2` is row `r1` with every column's cards filtered by `pred`.
pub open spec fn row_retained<F: Fn(&Card) -> bool>(r1: GridRow, r2: GridRow, pred: F) -> bool {
    &&& r2.height == r1.height
    &&& r2.fill_height == r1.fill_height
    &&& r2.columns@.len() == r1.columns@.len()
    &&& forall|b: int| 0 <= b < r1.columns@.len() ==> column_retained(r1.columns@[b], #[trigger] r2.columns@[b], pred)
}

proof fn lemma_masked_step(s: Seq<Card>, keep: Seq<bool>, j: int, b: bool)
    requires
        0 <= j < s.len(),
        keep.len() == j,
    ensures
        masked(s.take(j + 1), keep.push(b)) == if b { masked(s.take(j), keep).push(s[j]) } else { masked(s.take(j), keep) },
{
    assert(s.take(j + 1).drop_last() =~= s.take(j));
    assert(keep.push(b).drop_last() =~= keep);
}

proof fn lemma_masked_len(s: Seq<Card>, keep: Seq<bool>)
    ensures
        masked(s, keep).len() <= s.len(),
    decreases s.len(),
{
    if s.len() > 0 {
        lemma_masked_len(s.drop_last(), keep.drop_last());
    }
}

/// Keep the cards of `v` that `pred` accepts.
fn retain_vec<F: Fn(&Card) -> bool>(v: &mut Vec<Card>, pred: &F)
    requires
        forall|c: &Card| call_requires(*pred, (c,)),
    ensures
        retained_by(old(v)@, final(v)@, *pred),
{
    let ghost orig = v@;
    let ghost mut keep: Seq<bool> = Seq::empty();
    let ghost mut j: int = 0;
    let mut i: usize = 0;
    while i < v.len()
        invariant
            0 <= j <= orig.len(),
            keep.len() == j,
            i == masked(orig.take(j), keep).len(),
            v@ == masked(orig.take(j), keep) + orig.skip(j),
            forall|k: int| 0 <= k < j ==> call_ensures(*pred, (&orig[k],), #[trigger] keep[k]),
            forall|c: &Card| call_requires(*pred, (c,)),
        decreases v.len() - i,
    {
        proof {
            lemma_masked_len(orig.take(j), keep);
            assert(j < orig.len());
            assert(v@[i as int] == orig[j]);
        }
        let b = pred(&v[i]);
        proof {
            lemma_masked_step(orig, keep, j, b);
        }
        if b {
            i = i + 1;
        } else {
            v.remove(i);
        }
        proof {
            assert(orig.skip(j) =~= seq![orig[j]] + orig.skip(j + 1));
            keep = keep.push(b);
            j = j + 1;
            if b {
                assert(v@ =~= masked(orig.take(j), keep) + orig.skip(j));
            } else {
                assert(v@ =~= masked(orig.take(j), keep) + orig.skip(j));
            }
        }
    }
    proof {
        lemma_masked_len(orig.take(j), keep);
        assert(j == orig.len());
        assert(orig.take(j) =~= orig);
        assert(v@ =~= masked(orig, keep));
        assert(keep.len() == orig.len() && (forall|i: int| 0 <= i < orig.len() ==> call_ensures(*pred, (&orig[i],), #[trigger] keep[i]))
            && v@ == masked(orig, keep));
    }
}

impl Dashboard {
    /// Remove the cards that `pred` rejects; rows and columns stay, empty or not.
    pub fn retain_cards<F: Fn(&Card) -> bool>(&mut self, pred: F)
        requires
            forall|c: &Card| call_requires(pred, (c,)),
        ensures
            final(self).name == old(self).name,
            match (old(self).layout, final(self).layout) {
                (DashboardLayout::Free { grid: g1, cards: c1 }, DashboardLayout::Free { grid: g2, cards: c2 }) => g1 == g2
                    && retained_by(c1@, c2@, pred),
                (DashboardLayout::Grid { rows: r1 }, DashboardLayout::Grid { rows: r2 }) => r2@.len() == r1@.len() && forall|a: int|
                    0 <= a < r1@.len() ==> row_retained(r1@[a], #[trigger] r2@[a], pred),
                _ => false,
            },
    {
        match &mut self.layout {
            DashboardLayout::Free { cards, .. } => {
                retain_vec(cards, &pred);
            },
            DashboardLayout::Grid { rows } => {
                let ghost r1 = rows@;
                let mut a: usize = 0;
                while a < rows.len()
                    invariant
                        rows@.len() == r1.len(),
                        a <= r1.len(),
                        forall|k: int| 0 <= k < a ==> row_retained(r1[k], #[trigger] rows@[k], pred),
                        forall|k: int| a <= k < r1.len() ==> #[trigger] rows@[k] == r1[k],
                        forall|c: &Card| call_requires(pred, (c,)),
                    decreases r1.len() - a,
                {
                    let ghost row0 = rows@[a as int];
                    let mut b: usize = 0;
                    while b < rows[a].columns.len()
                        invariant
                            rows@.len() == r1.len(),
                            a < r1.len(),
                            row0 == r1[a as int],
                            forall|k: int| 0 <= k < a ==> row_retained(r1[k], #[trigger] rows@[k], pred),
                            forall|k: int| a < k < r1.len() ==> #[trigger] rows@[k] == r1[k],
                            rows@[a as int].height == row0.height,
                            rows@[a as int].fill_height == row0.fill_height,
                            rows@[a as int].columns@.len() == row0.columns@.len(),
                            b <= row0.columns@.len(),
                            forall|m: int| 0 <= m < b ==> column_retained(row0.columns@[m], #[trigger] rows@[a as int].columns@[m], pred),
                            forall|m: int| b <= m < row0.columns@.len() ==> #[trigger] rows@[a as int].columns@[m] == row0.columns@[m],
                            forall|c: &Card| call_requires(pred, (c,)),
                        decreases row0.columns@.len() - b,
                    {
                        retain_vec(&mut rows[a].columns[b].cards, &pred);
                        b = b + 1;
                    }
                    a = a + 1;
                }
            },
        }
    }
}

} // verus!
