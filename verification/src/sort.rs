//! Stable sorting by a string key (insertion sort).
use vstd::prelude::*;

use crate::strings::{lemma_lex_asym, lemma_lex_total, lemma_lex_trans, lex_lt, str_lt};

verus! {

broadcast use vstd::seq_lib::group_to_multiset_ensures;

/// A value ordered by a string key.
pub trait SortKey {
    spec fn key_view(&self) -> Seq<char>;

    fn sort_key(&self) -> (r: &str)
        ensures
            r@ == self.key_view(),
    ;
}

impl SortKey for String {
    open spec fn key_view(&self) -> Seq<char> {
        self@
    }

    fn sort_key(&self) -> (r: &str) {
        self.as_str()
    }
}

/// Keys never decrease along the sequence.
pub open spec fn sorted_by_key<T: SortKey>(s: Seq<T>) -> bool {
    forall|i: int, j: int| 0 <= i < j < s.len() ==> !lex_lt(#[trigger] s[j].key_view(), #[trigger] s[i].key_view())
}

/// Position after every element whose key is not greater than `x`'s.
fn insert_pos<T: SortKey>(out: &Vec<T>, x: &T) -> (k: usize)
    requires
        sorted_by_key(out@),
    ensures
        k <= out@.len(),
        forall|i: int| 0 <= i < k ==> !lex_lt(x.key_view(), #[trigger] out@[i].key_view()),
        k < out@.len() ==> lex_lt(x.key_view(), out@[k as int].key_view()),
{
    let mut k: usize = 0;
    while k < out.len()
        invariant
            k <= out@.len(),
            forall|i: int| 0 <= i < k ==> !lex_lt(x.key_view(), #[trigger] out@[i].key_view()),
        decreases out.len() - k,
    {
        if str_lt(x.sort_key(), out[k].sort_key()) {
            return k;
        }
        k = k + 1;
    }
    k
}

proof fn lemma_insert_sorted<T: SortKey>(out: Seq<T>, x: T, k: int)
    requires
        sorted_by_key(out),
        0 <= k <= out.len(),
        forall|i: int| 0 <= i < k ==> !lex_lt(x.key_view(), #[trigger] out[i].key_view()),
        k < out.len() ==> lex_lt(x.key_view(), out[k].key_view()),
    ensures
        sorted_by_key(out.insert(k, x)),
{
    let s = out.insert(k, x);
    assert forall|i: int, j: int| 0 <= i < j < s.len() implies !lex_lt(#[trigger] s[j].key_view(), #[trigger] s[i].key_view()) by {
        if i < k && j == k {
        } else if i == k && j > k {
            // x < out[k] <= out[j - 1]
            let a = out[k].key_view();
            let b = out[j - 1].key_view();
            if j - 1 > k {
                lemma_lex_total(a, b);
                if lex_lt(a, b) {
                    lemma_lex_trans(x.key_view(), a, b);
                }
            }
            lemma_lex_asym(x.key_view(), b);
        } else if i < k && j < k {
            assert(s[i] == out[i] && s[j] == out[j]);
        } else if i < k && j > k {
            assert(s[i] == out[i] && s[j] == out[j - 1]);
        } else {
            assert(s[i] == out[i - 1] && s[j] == out[j - 1]);
        }
    }
}

/// Sort by key; equal keys keep their order.
pub fn sort_by_key<T: SortKey>(v: Vec<T>) -> (r: Vec<T>)
    ensures
        r@.to_multiset() == v@.to_multiset(),
        r@.len() == v@.len(),
        sorted_by_key(r@),
{
    let mut src = v;
    let mut out: Vec<T> = Vec::new();
    while src.len() > 0
        invariant
            out@.to_multiset().add(src@.to_multiset()) == v@.to_multiset(),
            out@.len() + src@.len() == v@.len(),
            sorted_by_key(out@),
        decreases src.len(),
    {
        let ghost s0 = src@;
        let ghost o0 = out@;
        let x = src.remove(0);
        let k = insert_pos(&out, &x);
        proof {
            lemma_insert_sorted(o0, x, k as int);
        }
        out.insert(k, x);
        proof {
            assert(src@ == s0.remove(0));
            assert(out@ == o0.insert(k as int, x));
            assert(out@.to_multiset().add(src@.to_multiset()) =~= o0.to_multiset().add(s0.to_multiset()));
        }
    }
    assert(src@.to_multiset() =~= vstd::multiset::Multiset::empty());
    assert(out@.to_multiset().add(vstd::multiset::Multiset::empty()) =~= out@.to_multiset());
    out
}


/// Mapping both sides of a permutation gives a permutation.
pub proof fn lemma_multiset_map<A, B>(s1: Seq<A>, s2: Seq<A>, f: spec_fn(A) -> B)
    requires
        s1.to_multiset() == s2.to_multiset(),
    ensures
        s1.map_values(f).to_multiset() == s2.map_values(f).to_multiset(),
    decreases s1.len(),
{
    broadcast use vstd::multiset::group_multiset_axioms;

    if s1.len() == 0 {
        assert(s1.to_multiset().len() == s1.len());
        assert(s2.to_multiset().len() == s2.len());
        assert(s2.len() == 0);
        assert(s1.map_values(f) =~= s2.map_values(f));
    } else {
        let x = s1[0];
        assert(s1.to_multiset().count(x) > 0);
        assert(s2.contains(x));
        let j = choose|j: int| 0 <= j < s2.len() && s2[j] == x;
        lemma_multiset_map(s1.remove(0), s2.remove(j), f);
        let m1 = s1.map_values(f);
        let m2 = s2.map_values(f);
        assert(m1.remove(0) =~= s1.remove(0).map_values(f));
        assert(m2.remove(j) =~= s2.remove(j).map_values(f));
        assert(m1.to_multiset().remove(f(x)) == m2.to_multiset().remove(f(x)));
        assert(m1.to_multiset().count(f(x)) > 0);
        assert(m2.to_multiset().count(f(x)) > 0);
        assert(m1.to_multiset() =~= m1.to_multiset().remove(f(x)).insert(f(x)));
        assert(m2.to_multiset() =~= m2.to_multiset().remove(f(x)).insert(f(x)));
    }
}

} // verus!
