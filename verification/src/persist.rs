//! Finishing a freshly read dashboards file: stable card ids, normalized
//! graph cards, and the file's default location.
use vstd::prelude::*;


use crate::card_ops::normalized;
use crate::config::{join_path, joined};
use crate::dashboard::{Card, CardId, CardKind, Dashboard, DashboardFile};
use crate::flat::flat_cards;
use crate::grid_ops::{count_fits, max_id, same_shape};
use crate::refresh::{all_cards, all_counts_fit, cards_of_all};

verus! {

/// `dashboards.yaml` inside the configuration directory, when there is one.
pub fn default_path(config_dir: Option<String>) -> (r: Option<String>)
    ensures
        match config_dir {
            Some(d) => r matches Some(p) && joined(d@, "dashboards.yaml"@, p@),
            None => r is None,
        },
{
    proof {
        reveal_strlit("dashboards.yaml");
        reveal_strlit(".");
        reveal_strlit("..");
    }
    match config_dir {
        Some(d) => Some(join_path(d.as_str(), "dashboards.yaml")),
        None => None,
    }
}

/// Why a dashboards file is refused.
#[derive(Clone, Copy, PartialEq, Eq, Structural, Debug)]
pub enum LoadError {
    /// The card at flat index `card` of dashboard `dashboard` is a graph
    /// with no entity at all.
    GraphWithoutEntities { dashboard: usize, card: usize },
}

/// The decimal digits of `n`.
pub open spec fn decimal(n: nat) -> Seq<char>
    decreases n,
{
    if n < 10 {
        seq![(n + 48) as char]
    } else {
        decimal(n / 10).push(((n % 10) + 48) as char)
    }
}

fn digit_str(d: usize) -> (r: &'static str)
    requires
        d < 10,
    ensures
        r@ == seq![(d + 48) as char],
{
    proof {
        reveal_strlit("0");
        reveal_strlit("1");
        reveal_strlit("2");
        reveal_strlit("3");
        reveal_strlit("4");
        reveal_strlit("5");
        reveal_strlit("6");
        reveal_strlit("7");
        reveal_strlit("8");
        reveal_strlit("9");
    }
    if d == 0 {
        "0"
    } else if d == 1 {
        "1"
    } else if d == 2 {
        "2"
    } else if d == 3 {
        "3"
    } else if d == 4 {
        "4"
    } else if d == 5 {
        "5"
    } else if d == 6 {
        "6"
    } else if d == 7 {
        "7"
    } else if d == 8 {
        "8"
    } else {
        "9"
    }
}

/// Append the decimal form of `n`.
pub(crate) fn push_decimal(out: &mut String, n: usize)
    ensures
        final(out)@ == old(out)@ + decimal(n as nat),
    decreases n,
{
    if n >= 10 {
        push_decimal(out, n / 10);
    }
    out.append(digit_str(n % 10));
}

impl LoadError {
    /// The message shown for the error.
    pub fn message(&self) -> (r: String)
        ensures
            match *self {
                LoadError::GraphWithoutEntities { dashboard, card } => r@ == "dashboard "@ + decimal(dashboard as nat)
                    + " card "@ + decimal(card as nat) + " graph has no entities"@,
            },
    {
        match self {
            LoadError::GraphWithoutEntities { dashboard, card } => {
                let mut m = crate::strings::to_owned_string("dashboard ");
                push_decimal(&mut m, *dashboard);
                m.append(" card ");
                push_decimal(&mut m, *card);
                m.append(" graph has no entities");
                m
            },
        }
    }
}

/// `f` is `ds` after loading: the same dashboards and card layout, each card
/// with its final id and normalized.
pub open spec fn finished(ds: Seq<Dashboard>, f: Seq<Dashboard>) -> bool {
    let base = max_id(all_cards(ds)) + 1;
    &&& f.len() == ds.len()
    &&& forall|d: int| 0 <= d < ds.len() ==> {
        &&& same_shape(ds[d], #[trigger] f[d])
        &&& flat_cards(f[d]).len() == flat_cards(ds[d]).len()
        &&& forall|c: int| 0 <= c < flat_cards(ds[d]).len() ==> loaded_card(
            flat_cards(ds[d])[c],
            base + zeros_before(ds, d, c),
            #[trigger] flat_cards(f[d])[c],
        )
    }
}

/// A card position of the file.
pub open spec fn valid_pos(ds: Seq<Dashboard>, d: int, c: int) -> bool {
    0 <= d < ds.len() && 0 <= c < flat_cards(ds[d]).len()
}

proof fn lemma_zero_ids_take_mono(s: Seq<Card>, k: int, k2: int)
    requires
        0 <= k <= k2 <= s.len(),
    ensures
        zero_ids(s.take(k)) <= zero_ids(s.take(k2)),
{
    lemma_zero_ids_prefix(s.take(k2), k);
    assert(s.take(k2).take(k) =~= s.take(k));
}

proof fn lemma_all_cards_take_mono(ds: Seq<Dashboard>, d: int, d2: int)
    requires
        0 <= d <= d2 <= ds.len(),
    ensures
        zero_ids(all_cards(ds.take(d))) <= zero_ids(all_cards(ds.take(d2))),
{
    lemma_all_cards_mono(ds.take(d2), d);
    assert(ds.take(d2).take(d) =~= ds.take(d));
}

/// A card without an id counts itself: the cards without an id before it and
/// it are at most all of them, and any later card has more before it.
proof fn lemma_zeros_before_step(ds: Seq<Dashboard>, d: int, c: int)
    requires
        valid_pos(ds, d, c),
        flat_cards(ds[d])[c].id.0 == 0,
    ensures
        zeros_before(ds, d, c) < zero_ids(all_cards(ds)),
        forall|d2: int, c2: int| valid_pos(ds, d2, c2) && before(d, c, d2, c2) ==> zeros_before(ds, d, c) < #[trigger] zeros_before(ds, d2, c2),
{
    let fl = flat_cards(ds[d]);
    assert(fl.take(c + 1).drop_last() =~= fl.take(c));
    lemma_zero_ids_take_mono(fl, c + 1, fl.len() as int);
    assert(fl.take(fl.len() as int) =~= fl);
    lemma_all_cards_prefix(ds, d);
    assert forall|d2: int, c2: int| valid_pos(ds, d2, c2) && before(d, c, d2, c2) implies zeros_before(ds, d, c) < #[trigger] zeros_before(ds, d2, c2) by {
        if d2 == d {
            lemma_zero_ids_take_mono(fl, c + 1, c2);
        } else {
            lemma_all_cards_take_mono(ds, d + 1, d2);
        }
    }
}

/// Every id in the file is at most the largest.
proof fn lemma_id_at_most_max(ds: Seq<Dashboard>, d: int, c: int)
    requires
        valid_pos(ds, d, c),
    ensures
        flat_cards(ds[d])[c].id.0 <= max_id(all_cards(ds)),
{
    assert(ds.take(d + 1).drop_last() =~= ds.take(d));
    lemma_max_id_concat(all_cards(ds.take(d)), flat_cards(ds[d]));
    lemma_all_cards_mono(ds, d + 1);
}

/// Loading gives every card that had no id one that no other card of the
/// file ends up with: fresh ids count up past the largest existing id.
pub proof fn law_assigned_ids_unique(ds: Seq<Dashboard>, f: Seq<Dashboard>, d1: int, c1: int, d2: int, c2: int)
    requires
        finished(ds, f),
        max_id(all_cards(ds)) + zero_ids(all_cards(ds)) < u64::MAX,
        valid_pos(ds, d1, c1),
        valid_pos(ds, d2, c2),
        d1 != d2 || c1 != c2,
        flat_cards(ds[d1])[c1].id.0 == 0,
    ensures
        flat_cards(f[d1])[c1].id != flat_cards(f[d2])[c2].id,
{
    let base = max_id(all_cards(ds)) + 1;
    let a1 = flat_cards(ds[d1])[c1];
    let a2 = flat_cards(ds[d2])[c2];
    assert(loaded_card(a1, base + zeros_before(ds, d1, c1), flat_cards(f[d1])[c1]));
    assert(loaded_card(a2, base + zeros_before(ds, d2, c2), flat_cards(f[d2])[c2]));
    lemma_zeros_before_step(ds, d1, c1);
    if a2.id.0 == 0 {
        lemma_zeros_before_step(ds, d2, c2);
        if before(d1, c1, d2, c2) {
            assert(zeros_before(ds, d1, c1) < zeros_before(ds, d2, c2));
        } else {
            assert(zeros_before(ds, d2, c2) < zeros_before(ds, d1, c1));
        }
    } else {
        lemma_id_at_most_max(ds, d2, c2);
    }
}

/// A graph card with neither series nor a legacy entity.
pub open spec fn bare_graph(c: Card) -> bool {
    c.kind matches CardKind::Graph { entity: None, entities, .. } && entities@.len() == 0
}

/// How many cards have no id yet.
pub open spec fn zero_ids(cards: Seq<Card>) -> nat
    decreases cards.len(),
{
    if cards.len() == 0 {
        0
    } else {
        zero_ids(cards.drop_last()) + if cards.last().id.0 == 0 { 1nat } else { 0nat }
    }
}

/// The id a card ends with: its own, or the next fresh one if it had none.
pub open spec fn final_id(c: Card, fresh: int) -> u64 {
    if c.id.0 == 0 {
        fresh as u64
    } else {
        c.id.0
    }
}

/// `b` is card `a` given its final id and normalized.
pub open spec fn loaded_card(a: Card, fresh: int, b: Card) -> bool {
    normalized(Card { id: CardId(final_id(a, fresh)), ..a }, b)
}

/// Cards without an id that come before card `c` of dashboard `d`, file-wide.
pub open spec fn zeros_before(ds: Seq<Dashboard>, d: int, c: int) -> nat {
    zero_ids(all_cards(ds.take(d))) + zero_ids(flat_cards(ds[d]).take(c))
}

/// (`d2`, `c2`) comes before (`d`, `c`) in file order.
pub open spec fn before(d2: int, c2: int, d: int, c: int) -> bool {
    d2 < d || (d2 == d && c2 < c)
}

/// Card `c` of dashboard `d` exists and is a bare graph.
pub open spec fn bare_at(ds: Seq<Dashboard>, d: int, c: int) -> bool {
    0 <= d < ds.len() && 0 <= c < flat_cards(ds[d]).len() && bare_graph(flat_cards(ds[d])[c])
}

proof fn lemma_zero_ids_concat(a: Seq<Card>, b: Seq<Card>)
    ensures
        zero_ids(a + b) == zero_ids(a) + zero_ids(b),
    decreases b.len(),
{
    if b.len() == 0 {
        assert(a + b =~= a);
    } else {
        lemma_zero_ids_concat(a, b.drop_last());
        assert((a + b).drop_last() =~= a + b.drop_last());
    }
}

proof fn lemma_zero_ids_prefix(s: Seq<Card>, k: int)
    requires
        0 <= k <= s.len(),
    ensures
        zero_ids(s.take(k)) <= zero_ids(s),
    decreases s.len() - k,
{
    if k < s.len() {
        lemma_zero_ids_prefix(s, k + 1);
        assert(s.take(k + 1).drop_last() =~= s.take(k));
    } else {
        assert(s.take(k) =~= s);
    }
}

proof fn lemma_all_cards_prefix(ds: Seq<Dashboard>, d: int)
    requires
        0 <= d < ds.len(),
    ensures
        all_cards(ds.take(d + 1)) == all_cards(ds.take(d)) + flat_cards(ds[d]),
        zero_ids(all_cards(ds.take(d + 1))) == zero_ids(all_cards(ds.take(d))) + zero_ids(flat_cards(ds[d])),
        zero_ids(all_cards(ds.take(d + 1))) <= zero_ids(all_cards(ds)),
        max_id(all_cards(ds.take(d))) <= max_id(all_cards(ds)),
{
    assert(ds.take(d + 1).drop_last() =~= ds.take(d));
    lemma_zero_ids_concat(all_cards(ds.take(d)), flat_cards(ds[d]));
    lemma_all_cards_mono(ds, d + 1);
    lemma_all_cards_mono(ds, d);
}

proof fn lemma_all_cards_mono(ds: Seq<Dashboard>, d: int)
    requires
        0 <= d <= ds.len(),
    ensures
        zero_ids(all_cards(ds.take(d))) <= zero_ids(all_cards(ds)),
        max_id(all_cards(ds.take(d))) <= max_id(all_cards(ds)),
    decreases ds.len() - d,
{
    if d < ds.len() {
        lemma_all_cards_mono(ds, d + 1);
        assert(ds.take(d + 1).drop_last() =~= ds.take(d));
        lemma_zero_ids_concat(all_cards(ds.take(d)), flat_cards(ds[d]));
        lemma_max_id_concat(all_cards(ds.take(d)), flat_cards(ds[d]));
    } else {
        assert(ds.take(d) =~= ds);
    }
}

proof fn lemma_max_id_concat(a: Seq<Card>, b: Seq<Card>)
    ensures
        max_id(a) <= max_id(a + b),
        forall|i: int| 0 <= i < b.len() ==> (#[trigger] b[i]).id.0 <= max_id(a + b),
    decreases b.len(),
{
    if b.len() == 0 {
        assert(a + b =~= a);
    } else {
        lemma_max_id_concat(a, b.drop_last());
        assert((a + b).drop_last() =~= a + b.drop_last());
        assert forall|i: int| 0 <= i < b.len() implies (#[trigger] b[i]).id.0 <= max_id(a + b) by {
            if i < b.len() - 1 {
                assert(b[i] == b.drop_last()[i]);
            }
        }
    }
}

/// The dashboards of a freshly read file, finished: every card without an id
/// gets the next one after the largest id in the file (counting up in file
/// order), every graph card is normalized, and a graph with no entity at all
/// refuses the file.
pub fn finish_load(file: DashboardFile) -> (r: Result<DashboardFile, LoadError>)
    requires
        all_counts_fit(file.dashboards@),
        max_id(all_cards(file.dashboards@)) + zero_ids(all_cards(file.dashboards@)) < u64::MAX,
    ensures
        ({
            let ds = file.dashboards@;
            let base = max_id(all_cards(ds)) + 1;
            match r {
                Err(LoadError::GraphWithoutEntities { dashboard, card }) => {
                    &&& bare_at(ds, dashboard as int, card as int)
                    &&& forall|d2: int, c2: int| before(d2, c2, dashboard as int, card as int) ==> !#[trigger] bare_at(ds, d2, c2)
                },
                Ok(f) => {
                    &&& forall|d: int, c: int| !#[trigger] bare_at(ds, d, c)
                    &&& finished(ds, f.dashboards@)
                },
            }
        }),
{
    let ghost ds0 = file.dashboards@;
    let ghost all0 = all_cards(ds0);
    let mut max: u64 = 0;
    {
        let cards = cards_of_all(&file.dashboards);
        let mut i: usize = 0;
        while i < cards.len()
            invariant
                i <= cards@.len(),
                cards@.len() == all0.len(),
                forall|k: int| 0 <= k < cards@.len() ==> *(#[trigger] cards@[k]) == all0[k],
                max == max_id(all0.take(i as int)),
            decreases cards.len() - i,
        {
            assert(all0.take(i as int + 1).drop_last() =~= all0.take(i as int));
            if cards[i].id.0 > max {
                max = cards[i].id.0;
            }
            i = i + 1;
        }
        assert(all0.take(all0.len() as int) =~= all0);
    }
    let ghost base: int = max + 1;
    let mut next: u64 = max + 1;
    let mut rest = file.dashboards;
    let mut out: Vec<Dashboard> = Vec::new();
    let n = rest.len();
    let mut d: usize = 0;
    while d < n
        invariant
            n == ds0.len(),
            d <= n,
            all0 == all_cards(ds0),
            all_counts_fit(ds0),
            base == max_id(all0) + 1,
            max_id(all0) + zero_ids(all0) < u64::MAX,
            rest@ == ds0.skip(d as int),
            ds0 == file.dashboards@,
            out@.len() == d,
            next == base + zero_ids(all_cards(ds0.take(d as int))),
            forall|d2: int, c2: int| 0 <= d2 < d ==> !#[trigger] bare_at(ds0, d2, c2),
            forall|k: int| 0 <= k < d ==> {
                &&& same_shape(ds0[k], #[trigger] out@[k])
                &&& flat_cards(out@[k]).len() == flat_cards(ds0[k]).len()
                &&& forall|c: int| 0 <= c < flat_cards(ds0[k]).len() ==> loaded_card(
                    flat_cards(ds0[k])[c],
                    base + zeros_before(ds0, k, c),
                    #[trigger] flat_cards(out@[k])[c],
                )
            },
        decreases n - d,
    {
        let mut dash = rest.remove(0);
        let ghost orig = dash;
        assert(orig == ds0[d as int]);
        assert(rest@ =~= ds0.skip(d as int + 1));
        proof {
            lemma_all_cards_prefix(ds0, d as int);
        }
        let m = dash.card_count();
        let mut c: usize = 0;
        while c < m
            invariant
                m == flat_cards(orig).len(),
                c <= m,
                orig == ds0[d as int],
                d < n,
                n == ds0.len(),
                count_fits(dash),
                flat_cards(dash).len() == m,
                same_shape(orig, dash),
                base == max_id(all0) + 1,
                all0 == all_cards(ds0),
                max_id(all0) + zero_ids(all0) < u64::MAX,
                zero_ids(all_cards(ds0.take(d as int))) + zero_ids(flat_cards(orig)) <= zero_ids(all0),
                next == base + zeros_before(ds0, d as int, c as int),
                ds0 == file.dashboards@,
                forall|d2: int, c2: int| 0 <= d2 < d ==> !#[trigger] bare_at(ds0, d2, c2),
                forall|c2: int| 0 <= c2 < c ==> !#[trigger] bare_at(ds0, d as int, c2),
                forall|k: int| c <= k < m ==> #[trigger] flat_cards(dash)[k] == flat_cards(orig)[k],
                forall|k: int| 0 <= k < c ==> loaded_card(
                    flat_cards(orig)[k],
                    base + zeros_before(ds0, d as int, k),
                    #[trigger] flat_cards(dash)[k],
                ),
            decreases m - c,
        {
            let ghost before_dash = dash;
            let ghost next_old: int = next as int;
            proof {
                lemma_zero_ids_prefix(flat_cards(orig), c as int + 1);
                assert(flat_cards(orig).take(c as int + 1).drop_last() =~= flat_cards(orig).take(c as int));
            }
            let ghost mut pre: Card = flat_cards(dash)[c as int];
            let bare = match dash.card_mut(c) {
                Some(card) => {
                    if card.id.is_zero() {
                        card.id = CardId(next);
                        next = next + 1;
                    }
                    proof {
                        pre = *card;
                    }
                    card.normalize();
                    match &card.kind {
                        CardKind::Graph { entities, .. } => entities.len() == 0,
                        _ => false,
                    }
                },
                None => false,
            };
            proof {
                let a = flat_cards(orig)[c as int];
                assert(flat_cards(before_dash)[c as int] == a);
                assert(pre == Card { id: CardId(final_id(a, next_old)), ..a });
                assert(normalized(pre, flat_cards(dash)[c as int]));
                assert(bare == bare_graph(a));
                lemma_same_shape_trans(orig, before_dash, dash);
                assert(loaded_card(a, base + zeros_before(ds0, d as int, c as int), flat_cards(dash)[c as int]));
            }
            if bare {
                return Err(LoadError::GraphWithoutEntities { dashboard: d, card: c });
            }
            c = c + 1;
        }
        assert(flat_cards(orig).take(m as int) =~= flat_cards(orig));
        out.push(dash);
        d = d + 1;
    }
    Ok(DashboardFile { dashboards: out })
}

/// Same shape is transitive.
pub proof fn lemma_same_shape_trans(a: Dashboard, b: Dashboard, c: Dashboard)
    requires
        same_shape(a, b),
        same_shape(b, c),
    ensures
        same_shape(a, c),
{
    let ra = crate::grid_ops::grid_rows(a);
    let rb = crate::grid_ops::grid_rows(b);
    let rc = crate::grid_ops::grid_rows(c);
    assert forall|r: int| 0 <= r < ra.len() implies {
        &&& (#[trigger] ra[r]).height == rc[r].height
        &&& ra[r].fill_height == rc[r].fill_height
        &&& ra[r].columns@.len() == rc[r].columns@.len()
        &&& forall|k: int| 0 <= k < ra[r].columns@.len() ==> (#[trigger] ra[r].columns@[k]).fill_height
            == rc[r].columns@[k].fill_height && ra[r].columns@[k].cards@.len() == rc[r].columns@[k].cards@.len()
    } by {
        assert(rb[r].height == rc[r].height);
        assert forall|k: int| 0 <= k < ra[r].columns@.len() implies (#[trigger] ra[r].columns@[k]).fill_height
            == rc[r].columns@[k].fill_height && ra[r].columns@[k].cards@.len() == rc[r].columns@[k].cards@.len() by {
            assert(rb[r].columns@[k].fill_height == rc[r].columns@[k].fill_height);
        }
    }
}

} // verus!
