//! Entity search for the pickers, and the entity lists that list cards show.
use vstd::prelude::*;

use crate::dashboard::{Alias, Card, CardKind, EntityId, EntityListItem};
use crate::ha::{attr_member, key_at, obj_get, state_entries, state_map_get, state_map_values, AttrValue, EntityState, InstanceRuntime};
use crate::query::{matching_ids, parse_spec, resolve, string_views};
use crate::sort::{lemma_multiset_map, sort_by_key, sorted_by_key, SortKey};
use crate::strings::{char_len, contains_str, occurs_at, starts_with, starts_with_exec, str_eq, to_owned_string};

verus! {

/// ASCII lower-casing of one character; every other character is kept.
pub open spec fn ascii_lower(c: char) -> char {
    if 'A' <= c && c <= 'Z' {
        ((c as u32) + 32) as char
    } else {
        c
    }
}

/// `str::to_ascii_lowercase` on a character sequence.
pub open spec fn lower_seq(s: Seq<char>) -> Seq<char> {
    s.map_values(|c: char| ascii_lower(c))
}

fn lower_code(c: char) -> (r: u32)
    ensures
        r == ascii_lower(c) as u32,
{
    let x = c as u32;
    if 65 <= x && x <= 90 {
        x + 32
    } else {
        x
    }
}

/// `str::eq_ignore_ascii_case`: `a` and `b` are equal once both are lower-cased (ASCII only).
pub fn eq_ignore_ascii_case(a: &str, b: &str) -> (r: bool)
    ensures
        r == (lower_seq(a@) == lower_seq(b@)),
{
    let n = char_len(a);
    if n != char_len(b) {
        proof {
            assert(lower_seq(a@).len() != lower_seq(b@).len());
        }
        return false;
    }
    let ghost la = lower_seq(a@);
    let ghost lb = lower_seq(b@);
    let mut i: usize = 0;
    while i < n
        invariant
            n == a@.len(),
            n == b@.len(),
            la == lower_seq(a@),
            lb == lower_seq(b@),
            i <= n,
            forall|k: int| 0 <= k < i ==> la[k] == lb[k],
        decreases n - i,
    {
        let x = lower_code(a.get_char(i));
        let y = lower_code(b.get_char(i));
        proof {
            let ca = ascii_lower(a@[i as int]);
            let cb = ascii_lower(b@[i as int]);
            assert(la[i as int] == ca);
            assert(lb[i as int] == cb);
            assert((ca as u32 == cb as u32) <==> ca == cb);
        }
        if x != y {
            return false;
        }
        i = i + 1;
    }
    proof {
        assert(la =~= lb);
    }
    true
}

/// `t` occurs in `s` once both are lower-cased (ASCII only).
pub fn contains_ignore_ascii_case(s: &str, t: &str) -> (r: bool)
    ensures
        r == contains_str(lower_seq(s@), lower_seq(t@)),
{
    let n = char_len(s);
    let m = char_len(t);
    let ghost ls = lower_seq(s@);
    let ghost lt = lower_seq(t@);
    if m > n {
        proof {
            assert forall|i: int| !occurs_at(ls, lt, i) by {}
        }
        return false;
    }
    let mut i: usize = 0;
    while i <= n - m
        invariant
            n == s@.len(),
            m == t@.len(),
            m <= n,
            ls == lower_seq(s@),
            lt == lower_seq(t@),
            i <= n - m + 1,
            forall|k: int| 0 <= k < i ==> !occurs_at(ls, lt, k),
        decreases n - m + 1 - i,
    {
        let mut j: usize = 0;
        let mut same = true;
        while j < m
            invariant
                n == s@.len(),
                m == t@.len(),
                i + m <= n,
                ls == lower_seq(s@),
                lt == lower_seq(t@),
                j <= m,
                same == forall|k: int| 0 <= k < j ==> ls[i + k] == lt[k],
            decreases m - j,
        {
            let a = lower_code(s.get_char(i + j));
            let b = lower_code(t.get_char(j));
            proof {
                let ca = ascii_lower(s@[i + j]);
                let cb = ascii_lower(t@[j as int]);
                assert(ls[i + j] == ca);
                assert(lt[j as int] == cb);
                assert((ca as u32 == cb as u32) <==> ca == cb);
            }
            if a != b {
                same = false;
            }
            j = j + 1;
        }
        if same {
            proof {
                assert(ls.subrange(i as int, i + m) =~= lt);
                assert(occurs_at(ls, lt, i as int));
            }
            return true;
        }
        proof {
            if occurs_at(ls, lt, i as int) {
                assert(ls.subrange(i as int, i + m) == lt);
                assert(forall|k: int| 0 <= k < m ==> #[trigger] ls.subrange(i as int, i + m)[k] == ls[i + k]);
            }
        }
        i = i + 1;
    }
    proof {
        assert forall|k: int| !occurs_at(ls, lt, k) by {
            if occurs_at(ls, lt, k) {
                assert(k < i);
            }
        }
    }
    false
}

/// One row of the entity picker.
#[derive(Debug)]
pub struct EntityPick {
    pub entity_id: String,
    pub friendly_name: String,
}

impl SortKey for EntityPick {
    open spec fn key_view(&self) -> Seq<char> {
        self.entity_id@
    }

    fn sort_key(&self) -> (r: &str) {
        self.entity_id.as_str()
    }
}

/// An entity's `friendly_name` attribute when it is a string, else empty.
pub open spec fn friendly_name_spec(attrs: AttrValue) -> Seq<char> {
    match obj_get(attrs, "friendly_name"@) {
        Some(AttrValue::Text(s)) => s@,
        _ => Seq::empty(),
    }
}

fn friendly_name(attrs: &AttrValue) -> (r: String)
    ensures
        r@ == friendly_name_spec(*attrs),
{
    match attr_member(attrs, "friendly_name") {
        Some(AttrValue::Text(s)) => s.clone(),
        _ => String::new(),
    }
}

/// Whether the picker keeps an entity: it has the domain prefix (when one is
/// given) and, unless the query is empty, its id or friendly name contains
/// the query, ignoring ASCII case.
pub open spec fn pick_kept(id: Seq<char>, name: Seq<char>, query: Seq<char>, prefix: Option<Seq<char>>) -> bool {
    &&& (prefix matches Some(p) ==> starts_with(id, p))
    &&& (lower_seq(query).len() == 0 || contains_str(lower_seq(id), lower_seq(query)) || contains_str(
        lower_seq(name),
        lower_seq(query),
    ))
}

/// (entity id, friendly name) of the states the picker keeps, in map order.
pub open spec fn kept_picks(entries: Seq<(Seq<char>, EntityState)>, query: Seq<char>, prefix: Option<Seq<char>>) -> Seq<(Seq<char>, Seq<char>)>
    decreases entries.len(),
{
    if entries.len() == 0 {
        Seq::empty()
    } else {
        let prev = kept_picks(entries.drop_last(), query, prefix);
        let st = entries.last().1;
        let name = friendly_name_spec(st.attributes);
        if pick_kept(st.entity_id@, name, query, prefix) {
            prev.push((st.entity_id@, name))
        } else {
            prev
        }
    }
}

pub open spec fn pick_view(p: EntityPick) -> (Seq<char>, Seq<char>) {
    (p.entity_id@, p.friendly_name@)
}

/// `i` is the first runtime whose alias is `alias`.
pub open spec fn first_runtime(rts: Seq<InstanceRuntime>, alias: Seq<char>, i: int) -> bool {
    0 <= i < rts.len() && rts[i].alias@ == alias && forall|j: int| 0 <= j < i ==> (#[trigger] rts[j]).alias@ != alias
}

/// The runtime of the instance named `alias`.
pub fn find_runtime<'a>(runtimes: &'a Vec<InstanceRuntime>, alias: &str) -> (r: Option<&'a InstanceRuntime>)
    ensures
        match r {
            Some(rt) => exists|i: int| first_runtime(runtimes@, alias@, i) && runtimes@[i] == *rt,
            None => forall|i: int| 0 <= i < runtimes@.len() ==> (#[trigger] runtimes@[i]).alias@ != alias@,
        },
{
    let mut i: usize = 0;
    while i < runtimes.len()
        invariant
            i <= runtimes@.len(),
            forall|j: int| 0 <= j < i ==> (#[trigger] runtimes@[j]).alias@ != alias@,
        decreases runtimes.len() - i,
    {
        if str_eq(runtimes[i].alias.as_str(), alias) {
            proof {
                assert(first_runtime(runtimes@, alias@, i as int));
            }
            return Some(&runtimes[i]);
        }
        i = i + 1;
    }
    None
}

/// `r` is the picker's list for `query` on the instance named `instance`:
/// nothing for an unknown instance, else the kept entities sorted by id.
pub open spec fn search_result(runtimes: Seq<InstanceRuntime>, instance: Seq<char>, query: Seq<char>, prefix: Option<Seq<char>>, r: Seq<EntityPick>) -> bool {
    &&& (forall|i: int| 0 <= i < runtimes.len() ==> (#[trigger] runtimes[i]).alias@ != instance) ==> r.len() == 0
    &&& forall|i: int| #[trigger] first_runtime(runtimes, instance, i) ==> {
        &&& sorted_by_key(r)
        &&& r.map_values(|p: EntityPick| pick_view(p)).to_multiset() == kept_picks(
            state_entries(runtimes[i].states),
            query,
            prefix,
        ).to_multiset()
    }
}

/// Entities of one instance for the picker, sorted by id. An unknown instance
/// gives nothing.
pub fn entity_search_filtered(runtimes: &Vec<InstanceRuntime>, instance: &str, query: &str, domain_prefix: Option<&str>) -> (r: Vec<EntityPick>)
    ensures
        search_result(runtimes@, instance@, query@, match domain_prefix {
            Some(p) => Some(p@),
            None => None,
        }, r@),
{
    let rt = match find_runtime(runtimes, instance) {
        None => {
            return Vec::new();
        },
        Some(rt) => rt,
    };
    let ghost pre = match domain_prefix {
        Some(p) => Some(p@),
        None => None,
    };
    let empty_query = char_len(query) == 0;
    let states = state_map_values(&rt.states);
    let ghost entries = state_entries(rt.states);
    let mut out: Vec<EntityPick> = Vec::new();
    let mut i: usize = 0;
    while i < states.len()
        invariant
            i <= states@.len(),
            states@.len() == entries.len(),
            forall|k: int| 0 <= k < states@.len() ==> *(#[trigger] states@[k]) == entries[k].1,
            empty_query == (lower_seq(query@).len() == 0),
            pre == match domain_prefix {
                Some(p) => Some(p@),
                None => None,
            },
            out@.map_values(|p: EntityPick| pick_view(p)) == kept_picks(entries.take(i as int), query@, pre),
        decreases states.len() - i,
    {
        let st = states[i];
        assert(entries.take(i as int + 1).drop_last() =~= entries.take(i as int));
        let name = friendly_name(&st.attributes);
        let prefix_ok = match domain_prefix {
            Some(p) => starts_with_exec(st.entity_id.as_str(), p),
            None => true,
        };
        let keep = prefix_ok && (empty_query || contains_ignore_ascii_case(st.entity_id.as_str(), query)
            || contains_ignore_ascii_case(name.as_str(), query));
        if keep {
            let ghost before = out@.map_values(|p: EntityPick| pick_view(p));
            out.push(EntityPick { entity_id: st.entity_id.clone(), friendly_name: name });
            assert(out@.map_values(|p: EntityPick| pick_view(p)) =~= before.push((st.entity_id@, friendly_name_spec(st.attributes))));
        }
        i = i + 1;
    }
    assert(entries.take(states@.len() as int) =~= entries);
    let sorted = sort_by_key(out);
    proof {
        lemma_multiset_map(sorted@, out@, |p: EntityPick| pick_view(p));
        assert forall|k: int| #[trigger] first_runtime(runtimes@, instance@, k) implies runtimes@[k] == *rt by {
            let w = choose|w: int| first_runtime(runtimes@, instance@, w) && runtimes@[w] == *rt;
            if k < w {
                assert(runtimes@[k].alias@ != instance@);
            } else if w < k {
                assert(runtimes@[w].alias@ != instance@);
            }
        }
    }
    sorted
}

/// `entity_search_filtered` with no domain prefix.
pub fn entity_search(runtimes: &Vec<InstanceRuntime>, instance: &str, query: &str) -> (r: Vec<EntityPick>)
    ensures
        search_result(runtimes@, instance@, query@, None, r@),
{
    entity_search_filtered(runtimes, instance, query, None)
}

/// The entity id of a list item.
pub open spec fn item_id(item: EntityListItem) -> Seq<char> {
    match item {
        EntityListItem::Bare(e) => e@,
        EntityListItem::Full { entity, .. } => entity@,
    }
}

/// What `resolve` gives for a query against the runtime of `instance`.
pub open spec fn resolved_for(runtimes: Seq<InstanceRuntime>, instance: Seq<char>, query: Seq<char>, ids: Seq<String>) -> bool {
    &&& (forall|i: int| 0 <= i < runtimes.len() ==> (#[trigger] runtimes[i]).alias@ != instance) ==> ids.len() == 0
    &&& forall|i: int| #[trigger] first_runtime(runtimes, instance, i) ==> match parse_spec(query) {
        Err(_) => ids.len() == 0,
        Ok(q) => {
            &&& sorted_by_key(ids)
            &&& string_views(ids).to_multiset() == matching_ids(state_entries(runtimes[i].states), q).to_multiset()
        },
    }
}

/// `r` is the instance and entity ids of card `c` when it shows a list of
/// entities: the items of an entity list, or what a filtered list's query
/// resolves to; `None` for any other card.
pub open spec fn entities_listed(c: Card, rts: Seq<InstanceRuntime>, r: Option<(Alias, Vec<String>)>) -> bool {
    match c.kind {
        CardKind::EntityList { instance, entities, .. } => r matches Some((a, ids)) && a@ == instance@ && string_views(ids@)
            == entities@.map_values(|it: EntityListItem| item_id(it)),
        CardKind::FilteredEntityList { instance, query, .. } => r matches Some((a, ids)) && a@ == instance@ && resolved_for(
            rts,
            instance@,
            query@,
            ids@,
        ),
        _ => r is None,
    }
}

/// The instance and entity ids of a card that shows a list of entities: the
/// items of an entity list, or what a filtered list's query resolves to.
/// Any other card gives `None`.
pub fn list_entities(card: &Card, runtimes: &Vec<InstanceRuntime>) -> (r: Option<(Alias, Vec<String>)>)
    ensures
        entities_listed(*card, runtimes@, r),
{
    match &card.kind {
        CardKind::EntityList { instance, entities, .. } => {
            let mut ids: Vec<String> = Vec::new();
            let mut i: usize = 0;
            while i < entities.len()
                invariant
                    i <= entities@.len(),
                    string_views(ids@) == entities@.take(i as int).map_values(|it: EntityListItem| item_id(it)),
                decreases entities.len() - i,
            {
                let ghost before = ids@;
                ids.push(entities[i].entity_id().clone());
                assert(string_views(ids@) =~= string_views(before).push(item_id(entities@[i as int])));
                assert(entities@.take(i as int + 1).map_values(|it: EntityListItem| item_id(it)) =~= entities@.take(
                    i as int,
                ).map_values(|it: EntityListItem| item_id(it)).push(item_id(entities@[i as int])));
                i = i + 1;
            }
            assert(entities@.take(entities@.len() as int) =~= entities@);
            Some((instance.clone(), ids))
        },
        CardKind::FilteredEntityList { instance, query, .. } => {
            let rt = find_runtime(runtimes, instance.as_str());
            let ids = resolve(rt, query.as_str());
            proof {
                assert forall|k: int| #[trigger] first_runtime(runtimes@, instance@, k) implies rt == Some(&runtimes@[k]) by {
                    if rt is None {
                        assert(runtimes@[k].alias@ != instance@);
                    } else {
                        let w = choose|w: int| first_runtime(runtimes@, instance@, w) && runtimes@[w] == *rt->0;
                        if k < w {
                            assert(runtimes@[k].alias@ != instance@);
                        } else if w < k {
                            assert(runtimes@[w].alias@ != instance@);
                        }
                    }
                }
                if forall|i: int| 0 <= i < runtimes@.len() ==> (#[trigger] runtimes@[i]).alias@ != instance@ {
                    if rt is Some {
                        let w = choose|w: int| first_runtime(runtimes@, instance@, w) && runtimes@[w] == *rt->0;
                        assert(runtimes@[w].alias@ != instance@);
                    }
                }
            }
            Some((instance.clone(), ids))
        },
        _ => None,
    }
}

/// `name` is the friendly name of entity `eid` of instance `inst`: that of a
/// state stored under `eid` in the instance's runtime, or empty when there
/// is no such runtime or state.
pub open spec fn friendly_of(rts: Seq<InstanceRuntime>, inst: Seq<char>, eid: Seq<char>, name: Seq<char>) -> bool {
    if exists|i: int| first_runtime(rts, inst, i) {
        let e = state_entries(rts[choose|i: int| first_runtime(rts, inst, i)].states);
        if exists|k: int| key_at(e, eid, k) {
            exists|k: int| key_at(e, eid, k) && name == friendly_name_spec(e[k].1.attributes)
        } else {
            name.len() == 0
        }
    } else {
        name.len() == 0
    }
}

proof fn lemma_first_runtime_unique(rts: Seq<InstanceRuntime>, inst: Seq<char>, i: int, j: int)
    requires
        first_runtime(rts, inst, i),
        first_runtime(rts, inst, j),
    ensures
        i == j,
{
    if i < j {
        assert(rts[i].alias@ != inst);
    } else if j < i {
        assert(rts[j].alias@ != inst);
    }
}

/// The friendly name of entity `eid` of instance `inst`, empty when unknown.
pub fn friendly_for(runtimes: &Vec<InstanceRuntime>, inst: &str, eid: &str) -> (r: String)
    ensures
        friendly_of(runtimes@, inst@, eid@, r@),
{
    match find_runtime(runtimes, inst) {
        Some(rt) => {
            proof {
                let i = choose|i: int| first_runtime(runtimes@, inst@, i) && runtimes@[i] == *rt;
                let c = choose|i: int| first_runtime(runtimes@, inst@, i);
                lemma_first_runtime_unique(runtimes@, inst@, i, c);
            }
            match state_map_get(&rt.states, eid) {
                Some(st) => friendly_name(&st.attributes),
                None => String::new(),
            }
        },
        None => {
            proof {
                if exists|i: int| first_runtime(runtimes@, inst@, i) {
                    let c = choose|i: int| first_runtime(runtimes@, inst@, i);
                    assert(runtimes@[c].alias@ == inst@);
                }
            }
            String::new()
        },
    }
}

proof fn lemma_kept_contains(entries: Seq<(Seq<char>, EntityState)>, query: Seq<char>, prefix: Option<Seq<char>>, k: int)
    requires
        0 <= k < entries.len(),
        pick_kept(entries[k].1.entity_id@, friendly_name_spec(entries[k].1.attributes), query, prefix),
    ensures
        kept_picks(entries, query, prefix).contains((entries[k].1.entity_id@, friendly_name_spec(entries[k].1.attributes))),
    decreases entries.len(),
{
    let x = (entries[k].1.entity_id@, friendly_name_spec(entries[k].1.attributes));
    let prev = kept_picks(entries.drop_last(), query, prefix);
    if k == entries.len() - 1 {
        let st = entries.last().1;
        assert(kept_picks(entries, query, prefix) == prev.push(x));
        assert(prev.push(x)[prev.len() as int] == x);
    } else {
        assert(entries.drop_last()[k] == entries[k]);
        lemma_kept_contains(entries.drop_last(), query, prefix, k);
        let j = choose|j: int| 0 <= j < prev.len() && prev[j] == x;
        let st = entries.last().1;
        let name = friendly_name_spec(st.attributes);
        if pick_kept(st.entity_id@, name, query, prefix) {
            assert(prev.push((st.entity_id@, name))[j] == x);
        }
    }
}

/// The picker finds an entity of the instance by its friendly name: when the
/// name contains the query, ignoring ASCII case, and the id has the domain
/// prefix (if one is given), the entity is among the results, whether or not
/// its id contains the query.
pub proof fn law_search_finds_by_friendly_name(
    runtimes: Seq<InstanceRuntime>,
    instance: Seq<char>,
    query: Seq<char>,
    prefix: Option<Seq<char>>,
    r: Seq<EntityPick>,
    i: int,
    k: int,
)
    requires
        search_result(runtimes, instance, query, prefix, r),
        first_runtime(runtimes, instance, i),
        0 <= k < state_entries(runtimes[i].states).len(),
        prefix matches Some(p) ==> starts_with(state_entries(runtimes[i].states)[k].1.entity_id@, p),
        contains_str(
            lower_seq(friendly_name_spec(state_entries(runtimes[i].states)[k].1.attributes)),
            lower_seq(query),
        ),
    ensures
        ({
            let st = state_entries(runtimes[i].states)[k].1;
            exists|j: int| 0 <= j < r.len() && pick_view(#[trigger] r[j]) == (st.entity_id@, friendly_name_spec(st.attributes))
        }),
{
    broadcast use vstd::seq_lib::group_to_multiset_ensures;

    let e = state_entries(runtimes[i].states);
    let st = e[k].1;
    let x = (st.entity_id@, friendly_name_spec(st.attributes));
    lemma_kept_contains(e, query, prefix, k);
    let kept = kept_picks(e, query, prefix);
    let views = r.map_values(|p: EntityPick| pick_view(p));
    assert(kept.to_multiset().count(x) > 0);
    assert(views.to_multiset().count(x) > 0);
    assert(views.contains(x));
    let j = choose|j: int| 0 <= j < views.len() && views[j] == x;
    assert(pick_view(r[j]) == x);
}

/// The picker also finds an entity whose id contains the query, ignoring
/// ASCII case (with the domain prefix, if one is given), and with an empty
/// query it lists every entity with the prefix.
pub proof fn law_search_finds_by_id(
    runtimes: Seq<InstanceRuntime>,
    instance: Seq<char>,
    query: Seq<char>,
    prefix: Option<Seq<char>>,
    r: Seq<EntityPick>,
    i: int,
    k: int,
)
    requires
        search_result(runtimes, instance, query, prefix, r),
        first_runtime(runtimes, instance, i),
        0 <= k < state_entries(runtimes[i].states).len(),
        prefix matches Some(p) ==> starts_with(state_entries(runtimes[i].states)[k].1.entity_id@, p),
        query.len() == 0 || contains_str(lower_seq(state_entries(runtimes[i].states)[k].1.entity_id@), lower_seq(query)),
    ensures
        ({
            let st = state_entries(runtimes[i].states)[k].1;
            exists|j: int| 0 <= j < r.len() && pick_view(#[trigger] r[j]) == (st.entity_id@, friendly_name_spec(st.attributes))
        }),
{
    broadcast use vstd::seq_lib::group_to_multiset_ensures;

    let e = state_entries(runtimes[i].states);
    let st = e[k].1;
    let x = (st.entity_id@, friendly_name_spec(st.attributes));
    assert(query.len() == 0 ==> lower_seq(query).len() == 0);
    lemma_kept_contains(e, query, prefix, k);
    let kept = kept_picks(e, query, prefix);
    let views = r.map_values(|p: EntityPick| pick_view(p));
    assert(kept.to_multiset().count(x) > 0);
    assert(views.to_multiset().count(x) > 0);
    assert(views.contains(x));
    let j = choose|j: int| 0 <= j < views.len() && views[j] == x;
    assert(pick_view(r[j]) == x);
}

proof fn lemma_kept_sound(entries: Seq<(Seq<char>, EntityState)>, query: Seq<char>, prefix: Option<Seq<char>>, x: (Seq<char>, Seq<char>))
    requires
        kept_picks(entries, query, prefix).contains(x),
    ensures
        exists|k: int| 0 <= k < entries.len() && x == (#[trigger] entries[k].1.entity_id@, friendly_name_spec(entries[k].1.attributes))
            && pick_kept(x.0, x.1, query, prefix),
    decreases entries.len(),
{
    let prev = kept_picks(entries.drop_last(), query, prefix);
    let st = entries.last().1;
    let name = friendly_name_spec(st.attributes);
    if prev.contains(x) {
        lemma_kept_sound(entries.drop_last(), query, prefix, x);
        let k = choose|k: int| 0 <= k < entries.drop_last().len() && x == (#[trigger] entries.drop_last()[k].1.entity_id@,
            friendly_name_spec(entries.drop_last()[k].1.attributes)) && pick_kept(x.0, x.1, query, prefix);
        assert(entries.drop_last()[k] == entries[k]);
    } else {
        let j = choose|j: int| 0 <= j < kept_picks(entries, query, prefix).len() && kept_picks(entries, query, prefix)[j] == x;
        if pick_kept(st.entity_id@, name, query, prefix) {
            if j < prev.len() {
                assert(prev[j] == x);
            }
            assert(x == (entries[entries.len() - 1].1.entity_id@, friendly_name_spec(entries[entries.len() - 1].1.attributes)));
        } else {
            assert(prev[j] == x);
        }
    }
}

/// Every entity the picker lists belongs to the instance, has the domain
/// prefix (if one is given), and, unless the query is empty, its id or
/// friendly name contains the query, ignoring ASCII case.
pub proof fn law_search_lists_only_matches(
    runtimes: Seq<InstanceRuntime>,
    instance: Seq<char>,
    query: Seq<char>,
    prefix: Option<Seq<char>>,
    r: Seq<EntityPick>,
    i: int,
    j: int,
)
    requires
        search_result(runtimes, instance, query, prefix, r),
        first_runtime(runtimes, instance, i),
        0 <= j < r.len(),
    ensures
        ({
            let (id, name) = pick_view(r[j]);
            &&& exists|k: int| 0 <= k < state_entries(runtimes[i].states).len() && (#[trigger] state_entries(
                runtimes[i].states,
            )[k]).1.entity_id@ == id
            &&& prefix matches Some(p) ==> starts_with(id, p)
            &&& query.len() == 0 || contains_str(lower_seq(id), lower_seq(query)) || contains_str(lower_seq(name), lower_seq(query))
        }),
{
    broadcast use vstd::seq_lib::group_to_multiset_ensures;

    let e = state_entries(runtimes[i].states);
    let views = r.map_values(|p: EntityPick| pick_view(p));
    let x = pick_view(r[j]);
    assert(views[j] == x);
    assert(views.contains(x));
    assert(views.to_multiset().count(x) > 0);
    let kept = kept_picks(e, query, prefix);
    assert(kept.to_multiset().count(x) > 0);
    assert(kept.contains(x));
    lemma_kept_sound(e, query, prefix, x);
    assert(lower_seq(query).len() == query.len());
}

} // verus!
