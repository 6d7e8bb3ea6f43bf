//! Home Assistant entity state as the library sees it.
use vstd::prelude::*;

use indexmap::IndexMap;

use crate::strings::lex_lt;
use std::collections::hash_map::RandomState;

verus! {

/// An entity attribute value. Objects keep their keys (each once, in the order
/// Home Assistant sent them); every value that is not a string or null keeps
/// its compact JSON text, which is what attribute filters compare against.
#[derive(Debug)]
pub enum AttrValue {
    Null,
    Text(String),
    /// A number, boolean or array, with its JSON text.
    Other(String),
    /// An object: its entries and its JSON text.
    Object(Vec<(String, AttrValue)>, String),
}

/// The last known state of one entity.
#[derive(Debug)]
pub struct EntityState {
    pub entity_id: String,
    pub state: String,
    pub attributes: AttrValue,
    pub last_changed: Option<String>,
    pub last_updated: Option<String>,
}

/// Connection status of one Home Assistant instance.
#[derive(Clone, Copy, PartialEq, Eq, Structural, Debug)]
pub enum ConnStatus {
    Disconnected,
    Connecting,
    Authenticating,
    Connected,
    Failed,
}

#[derive(Clone, Copy, PartialEq, Eq, Structural, Debug)]
pub enum ImageFetchKind {
    Image,
    Camera,
    MediaPlayerThumbnail,
}

#[derive(Clone, Copy, PartialEq, Eq, Structural, Debug)]
pub enum ForecastKind {
    Daily,
    Hourly,
}

/// `i` is the first entry of `entries` whose key is `key`.
pub open spec fn first_key(entries: Seq<(String, AttrValue)>, key: Seq<char>, i: int) -> bool {
    0 <= i < entries.len() && entries[i].0@ == key && forall|j: int|
        0 <= j < i ==> (#[trigger] entries[j]).0@ != key
}

/// `Value::get(key)`: the member of an object named `key`.
pub open spec fn obj_get(v: AttrValue, key: Seq<char>) -> Option<AttrValue> {
    match v {
        AttrValue::Object(entries, _) => if exists|i: int| first_key(entries@, key, i) {
            Some(entries@[choose|i: int| first_key(entries@, key, i)].1)
        } else {
            None
        },
        _ => None,
    }
}

/// Member lookup on an attribute value.
#[verifier::loop_isolation(false)]
pub fn attr_member<'a>(v: &'a AttrValue, key: &str) -> (r: Option<&'a AttrValue>)
    ensures
        match r {
            Some(x) => obj_get(*v, key@) == Some(*x),
            None => obj_get(*v, key@) is None,
        },
{
    match v {
        AttrValue::Object(entries, _) => {
            let mut i: usize = 0;
            while i < entries.len()
                invariant
                    i <= entries@.len(),
                    forall|j: int| 0 <= j < i ==> (#[trigger] entries@[j]).0@ != key@,
                decreases entries.len() - i,
            {
                if crate::strings::str_eq(entries[i].0.as_str(), key) {
                    proof {
                        let w = choose|w: int| first_key(entries@, key@, w);
                        assert(first_key(entries@, key@, i as int));
                        assert(w == i as int) by {
                            if w < i {
                            } else if w > i {
                            }
                        }
                        assert(obj_get(*v, key@) == Some(entries@[i as int].1));
                    }
                    return Some(&entries[i].1);
                }
                i = i + 1;
            }
            None
        },
        _ => None,
    }
}


#[verifier::external_type_specification]
#[verifier::external_body]
#[verifier::reject_recursive_types(K)]
#[verifier::reject_recursive_types(V)]
#[verifier::reject_recursive_types(S)]
pub struct ExIndexMap<K, V, S>(IndexMap<K, V, S>);

#[verifier::external_type_specification]
#[verifier::external_body]
pub struct ExInstant(std::time::Instant);

/// The entries of an entity-state map, in insertion order: (entity id, state).
pub uninterp spec fn state_entries(m: IndexMap<String, EntityState, RandomState>) -> Seq<(Seq<char>, EntityState)>;

/// `i` is the index of the entry with key `key`.
pub open spec fn key_at(entries: Seq<(Seq<char>, EntityState)>, key: Seq<char>, i: int) -> bool {
    0 <= i < entries.len() && entries[i].0 == key
}

/// `IndexMap::new`: an empty map.
#[verifier::external_body]
pub(crate) fn state_map_new() -> (m: IndexMap<String, EntityState, RandomState>)
    ensures
        state_entries(m) == Seq::<(Seq<char>, EntityState)>::empty(),
{
    IndexMap::new()
}

/// `IndexMap::insert`: an existing key keeps its place and takes the new value;
/// a new key is appended last.
#[verifier::external_body]
pub(crate) fn state_map_insert(m: &mut IndexMap<String, EntityState, RandomState>, key: String, value: EntityState)
    ensures
        (exists|i: int| key_at(state_entries(*old(m)), key@, i)) ==> exists|i: int|
            key_at(state_entries(*old(m)), key@, i) && state_entries(*final(m)) == state_entries(*old(m)).update(
                i,
                (key@, value),
            ),
        !(exists|i: int| key_at(state_entries(*old(m)), key@, i)) ==> state_entries(*final(m))
            == state_entries(*old(m)).push((key@, value)),
{
    m.insert(key, value);
}

/// `IndexMap::get`: the value stored under `key`, when the key is present.
#[verifier::external_body]
pub(crate) fn state_map_get<'a>(m: &'a IndexMap<String, EntityState, RandomState>, key: &str) -> (r: Option<&'a EntityState>)
    ensures
        match r {
            Some(s) => exists|i: int| key_at(state_entries(*m), key@, i) && state_entries(*m)[i].1 == *s,
            None => !(exists|i: int| key_at(state_entries(*m), key@, i)),
        },
{
    m.get(key)
}

/// `IndexMap::values`: the values in entry order.
#[verifier::external_body]
pub(crate) fn state_map_values(m: &IndexMap<String, EntityState, RandomState>) -> (r: Vec<&EntityState>)
    ensures
        r@.len() == state_entries(*m).len(),
        forall|i: int| 0 <= i < r@.len() ==> *(#[trigger] r@[i]) == state_entries(*m)[i].1,
{
    m.values().collect()
}

/// `IndexMap::sort_keys`: the same entries, ordered by key (`String`'s
/// order, which is code-point order).
#[verifier::external_body]
pub(crate) fn state_map_sort_keys(m: &mut IndexMap<String, EntityState, RandomState>)
    ensures
        state_entries(*final(m)).to_multiset() == state_entries(*old(m)).to_multiset(),
        keys_sorted(state_entries(*final(m))),
{
    m.sort_keys();
}

/// Keys in ascending order.
pub open spec fn keys_sorted(e: Seq<(Seq<char>, EntityState)>) -> bool {
    forall|i: int, j: int| 0 <= i < j < e.len() ==> !lex_lt(#[trigger] e[j].0, #[trigger] e[i].0)
}

/// Keys pairwise distinct.
pub open spec fn keys_unique(e: Seq<(Seq<char>, EntityState)>) -> bool {
    forall|i: int, j: int| 0 <= i < j < e.len() ==> (#[trigger] e[i]).0 != (#[trigger] e[j]).0
}

/// The entries after inserting `(key, value)`: an existing key keeps its
/// place and takes the value, a new key goes last.
pub open spec fn with_entry(e: Seq<(Seq<char>, EntityState)>, key: Seq<char>, value: EntityState) -> Seq<(Seq<char>, EntityState)> {
    if exists|i: int| key_at(e, key, i) {
        e.update(choose|i: int| key_at(e, key, i), (key, value))
    } else {
        e.push((key, value))
    }
}

/// The entries of an empty map after inserting every state under its id, in order.
pub open spec fn entries_of(states: Seq<EntityState>) -> Seq<(Seq<char>, EntityState)>
    decreases states.len(),
{
    if states.len() == 0 {
        Seq::empty()
    } else {
        let st = states.last();
        with_entry(entries_of(states.drop_last()), st.entity_id@, st)
    }
}

proof fn lemma_insert_unique(before: Seq<(Seq<char>, EntityState)>, after: Seq<(Seq<char>, EntityState)>, key: Seq<char>, value: EntityState)
    requires
        keys_unique(before),
        (exists|i: int| key_at(before, key, i)) ==> exists|i: int| key_at(before, key, i) && after == before.update(i, (key, value)),
        !(exists|i: int| key_at(before, key, i)) ==> after == before.push((key, value)),
    ensures
        keys_unique(after),
        after == with_entry(before, key, value),
{
    if exists|k: int| key_at(before, key, k) {
        let k1 = choose|k: int| key_at(before, key, k) && after == before.update(k, (key, value));
        let k2 = choose|k: int| key_at(before, key, k);
        assert(k1 == k2) by {
            if k1 < k2 {
                assert(before[k1].0 != before[k2].0);
            } else if k2 < k1 {
                assert(before[k2].0 != before[k1].0);
            }
        }
        assert forall|x: int, y: int| 0 <= x < y < after.len() implies (#[trigger] after[x]).0 != (#[trigger] after[y]).0 by {
            assert(after[x].0 == before[x].0);
            assert(after[y].0 == before[y].0);
        }
    } else {
        assert forall|x: int, y: int| 0 <= x < y < after.len() implies (#[trigger] after[x]).0 != (#[trigger] after[y]).0 by {
            if y == before.len() {
                assert(!key_at(before, key, x));
            }
        }
    }
}

/// The live state of one Home Assistant instance.
pub struct InstanceRuntime {
    pub alias: String,
    pub url: String,
    pub status: ConnStatus,
    pub last_error: Option<String>,
    pub states: IndexMap<String, EntityState, RandomState>,
    pub last_update: Option<std::time::Instant>,
}

impl InstanceRuntime {
    pub fn new(alias: String, url: String) -> (r: Self)
        ensures
            r.alias == alias,
            r.url == url,
            r.status == ConnStatus::Disconnected,
            r.last_error is None,
            state_entries(r.states) == Seq::<(Seq<char>, EntityState)>::empty(),
            r.last_update is None,
    {
        InstanceRuntime {
            alias,
            url,
            status: ConnStatus::Disconnected,
            last_error: None,
            states: state_map_new(),
            last_update: None,
        }
    }

    /// Replace every known state with a full snapshot: each state under its
    /// entity id (a later duplicate wins), ordered by entity id.
    pub fn set_initial_states(&mut self, states: Vec<EntityState>)
        ensures
            final(self).alias == old(self).alias,
            final(self).url == old(self).url,
            final(self).status == old(self).status,
            final(self).last_error == old(self).last_error,
            final(self).last_update == old(self).last_update,
            keys_unique(state_entries(final(self).states)),
            keys_sorted(state_entries(final(self).states)),
            state_entries(final(self).states).to_multiset() == entries_of(states@).to_multiset(),
    {
        self.states = state_map_new();
        let ghost all = states@;
        let ghost mut taken: Seq<EntityState> = Seq::empty();
        let mut states_in = states;
        while states_in.len() > 0
            invariant
                all == taken + states_in@,
                self.alias == old(self).alias,
                self.url == old(self).url,
                self.status == old(self).status,
                self.last_error == old(self).last_error,
                self.last_update == old(self).last_update,
                keys_unique(state_entries(self.states)),
                state_entries(self.states) == entries_of(taken),
            decreases states_in.len(),
        {
            let st = states_in.remove(0);
            let key = st.entity_id.clone();
            let ghost before = state_entries(self.states);
            let ghost st_copy = st;
            state_map_insert(&mut self.states, key, st);
            proof {
                lemma_insert_unique(before, state_entries(self.states), st_copy.entity_id@, st_copy);
                let old_taken = taken;
                taken = taken.push(st_copy);
                assert(taken.drop_last() =~= old_taken);
                assert(all =~= taken + states_in@);
            }
        }
        assert(taken =~= all);
        let ghost unsorted = state_entries(self.states);
        state_map_sort_keys(&mut self.states);
        proof {
            lemma_multiset_keys_unique(unsorted, state_entries(self.states));
        }
    }

    /// Record a changed state under its entity id.
    pub fn apply_update(&mut self, state: EntityState)
        requires
            keys_unique(state_entries(old(self).states)),
        ensures
            final(self).alias == old(self).alias,
            final(self).url == old(self).url,
            final(self).status == old(self).status,
            final(self).last_error == old(self).last_error,
            final(self).last_update == old(self).last_update,
            keys_unique(state_entries(final(self).states)),
            state_entries(final(self).states) == with_entry(state_entries(old(self).states), state.entity_id@, state),
    {
        let key = state.entity_id.clone();
        let ghost before = state_entries(self.states);
        let ghost st = state;
        state_map_insert(&mut self.states, key, state);
        proof {
            lemma_insert_unique(before, state_entries(self.states), st.entity_id@, st);
        }
    }

}

/// Reordering entries keeps their keys distinct.
proof fn lemma_multiset_keys_unique(a: Seq<(Seq<char>, EntityState)>, b: Seq<(Seq<char>, EntityState)>)
    requires
        keys_unique(a),
        a.to_multiset() == b.to_multiset(),
    ensures
        keys_unique(b),
{
    broadcast use vstd::seq_lib::group_seq_properties, vstd::multiset::group_multiset_axioms;

    assert forall|x: int, y: int| 0 <= x < y < b.len() implies (#[trigger] b[x]).0 != (#[trigger] b[y]).0 by {
        if b[x].0 == b[y].0 {
            assert(b.contains(b[x]));
            assert(b.to_multiset().count(b[x]) > 0);
            assert(a.to_multiset().count(b[x]) > 0);
            assert(a.contains(b[x]));
            let i = choose|i: int| 0 <= i < a.len() && a[i] == b[x];
            if b[x] != b[y] {
                assert(b.contains(b[y]));
                assert(b.to_multiset().count(b[y]) > 0);
                assert(a.to_multiset().count(b[y]) > 0);
                assert(a.contains(b[y]));
                let j = choose|j: int| 0 <= j < a.len() && a[j] == b[y];
                assert(i != j);
                if i < j {
                    assert(a[i].0 != a[j].0);
                } else {
                    assert(a[j].0 != a[i].0);
                }
            } else {
                let br = b.remove(y);
                assert(br[x] == b[x]);
                assert(br.contains(b[x]));
                assert(br.to_multiset() =~= b.to_multiset().remove(b[y]));
                assert(br.to_multiset().count(b[x]) > 0);
                assert(b.to_multiset().count(b[x]) >= 2);
                let ar = a.remove(i);
                assert(ar.to_multiset() =~= a.to_multiset().remove(a[i]));
                assert(ar.to_multiset().count(b[x]) >= 1);
                assert(ar.contains(b[x]));
                let k = choose|k: int| 0 <= k < ar.len() && ar[k] == b[x];
                let j = if k < i { k } else { k + 1 };
                assert(a[j] == b[x]);
                assert(i != j);
                if i < j {
                    assert(a[i].0 != a[j].0);
                } else {
                    assert(a[j].0 != a[i].0);
                }
            }
        }
    }
}

} // verus!
