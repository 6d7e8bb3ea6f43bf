//! The keys of the overlays over the main screen: the entity search, the
//! instance list and the entity details.
use vstd::prelude::*;

use crate::dashboard::Alias;
use crate::ha::InstanceRuntime;
use crate::screens::{build_rows, candidate_rows, row_key, EntityRow};
use crate::sort::sorted_by_key;
use crate::strings::str_eq;
use crate::wizard::{aliases_of, type_key, typed, Key};

verus! {

/// What a key in the entity search leads to.
#[derive(Debug)]
pub enum SearchOutcome {
    Stay,
    /// Close the search and run the default action of this entity.
    Pick { alias: String, entity_id: String },
}

/// The instance filter after `f`: none goes to the first instance, an
/// instance to the next one, the last (or an unknown one) back to none.
pub open spec fn next_filter(aliases: Seq<String>, cur: Option<String>) -> Option<Seq<char>> {
    match cur {
        None => if aliases.len() > 0 { Some(aliases[0]@) } else { None },
        Some(c) => if exists|p: int| 0 <= p < aliases.len() && aliases[p]@ == c@ {
            let p = choose|p: int|
                0 <= p < aliases.len() && aliases[p]@ == c@ && forall|q: int| 0 <= q < p ==> aliases[q]@ != c@;
            if p + 1 < aliases.len() {
                Some(aliases[p + 1]@)
            } else {
                None
            }
        } else {
            None
        },
    }
}

pub open spec fn opt_view(o: Option<String>) -> Option<Seq<char>> {
    match o {
        Some(s) => Some(s@),
        None => None,
    }
}

/// `r` are the search's rows for filter `f` and query `q`: every entity of
/// the (filtered) instances whose id contains the query, sorted.
pub open spec fn search_rows(rts: Seq<InstanceRuntime>, f: Option<Seq<char>>, q: Seq<char>, r: Seq<EntityRow>) -> bool {
    &&& sorted_by_key(r)
    &&& r.map_values(|x: EntityRow| row_key(x)).to_multiset() == candidate_rows(rts, f, q).to_multiset()
}

/// One key in the entity search, from query `q0`, selection `s0` and filter
/// `f0` over `rows` to `q1`, `s1`, `f1` and the outcome `r`.
pub open spec fn search_step(
    key: Key,
    rows: Seq<EntityRow>,
    aliases: Seq<String>,
    q0: String,
    s0: usize,
    f0: Option<String>,
    q1: String,
    s1: usize,
    f1: Option<String>,
    r: SearchOutcome,
) -> bool {
    let total = rows.len() as int;
    match key {
        Key::Backspace => r is Stay && q1@ == typed(q0@, key) && s1 == 0 && f1 == f0,
        Key::Char('f') => r is Stay && q1 == q0 && s1 == 0 && opt_view(f1) == next_filter(aliases, f0),
        Key::Char(c) => r is Stay && q1@ == q0@.push(c) && s1 == 0 && f1 == f0,
        Key::Enter => q1 == q0 && s1 == s0 && f1 == f0 && if s0 < total {
            r matches SearchOutcome::Pick { alias, entity_id } && (alias@, entity_id@) == row_key(rows[s0 as int])
        } else {
            r is Stay
        },
        _ => r is Stay && q1 == q0 && f1 == f0 && s1 == match key {
            Key::Up => if s0 > 0 { (s0 - 1) as usize } else { s0 },
            Key::Down => if s0 + 1 < total { (s0 + 1) as usize } else { s0 },
            Key::PageUp => if s0 >= 10 { (s0 - 10) as usize } else { 0 },
            Key::PageDown => if total > 0 {
                if s0 + 10 < total - 1 { (s0 + 10) as usize } else { (total - 1) as usize }
            } else {
                s0
            },
            _ => s0,
        },
    }
}

proof fn lemma_first_match(aliases: Seq<String>, c: Seq<char>, w: int)
    requires
        0 <= w < aliases.len(),
        aliases[w]@ == c,
    ensures
        exists|p: int| 0 <= p < aliases.len() && aliases[p]@ == c && forall|q: int| 0 <= q < p ==> aliases[q]@ != c,
    decreases w,
{
    if exists|q: int| 0 <= q < w && aliases[q]@ == c {
        let q = choose|q: int| 0 <= q < w && aliases[q]@ == c;
        lemma_first_match(aliases, c, q);
    }
}

proof fn lemma_next_after(aliases: Seq<String>, cur: Option<String>, p: int)
    requires
        cur is Some,
        0 <= p < aliases.len(),
        aliases[p]@ == cur->0@,
        forall|q: int| 0 <= q < p ==> aliases[q]@ != cur->0@,
    ensures
        next_filter(aliases, cur) == if p + 1 < aliases.len() { Some(aliases[p + 1]@) } else { None::<Seq<char>> },
{
    let c = cur->0;
    lemma_first_match(aliases, c@, p);
    let w = choose|w: int|
        0 <= w < aliases.len() && aliases[w]@ == c@ && forall|q: int| 0 <= q < w ==> aliases[q]@ != c@;
    if w < p {
        assert(aliases[w]@ != c@);
    } else if p < w {
        assert(aliases[p]@ != c@);
    }
    assert(w == p);
}

/// No two instances share an alias (the program keys its instances by
/// alias).
pub open spec fn aliases_distinct(aliases: Seq<String>) -> bool {
    forall|i: int, j: int| 0 <= i < j < aliases.len() ==> aliases[i]@ != aliases[j]@
}

/// With distinct aliases, `f` on instance `p` moves the filter to the
/// instance after it, and from the last one back to all instances.
pub proof fn law_filter_steps_to_next_instance(aliases: Seq<String>, p: int)
    requires
        aliases_distinct(aliases),
        0 <= p < aliases.len(),
    ensures
        next_filter(aliases, Some(aliases[p])) == if p + 1 < aliases.len() {
            Some(aliases[p + 1]@)
        } else {
            None::<Seq<char>>
        },
{
    assert forall|q: int| 0 <= q < p implies aliases[q]@ != aliases[p]@ by {}
    lemma_next_after(aliases, Some(aliases[p]), p);
}

fn next_instance(aliases: &Vec<String>, cur: Option<String>) -> (r: Option<String>)
    ensures
        opt_view(r) == next_filter(aliases@, cur),
{
    match cur {
        None => if aliases.len() > 0 {
            Some(aliases[0].clone())
        } else {
            None
        },
        Some(c) => {
            let mut p: usize = 0;
            while p < aliases.len()
                invariant
                    p <= aliases@.len(),
                    cur == Some(c),
                    forall|q: int| 0 <= q < p ==> aliases@[q]@ != c@,
                decreases aliases.len() - p,
            {
                if str_eq(aliases[p].as_str(), c.as_str()) {
                    proof {
                        lemma_next_after(aliases@, cur, p as int);
                    }
                    if p + 1 < aliases.len() {
                        return Some(aliases[p + 1].clone());
                    } else {
                        return None;
                    }
                }
                p = p + 1;
            }
            None
        },
    }
}

/// Handle a key in the entity search (Esc, which closes it, aside): typing
/// edits the query, `f` steps the instance filter, arrows and page keys move
/// within the rows, Enter picks the selected row.
pub fn entity_search_key(
    query: &mut String,
    selected: &mut usize,
    filter: &mut Option<Alias>,
    key: Key,
    runtimes: &Vec<InstanceRuntime>,
) -> (r: SearchOutcome)
    ensures
        exists|rows: Seq<EntityRow>|
            #[trigger] search_rows(runtimes@, opt_view(*old(filter)), old(query)@, rows)
                && search_step(key, rows, aliases_of(runtimes@), *old(query), *old(selected), *old(filter),
                    *final(query), *final(selected), *final(filter), r),
{
    let rows = build_rows(runtimes, filter.as_ref(), query.as_str());
    let total = rows.len();
    proof {
        assert(search_rows(runtimes@, opt_view(*old(filter)), old(query)@, rows@));
    }
    match key {
        Key::Backspace => {
            type_key(query, key);
            *selected = 0;
            SearchOutcome::Stay
        },
        Key::Char('f') => {
            let aliases = crate::wizard::aliases(runtimes);
            let cur = filter.clone();
            *filter = next_instance(&aliases, cur);
            *selected = 0;
            SearchOutcome::Stay
        },
        Key::Char(_) => {
            type_key(query, key);
            *selected = 0;
            SearchOutcome::Stay
        },
        Key::Enter => {
            if *selected < total {
                let row = &rows[*selected];
                SearchOutcome::Pick { alias: row.instance.clone(), entity_id: row.state.entity_id.clone() }
            } else {
                SearchOutcome::Stay
            }
        },
        Key::Up => {
            if *selected > 0 {
                *selected = *selected - 1;
            }
            SearchOutcome::Stay
        },
        Key::Down => {
            if *selected < total && *selected + 1 < total {
                *selected = *selected + 1;
            }
            SearchOutcome::Stay
        },
        Key::PageUp => {
            *selected = if *selected >= 10 {
                *selected - 10
            } else {
                0
            };
            SearchOutcome::Stay
        },
        Key::PageDown => {
            if total > 0 {
                *selected = if *selected < total && 10 < total - 1 - *selected {
                    *selected + 10
                } else {
                    total - 1
                };
            }
            SearchOutcome::Stay
        },
        _ => SearchOutcome::Stay,
    }
}

/// Handle a key in the instance list (Esc aside): Up/`k` and Down/`j` move
/// within the `total` instances; `true` when Enter closes the list.
pub fn instance_list_key(selected: &mut usize, total: usize, key: Key) -> (close: bool)
    ensures
        close == (key == Key::Enter),
        *final(selected) == match key {
            Key::Up | Key::Char('k') => if *old(selected) > 0 { (*old(selected) - 1) as usize } else { *old(selected) },
            Key::Down | Key::Char('j') => if *old(selected) + 1 < total { (*old(selected) + 1) as usize } else { *old(selected) },
            _ => *old(selected),
        },
{
    match key {
        Key::Up | Key::Char('k') => {
            if *selected > 0 {
                *selected = *selected - 1;
            }
            false
        },
        Key::Down | Key::Char('j') => {
            if *selected < total && *selected + 1 < total {
                *selected = *selected + 1;
            }
            false
        },
        Key::Enter => true,
        _ => false,
    }
}

/// Handle a key in the entity details (Esc aside): `q` or `D` close it,
/// `j`/Down and `k`/Up scroll a line, the page keys ten.
pub fn entity_details_key(scroll: &mut u16, key: Key) -> (close: bool)
    ensures
        close == (key == Key::Char('q') || key == Key::Char('D')),
        *final(scroll) == match key {
            Key::Char('j') | Key::Down => if *old(scroll) < u16::MAX { (*old(scroll) + 1) as u16 } else { u16::MAX },
            Key::Char('k') | Key::Up => if *old(scroll) > 0 { (*old(scroll) - 1) as u16 } else { 0 },
            Key::PageDown => if *old(scroll) + 10 <= u16::MAX { (*old(scroll) + 10) as u16 } else { u16::MAX },
            Key::PageUp => if *old(scroll) >= 10 { (*old(scroll) - 10) as u16 } else { 0 },
            _ => *old(scroll),
        },
{
    match key {
        Key::Char('q') | Key::Char('D') => true,
        Key::Char('j') | Key::Down => {
            *scroll = scroll.saturating_add(1);
            false
        },
        Key::Char('k') | Key::Up => {
            *scroll = scroll.saturating_sub(1);
            false
        },
        Key::PageDown => {
            *scroll = scroll.saturating_add(10);
            false
        },
        Key::PageUp => {
            *scroll = scroll.saturating_sub(10);
            false
        },
        _ => false,
    }
}

} // verus!
