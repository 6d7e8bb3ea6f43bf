//! Entity-list queries: `glob[filter1][filter2]...`.
//!
//! A glob matches entity ids with `*` (any run of characters) and `?` (one
//! character).
//! A filter is `state<op>value` or `attr.<path><op>value`, where `<op>` is
//! `=` (equal), `!=` (not equal), `~=` (contains) or `~!` (does not contain),
//! and the value may be wrapped in single or double quotes.
use vstd::prelude::*;

use crate::ha::{attr_member, obj_get, state_entries, state_map_values, AttrValue, EntityState, InstanceRuntime};
use crate::sort::{lemma_multiset_map, sort_by_key, sorted_by_key};
use crate::strings::{lemma_find_char_bound, 
    char_len, contains_exec, contains_str, find_char, find_char_in, find_str, find_str_in, slice,
    starts_with, starts_with_exec, str_eq, to_owned_string, trim, trim_str,
};

verus! {

#[derive(Debug)]
pub struct EntityQuery {
    pub glob: String,
    pub filters: Vec<Filter>,
}

#[derive(Debug)]
pub struct Filter {
    pub field: Field,
    pub op: Op,
    pub value: String,
}

#[derive(Debug)]
pub enum Field {
    State,
    Attribute(String),
}

#[derive(Clone, Copy, PartialEq, Eq, Structural, Debug)]
pub enum Op {
    Eq,
    Ne,
    Contains,
    NotContains,
}

pub enum FieldView {
    State,
    Attribute(Seq<char>),
}

pub struct FilterView {
    pub field: FieldView,
    pub op: Op,
    pub value: Seq<char>,
}

pub struct QueryView {
    pub glob: Seq<char>,
    pub filters: Seq<FilterView>,
}

impl View for Field {
    type V = FieldView;

    open spec fn view(&self) -> FieldView {
        match self {
            Field::State => FieldView::State,
            Field::Attribute(p) => FieldView::Attribute(p@),
        }
    }
}

impl View for Filter {
    type V = FilterView;

    open spec fn view(&self) -> FilterView {
        FilterView { field: self.field@, op: self.op, value: self.value@ }
    }
}

impl View for EntityQuery {
    type V = QueryView;

    open spec fn view(&self) -> QueryView {
        QueryView { glob: self.glob@, filters: self.filters@.map_values(|f: Filter| f@) }
    }
}

// ── glob ────────────────────────────────────────────────────────────────────

/// Anchored glob over characters: `*` matches any run, `?` exactly one character.
pub open spec fn glob_spec(p: Seq<char>, t: Seq<char>) -> bool
    decreases p.len() + t.len(),
{
    if p.len() == 0 {
        t.len() == 0
    } else if p[0] == '*' {
        glob_spec(p.drop_first(), t) || (t.len() > 0 && glob_spec(p, t.drop_first()))
    } else if t.len() == 0 {
        false
    } else if p[0] == '?' || p[0] == t[0] {
        glob_spec(p.drop_first(), t.drop_first())
    } else {
        false
    }
}

fn glob_go(p: &str, t: &str, pn: usize, tn: usize, pi: usize, ti: usize) -> (r: bool)
    requires
        pn == p@.len(),
        tn == t@.len(),
        pi <= p@.len(),
        ti <= t@.len(),
    ensures
        r == glob_spec(p@.skip(pi as int), t@.skip(ti as int)),
    decreases p@.len() - pi + t@.len() - ti,
{
    let ghost ps = p@.skip(pi as int);
    let ghost ts = t@.skip(ti as int);
    assert(pi < p@.len() ==> ps.drop_first() =~= p@.skip(pi + 1));
    assert(ti < t@.len() ==> ts.drop_first() =~= t@.skip(ti + 1));
    if pi == pn {
        return ti == tn;
    }
    let pc = p.get_char(pi);
    if pc == '*' {
        if glob_go(p, t, pn, tn, pi + 1, ti) {
            return true;
        }
        if ti == tn {
            return false;
        }
        return glob_go(p, t, pn, tn, pi, ti + 1);
    }
    if ti == tn {
        return false;
    }
    if pc == '?' || pc == t.get_char(ti) {
        return glob_go(p, t, pn, tn, pi + 1, ti + 1);
    }
    false
}

/// Minimal anchored glob over the characters of `pattern` and `text`:
/// `*` matches any run of characters, `?` a single character.
pub fn glob_match(pattern: &str, text: &str) -> (r: bool)
    ensures
        r == glob_spec(pattern@, text@),
{
    let pn = char_len(pattern);
    let tn = char_len(text);
    assert(pattern@.skip(0) =~= pattern@);
    assert(text@.skip(0) =~= text@);
    glob_go(pattern, text, pn, tn, 0, 0)
}

// ── parsing ─────────────────────────────────────────────────────────────────

pub open spec fn parse_field_spec(key: Seq<char>) -> Result<FieldView, Seq<char>> {
    if key == "state"@ {
        Ok(FieldView::State)
    } else if starts_with(key, "attr."@) {
        Ok(FieldView::Attribute(key.skip(5)))
    } else {
        Err("unknown filter field `"@ + key + "`"@)
    }
}

/// `s` trimmed, with one pair of matching surrounding quotes removed.
pub open spec fn strip_quotes_spec(s0: Seq<char>) -> Seq<char> {
    let s = trim(s0);
    if s.len() >= 2 && ((s[0] == '"' && s.last() == '"') || (s[0] == '\'' && s.last() == '\'')) {
        s.subrange(1, s.len() - 1)
    } else {
        s
    }
}

/// A filter split at an operator token found at `i`.
pub open spec fn filter_at(s: Seq<char>, i: int, tlen: int, op: Op) -> Result<FilterView, Seq<char>> {
    match parse_field_spec(trim(s.take(i))) {
        Err(e) => Err(e),
        Ok(f) => Ok(FilterView { field: f, op, value: strip_quotes_spec(s.skip(i + tlen)) }),
    }
}

/// One `[...]` block; operators are tried longest first: `~!`, `~=`, `!=`, `=`.
#[verifier::opaque]
pub open spec fn parse_filter_spec(s0: Seq<char>) -> Result<FilterView, Seq<char>> {
    let s = trim(s0);
    match find_str(s, "~!"@) {
        Some(i) => filter_at(s, i, 2, Op::NotContains),
        None => match find_str(s, "~="@) {
            Some(i) => filter_at(s, i, 2, Op::Contains),
            None => match find_str(s, "!="@) {
                Some(i) => filter_at(s, i, 2, Op::Ne),
                None => match find_str(s, "="@) {
                    Some(i) => filter_at(s, i, 1, Op::Eq),
                    None => Err("filter `"@ + s + "` has no operator"@),
                },
            },
        },
    }
}

/// The filter blocks of a query, from the first `[` on.
pub open spec fn parse_blocks(rest: Seq<char>) -> Result<Seq<FilterView>, Seq<char>>
    decreases rest.len(),
{
    match find_char(rest, '[') {
        None => Ok(Seq::empty()),
        Some(open) => {
            let after = rest.skip(open + 1);
            match find_char(after, ']') {
                None => Err("unterminated [...] block"@),
                Some(close) => match parse_filter_spec(after.take(close)) {
                    Err(e) => Err(e),
                    Ok(f) => if 0 <= open < rest.len() && 0 <= close < after.len() {
                        match parse_blocks(after.skip(close + 1)) {
                            Err(e) => Err(e),
                            Ok(fs) => Ok(seq![f] + fs),
                        }
                    } else {
                        Err(Seq::empty())
                    },
                },
            }
        },
    }
}

pub open spec fn parse_spec(raw0: Seq<char>) -> Result<QueryView, Seq<char>> {
    let raw = trim(raw0);
    let fb = find_char(raw, '[');
    let glob = match fb {
        Some(i) => trim(raw.take(i)),
        None => raw,
    };
    if glob.len() == 0 {
        Err("empty glob"@)
    } else {
        let rest = match fb {
            Some(i) => raw.skip(i),
            None => Seq::empty(),
        };
        match parse_blocks(rest) {
            Err(e) => Err(e),
            Ok(fs) => Ok(QueryView { glob, filters: fs }),
        }
    }
}

pub open spec fn result_view<T: View>(r: Result<T, String>) -> Result<T::V, Seq<char>> {
    match r {
        Ok(v) => Ok(v@),
        Err(e) => Err(e@),
    }
}

fn parse_field(key: &str) -> (r: Result<Field, String>)
    ensures
        result_view(r) == parse_field_spec(key@),
{
    if str_eq(key, "state") {
        return Ok(Field::State);
    }
    if starts_with_exec(key, "attr.") {
        proof {
            reveal_strlit("attr.");
        }
        let n = char_len(key);
        return Ok(Field::Attribute(to_owned_string(slice(key, 5, n))));
    }
    let mut msg = to_owned_string("unknown filter field `");
    msg.append(key);
    msg.append("`");
    Err(msg)
}

fn strip_quotes(s0: &str) -> (r: String)
    ensures
        r@ == strip_quotes_spec(s0@),
{
    let s = trim_str(s0);
    let n = char_len(s);
    if n >= 2 {
        let a = s.get_char(0);
        let b = s.get_char(n - 1);
        if (a == '"' && b == '"') || (a == '\'' && b == '\'') {
            return to_owned_string(slice(s, 1, n - 1));
        }
    }
    to_owned_string(s)
}

fn filter_from(s: &str, i: usize, tlen: usize, op: Op) -> (r: Result<Filter, String>)
    requires
        i + tlen <= s@.len(),
    ensures
        result_view(r) == filter_at(s@, i as int, tlen as int, op),
{
    let n = char_len(s);
    let key = trim_str(slice(s, 0, i));
    assert(s@.subrange(0, i as int) =~= s@.take(i as int));
    let raw_val = slice(s, i + tlen, n);
    assert(s@.subrange(i + tlen, n as int) =~= s@.skip(i + tlen));
    let value = strip_quotes(raw_val);
    match parse_field(key) {
        Ok(field) => Ok(Filter { field, op, value }),
        Err(e) => Err(e),
    }
}

proof fn lemma_find_str_bound(s: Seq<char>, t: Seq<char>)
    ensures
        find_str(s, t) matches Some(i) ==> occurs_at_bound(s, t, i),
{
    reveal(find_str);
    if exists|i: int| crate::strings::occurs_at(s, t, i) {
        let w = choose|i: int| crate::strings::occurs_at(s, t, i);
        lemma_first_str(s, t, w);
    }
}

pub open spec fn occurs_at_bound(s: Seq<char>, t: Seq<char>, i: int) -> bool {
    0 <= i && i + t.len() <= s.len()
}

proof fn lemma_first_str(s: Seq<char>, t: Seq<char>, w: int)
    requires
        crate::strings::occurs_at(s, t, w),
    ensures
        exists|i: int| crate::strings::occurs_at(s, t, i) && forall|j: int| 0 <= j < i ==> !crate::strings::occurs_at(s, t, j),
    decreases w,
{
    if exists|j: int| 0 <= j < w && crate::strings::occurs_at(s, t, j) {
        let j = choose|j: int| 0 <= j < w && crate::strings::occurs_at(s, t, j);
        lemma_first_str(s, t, j);
    }
}

fn parse_filter(s0: &str) -> (r: Result<Filter, String>)
    ensures
        result_view(r) == parse_filter_spec(s0@),
{
    let s = trim_str(s0);
    proof {
        reveal(parse_filter_spec);
        reveal_strlit("~!");
        reveal_strlit("~=");
        reveal_strlit("!=");
        reveal_strlit("=");
        lemma_find_str_bound(s@, "~!"@);
        lemma_find_str_bound(s@, "~="@);
        lemma_find_str_bound(s@, "!="@);
        lemma_find_str_bound(s@, "="@);
    }
    if let Some(i) = find_str_in(s, "~!") {
        return filter_from(s, i, 2, Op::NotContains);
    }
    if let Some(i) = find_str_in(s, "~=") {
        return filter_from(s, i, 2, Op::Contains);
    }
    if let Some(i) = find_str_in(s, "!=") {
        return filter_from(s, i, 2, Op::Ne);
    }
    if let Some(i) = find_str_in(s, "=") {
        return filter_from(s, i, 1, Op::Eq);
    }
    let mut msg = to_owned_string("filter `");
    msg.append(s);
    msg.append("` has no operator");
    Err(msg)
}

/// The blocks parsed so far (`acc`) and those still in `rest` make up all of `init`'s.
pub open spec fn blocks_progress(init: Seq<char>, acc: Seq<FilterView>, rest: Seq<char>) -> bool {
    match parse_blocks(rest) {
        Ok(fs) => parse_blocks(init) == Ok::<Seq<FilterView>, Seq<char>>(acc + fs),
        Err(e) => parse_blocks(init) == Err::<Seq<FilterView>, Seq<char>>(e),
    }
}

proof fn lemma_blocks_step(init: Seq<char>, acc: Seq<FilterView>, cur: Seq<char>, open: int, close: int, f: FilterView)
    requires
        blocks_progress(init, acc, cur),
        find_char(cur, '[') == Some(open),
        0 <= open < cur.len(),
        find_char(cur.skip(open + 1), ']') == Some(close),
        0 <= close < cur.skip(open + 1).len(),
        parse_filter_spec(cur.skip(open + 1).take(close)) == Ok::<FilterView, Seq<char>>(f),
    ensures
        blocks_progress(init, acc.push(f), cur.skip(open + 1).skip(close + 1)),
{
    let rest = cur.skip(open + 1).skip(close + 1);
    match parse_blocks(rest) {
        Ok(fs) => {
            assert(acc + (seq![f] + fs) =~= acc.push(f) + fs);
        },
        Err(e) => {},
    }
}

impl EntityQuery {
    /// Parse `glob[filter1][filter2]...`.
    pub fn parse(raw0: &str) -> (r: Result<EntityQuery, String>)
        ensures
            result_view(r) == parse_spec(raw0@),
    {
        let raw = trim_str(raw0);
        let n = char_len(raw);
        let first_bracket = find_char_in(raw, '[');
        proof {
            lemma_find_char_bound(raw@, '[');
        }
        let glob = match first_bracket {
            Some(i) => {
                assert(raw@.subrange(0, i as int) =~= raw@.take(i as int));
                to_owned_string(trim_str(slice(raw, 0, i)))
            },
            None => to_owned_string(raw),
        };
        if char_len(glob.as_str()) == 0 {
            return Err(to_owned_string("empty glob"));
        }
        let rest: &str = match first_bracket {
            Some(i) => {
                assert(raw@.subrange(i as int, n as int) =~= raw@.skip(i as int));
                slice(raw, i, n)
            },
            None => "",
        };
        proof {
            if first_bracket is None {
                reveal_strlit("");
                assert(rest@ =~= Seq::<char>::empty());
            }
        }
        match parse_blocks_exec(rest) {
            Ok(filters) => Ok(EntityQuery { glob, filters }),
            Err(e) => Err(e),
        }
    }
}

pub open spec fn filters_view(v: Seq<Filter>) -> Seq<FilterView> {
    v.map_values(|f: Filter| f@)
}

fn parse_blocks_exec(rest0: &str) -> (r: Result<Vec<Filter>, String>)
    ensures
        match r {
            Ok(v) => parse_blocks(rest0@) == Ok::<Seq<FilterView>, Seq<char>>(filters_view(v@)),
            Err(e) => parse_blocks(rest0@) == Err::<Seq<FilterView>, Seq<char>>(e@),
        },
{
    let mut filters: Vec<Filter> = Vec::new();
    let mut rest: &str = rest0;
    assert(filters_view(filters@) + Seq::<FilterView>::empty() =~= Seq::<FilterView>::empty());
    loop
        invariant
            blocks_progress(rest0@, filters_view(filters@), rest@),
        decreases rest@.len(),
    {
        let ghost cur = rest@;
        let open = match find_char_in(rest, '[') {
            Some(o) => o,
            None => {
                assert(filters_view(filters@) + Seq::<FilterView>::empty() =~= filters_view(filters@));
                return Ok(filters);
            },
        };
        proof {
            lemma_find_char_bound(cur, '[');
        }
        let rn = char_len(rest);
        let after = slice(rest, open + 1, rn);
        assert(after@ =~= cur.skip(open + 1));
        let close = match find_char_in(after, ']') {
            Some(c) => c,
            None => {
                return Err(to_owned_string("unterminated [...] block"));
            },
        };
        proof {
            lemma_find_char_bound(after@, ']');
        }
        let an = char_len(after);
        let inner = slice(after, 0, close);
        assert(inner@ =~= after@.take(close as int));
        let f = match parse_filter(inner) {
            Ok(f) => f,
            Err(e) => {
                return Err(e);
            },
        };
        let ghost before = filters_view(filters@);
        filters.push(f);
        rest = slice(after, close + 1, an);
        assert(rest@ =~= after@.skip(close + 1));
        proof {
            assert(filters_view(filters@) =~= before.push(f@));
            lemma_blocks_step(rest0@, before, cur, open as int, close as int, f@);
        }
    }
}

// ── evaluation ──────────────────────────────────────────────────────────────

pub open spec fn eval_spec(op: Op, actual: Seq<char>, expected: Seq<char>) -> bool {
    match op {
        Op::Eq => actual == expected,
        Op::Ne => actual != expected,
        Op::Contains => contains_str(actual, expected),
        Op::NotContains => !contains_str(actual, expected),
    }
}

impl Op {
    pub fn eval(self, actual: &str, expected: &str) -> (r: bool)
        ensures
            r == eval_spec(self, actual@, expected@),
    {
        match self {
            Op::Eq => str_eq(actual, expected),
            Op::Ne => !str_eq(actual, expected),
            Op::Contains => contains_exec(actual, expected),
            Op::NotContains => !contains_exec(actual, expected),
        }
    }
}

/// `path.split('.')`.
pub open spec fn split_dot(s: Seq<char>) -> Seq<Seq<char>>
    decreases s.len(),
{
    match find_char(s, '.') {
        None => seq![s],
        Some(i) => if 0 <= i < s.len() {
            seq![s.take(i)] + split_dot(s.skip(i + 1))
        } else {
            seq![s]
        },
    }
}

/// Follow a dotted path of object members.
pub open spec fn lookup_parts(v: AttrValue, parts: Seq<Seq<char>>) -> Option<AttrValue>
    decreases parts.len(),
{
    if parts.len() == 0 {
        Some(v)
    } else {
        match obj_get(v, parts[0]) {
            None => None,
            Some(c) => lookup_parts(c, parts.drop_first()),
        }
    }
}

pub open spec fn attr_get_spec(v: AttrValue, path: Seq<char>) -> Option<AttrValue> {
    lookup_parts(v, split_dot(path))
}

/// The attribute at a dotted path, e.g. `location` or `forecast.temp`.
pub fn attr_get<'a>(attrs: &'a AttrValue, path: &str) -> (r: Option<&'a AttrValue>)
    ensures
        match r {
            Some(x) => attr_get_spec(*attrs, path@) == Some(*x),
            None => attr_get_spec(*attrs, path@) is None,
        },
{
    let mut cur: &AttrValue = attrs;
    let mut rest: &str = path;
    loop
        invariant
            attr_get_spec(*attrs, path@) == lookup_parts(*cur, split_dot(rest@)),
        decreases rest@.len(),
    {
        proof {
            lemma_find_char_bound(rest@, '.');
        }
        match find_char_in(rest, '.') {
            None => {
                let r = attr_member(cur, rest);
                proof {
                    assert(split_dot(rest@) =~= seq![rest@]);
                    assert(split_dot(rest@).drop_first() =~= Seq::<Seq<char>>::empty());
                    match r {
                        Some(x) => {
                            assert(lookup_parts(*x, Seq::<Seq<char>>::empty()) == Some(*x));
                        },
                        None => {},
                    }
                }
                return r;
            },
            Some(i) => {
                let n = char_len(rest);
                let part = slice(rest, 0, i);
                assert(part@ =~= rest@.take(i as int));
                let next = slice(rest, i + 1, n);
                assert(next@ =~= rest@.skip(i + 1));
                assert(split_dot(rest@).drop_first() =~= split_dot(next@));
                match attr_member(cur, part) {
                    None => {
                        return None;
                    },
                    Some(c) => {
                        cur = c;
                        rest = next;
                    },
                }
            },
        }
    }
}

pub open spec fn value_text(v: AttrValue) -> Seq<char> {
    match v {
        AttrValue::Null => Seq::empty(),
        AttrValue::Text(s) => s@,
        AttrValue::Other(j) => j@,
        AttrValue::Object(_, j) => j@,
    }
}

/// Strings as themselves, null as empty, anything else as its JSON text.
pub fn value_to_string(v: &AttrValue) -> (r: String)
    ensures
        r@ == value_text(*v),
{
    match v {
        AttrValue::Null => String::new(),
        AttrValue::Text(s) => s.clone(),
        AttrValue::Other(j) => j.clone(),
        AttrValue::Object(_, j) => j.clone(),
    }
}

/// The text a filter compares: the state, or the attribute's text ("" when absent).
pub open spec fn field_text(field: FieldView, state: Seq<char>, attrs: AttrValue) -> Seq<char> {
    match field {
        FieldView::State => state,
        FieldView::Attribute(p) => match attr_get_spec(attrs, p) {
            Some(v) => value_text(v),
            None => Seq::empty(),
        },
    }
}

pub open spec fn filter_holds(f: FilterView, state: Seq<char>, attrs: AttrValue) -> bool {
    eval_spec(f.op, field_text(f.field, state, attrs), f.value)
}

pub open spec fn matches_spec(q: QueryView, id: Seq<char>, state: Seq<char>, attrs: AttrValue) -> bool {
    &&& glob_spec(q.glob, id)
    &&& forall|i: int| 0 <= i < q.filters.len() ==> filter_holds(#[trigger] q.filters[i], state, attrs)
}

impl EntityQuery {
    /// Does an entity (id, state, attributes) satisfy the glob and every filter?
    pub fn matches(&self, entity_id: &str, state: &str, attributes: &AttrValue) -> (r: bool)
        ensures
            r == matches_spec(self@, entity_id@, state@, *attributes),
    {
        if !glob_match(self.glob.as_str(), entity_id) {
            return false;
        }
        let mut i: usize = 0;
        while i < self.filters.len()
            invariant
                i <= self.filters@.len(),
                forall|k: int| 0 <= k < i ==> filter_holds(#[trigger] self@.filters[k], state@, *attributes),
            decreases self.filters.len() - i,
        {
            let f = &self.filters[i];
            let actual: String = match &f.field {
                Field::State => to_owned_string(state),
                Field::Attribute(path) => match attr_get(attributes, path.as_str()) {
                    Some(v) => value_to_string(v),
                    None => String::new(),
                },
            };
            if !f.op.eval(actual.as_str(), f.value.as_str()) {
                assert(!filter_holds(self@.filters[i as int], state@, *attributes));
                return false;
            }
            i = i + 1;
        }
        true
    }
}


/// Ids of the entries (in entry order) that a query matches.
pub open spec fn matching_ids(entries: Seq<(Seq<char>, EntityState)>, q: QueryView) -> Seq<Seq<char>>
    decreases entries.len(),
{
    if entries.len() == 0 {
        Seq::empty()
    } else {
        let prev = matching_ids(entries.drop_last(), q);
        let st = entries.last().1;
        if matches_spec(q, st.entity_id@, st.state@, st.attributes) {
            prev.push(st.entity_id@)
        } else {
            prev
        }
    }
}

pub open spec fn string_views(v: Seq<String>) -> Seq<Seq<char>> {
    v.map_values(|s: String| s@)
}

/// Resolve a raw query against an instance's states: the matching ids, sorted.
/// No instance, or a query that does not parse, resolves to nothing.
pub fn resolve(runtime: Option<&InstanceRuntime>, raw: &str) -> (r: Vec<String>)
    ensures
        match runtime {
            None => r@.len() == 0,
            Some(rt) => match parse_spec(raw@) {
                Err(_) => r@.len() == 0,
                Ok(q) => {
                    &&& sorted_by_key(r@)
                    &&& string_views(r@).to_multiset() == matching_ids(state_entries(rt.states), q).to_multiset()
                },
            },
        },
{
    let rt = match runtime {
        None => {
            return Vec::new();
        },
        Some(rt) => rt,
    };
    let q = match EntityQuery::parse(raw) {
        Ok(q) => q,
        Err(_) => {
            return Vec::new();
        },
    };
    let states = state_map_values(&rt.states);
    let ghost entries = state_entries(rt.states);
    let mut ids: Vec<String> = Vec::new();
    let mut i: usize = 0;
    while i < states.len()
        invariant
            i <= states@.len(),
            states@.len() == entries.len(),
            forall|k: int| 0 <= k < states@.len() ==> *(#[trigger] states@[k]) == entries[k].1,
            string_views(ids@) == matching_ids(entries.take(i as int), q@),
        decreases states.len() - i,
    {
        let st = states[i];
        assert(entries.take(i as int + 1).drop_last() =~= entries.take(i as int));
        if q.matches(st.entity_id.as_str(), st.state.as_str(), &st.attributes) {
            let ghost before = ids@;
            ids.push(st.entity_id.clone());
            assert(string_views(ids@) =~= string_views(before).push(st.entity_id@));
        }
        i = i + 1;
    }
    assert(entries.take(states@.len() as int) =~= entries);
    let sorted = sort_by_key(ids);
    proof {
        lemma_multiset_map(sorted@, ids@, |s: String| s@);
    }
    sorted
}

} // verus!
