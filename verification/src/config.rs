//! The configuration: instances, their validation, token templates and the
//! default file locations.
use vstd::prelude::*;

use indexmap::IndexMap;
use std::collections::hash_map::RandomState;
use std::path::PathBuf;

use crate::dashboard::Alias;
use crate::strings::{char_len, find_str, lemma_find_str_bound, find_str_in, occurs_at, slice, starts_with, starts_with_exec, str_eq, to_owned_string};

verus! {

#[derive(Debug)]
pub struct InstanceConfig {
    pub alias: Alias,
    pub url: String,
    pub token: Option<String>,
    pub token_file: Option<PathBuf>,
    pub color: Option<String>,
}

#[derive(Debug)]
pub struct Config {
    pub instances: Vec<InstanceConfig>,
    pub log_level: String,
    pub dashboards_path: Option<PathBuf>,
}

/// The log level used when the configuration names none.
pub fn default_log_level() -> (r: String)
    ensures
        r@ == "info"@,
{
    to_owned_string("info")
}

/// The entries of an alias-to-color map, in insertion order: (alias, color).
pub uninterp spec fn color_entries(m: IndexMap<String, Option<String>, RandomState>) -> Seq<(Seq<char>, Option<Seq<char>>)>;

pub open spec fn color_view(c: Option<String>) -> Option<Seq<char>> {
    match c {
        Some(s) => Some(s@),
        None => None,
    }
}

/// `i` holds the entry whose key is `key`.
pub open spec fn color_key_at(entries: Seq<(Seq<char>, Option<Seq<char>>)>, key: Seq<char>, i: int) -> bool {
    0 <= i < entries.len() && entries[i].0 == key
}

/// `IndexMap::new`: an empty map.
#[verifier::external_body]
fn color_map_new() -> (m: IndexMap<String, Option<String>, RandomState>)
    ensures
        color_entries(m) == Seq::<(Seq<char>, Option<Seq<char>>)>::empty(),
{
    IndexMap::new()
}

/// `IndexMap::insert`: an existing key keeps its place and takes the new
/// value; a new key is appended last.
#[verifier::external_body]
fn color_map_insert(m: &mut IndexMap<String, Option<String>, RandomState>, key: String, value: Option<String>)
    ensures
        (exists|i: int| color_key_at(color_entries(*old(m)), key@, i)) ==> exists|i: int|
            color_key_at(color_entries(*old(m)), key@, i) && color_entries(*final(m)) == color_entries(
                *old(m),
            ).update(i, (key@, color_view(value))),
        !(exists|i: int| color_key_at(color_entries(*old(m)), key@, i)) ==> color_entries(*final(m))
            == color_entries(*old(m)).push((key@, color_view(value))),
{
    m.insert(key, value);
}

/// The (alias, color) map of a list of instances: each alias once, at its
/// first position, with the color of its last occurrence.
pub open spec fn colors_of(insts: Seq<InstanceConfig>) -> Seq<(Seq<char>, Option<Seq<char>>)>
    decreases insts.len(),
{
    if insts.len() == 0 {
        Seq::empty()
    } else {
        let prev = colors_of(insts.drop_last());
        let a = insts.last().alias@;
        let c = color_view(insts.last().color);
        if exists|i: int| color_key_at(prev, a, i) {
            prev.update(choose|i: int| color_key_at(prev, a, i), (a, c))
        } else {
            prev.push((a, c))
        }
    }
}

/// Keys of the entries are pairwise distinct.
pub open spec fn keys_distinct(e: Seq<(Seq<char>, Option<Seq<char>>)>) -> bool {
    forall|i: int, j: int| 0 <= i < j < e.len() ==> (#[trigger] e[i]).0 != (#[trigger] e[j]).0
}

impl Config {
    /// Each instance alias with its color, in configuration order.
    pub fn instance_colors(&self) -> (r: IndexMap<Alias, Option<String>>)
        ensures
            color_entries(r) == colors_of(self.instances@),
    {
        let mut m = color_map_new();
        let mut i: usize = 0;
        while i < self.instances.len()
            invariant
                i <= self.instances@.len(),
                color_entries(m) == colors_of(self.instances@.take(i as int)),
                keys_distinct(color_entries(m)),
            decreases self.instances.len() - i,
        {
            let inst = &self.instances[i];
            let ghost prev = color_entries(m);
            assert(self.instances@.take(i as int + 1).drop_last() =~= self.instances@.take(i as int));
            let color = match &inst.color {
                Some(c) => Some(c.clone()),
                None => None,
            };
            assert(color_view(color) == color_view(inst.color));
            color_map_insert(&mut m, inst.alias.clone(), color);
            proof {
                let a = inst.alias@;
                if exists|k: int| color_key_at(prev, a, k) {
                    let k1 = choose|k: int| color_key_at(prev, a, k) && color_entries(m) == prev.update(k, (a, color_view(inst.color)));
                    let k2 = choose|k: int| color_key_at(prev, a, k);
                    assert(k1 == k2) by {
                        if k1 != k2 {
                            if k1 < k2 {
                                assert(prev[k1].0 != prev[k2].0);
                            } else {
                                assert(prev[k2].0 != prev[k1].0);
                            }
                        }
                    }
                    assert forall|x: int, y: int| 0 <= x < y < color_entries(m).len() implies (#[trigger] color_entries(m)[x]).0
                        != (#[trigger] color_entries(m)[y]).0 by {
                        assert(color_entries(m)[x].0 == prev[x].0);
                        assert(color_entries(m)[y].0 == prev[y].0);
                    }
                } else {
                    assert forall|x: int, y: int| 0 <= x < y < color_entries(m).len() implies (#[trigger] color_entries(m)[x]).0
                        != (#[trigger] color_entries(m)[y]).0 by {
                        if y == prev.len() {
                            assert(!color_key_at(prev, a, x));
                        }
                    }
                }
            }
            i = i + 1;
        }
        assert(self.instances@.take(self.instances@.len() as int) =~= self.instances@);
        m
    }
}

/// `a` occurs among the aliases of `insts`.
pub open spec fn alias_among(insts: Seq<InstanceConfig>, a: Seq<char>) -> bool {
    exists|j: int| 0 <= j < insts.len() && (#[trigger] insts[j]).alias@ == a
}

/// A WebSocket URL: `ws://` or `wss://`.
pub open spec fn ws_url(u: Seq<char>) -> bool {
    starts_with(u, "ws://"@) || starts_with(u, "wss://"@)
}

/// The first problem among the first `n` instances: a repeated alias or a
/// URL that is not a WebSocket URL, checked instance by instance.
pub open spec fn first_problem(insts: Seq<InstanceConfig>, n: int) -> Option<Seq<char>>
    decreases n,
{
    if n <= 0 {
        None
    } else {
        match first_problem(insts, n - 1) {
            Some(m) => Some(m),
            None => {
                let a = insts[n - 1].alias@;
                if alias_among(insts.take(n - 1), a) {
                    Some("duplicate instance alias: "@ + a)
                } else if !ws_url(insts[n - 1].url@) {
                    Some("instance "@ + a + " url must start with ws:// or wss://"@)
                } else {
                    None
                }
            },
        }
    }
}

/// Once a problem is found among the first `n` instances, it stays the first problem.
proof fn lemma_first_problem_stable(insts: Seq<InstanceConfig>, n: int, m: int)
    requires
        0 <= n <= m,
    ensures
        first_problem(insts, n) is Some ==> first_problem(insts, m) == first_problem(insts, n),
    decreases m - n,
{
    if n < m {
        lemma_first_problem_stable(insts, n, m - 1);
    }
}

/// What `validate` answers: no instances, the first problem, or success.
pub open spec fn validate_spec(insts: Seq<InstanceConfig>) -> Result<(), Seq<char>> {
    if insts.len() == 0 {
        Err("config has no instances"@)
    } else {
        match first_problem(insts, insts.len() as int) {
            Some(m) => Err(m),
            None => Ok(()),
        }
    }
}

pub open spec fn unit_result_view(r: Result<(), String>) -> Result<(), Seq<char>> {
    match r {
        Ok(()) => Ok(()),
        Err(e) => Err(e@),
    }
}

/// A configuration is usable when it has an instance, no alias twice, and
/// WebSocket URLs only.
pub fn validate(cfg: &Config) -> (r: Result<(), String>)
    ensures
        unit_result_view(r) == validate_spec(cfg.instances@),
{
    let insts = &cfg.instances;
    if insts.len() == 0 {
        return Err(to_owned_string("config has no instances"));
    }
    let mut i: usize = 0;
    while i < insts.len()
        invariant
            i <= insts@.len(),
            insts@ == cfg.instances@,
            insts@.len() > 0,
            first_problem(insts@, i as int) is None,
        decreases insts.len() - i,
    {
        let inst = &insts[i];
        let mut seen = false;
        let mut j: usize = 0;
        while j < i
            invariant
                i < insts@.len(),
                *inst == insts@[i as int],
                j <= i,
                seen == exists|k: int| 0 <= k < j && (#[trigger] insts@[k]).alias@ == insts@[i as int].alias@,
            decreases i - j,
        {
            if str_eq(insts[j].alias.as_str(), inst.alias.as_str()) {
                seen = true;
            }
            j = j + 1;
        }
        proof {
            let t = insts@.take(i as int);
            if seen {
                let k = choose|k: int| 0 <= k < i && (#[trigger] insts@[k]).alias@ == insts@[i as int].alias@;
                assert(t[k] == insts@[k]);
            }
            if alias_among(t, insts@[i as int].alias@) {
                let k = choose|k: int| 0 <= k < t.len() && (#[trigger] t[k]).alias@ == insts@[i as int].alias@;
                assert(t[k] == insts@[k]);
            }
        }
        proof {
            lemma_first_problem_stable(insts@, i as int + 1, insts@.len() as int);
            assert(insts@.take(i as int) =~= insts@.take(i as int));
        }
        if seen {
            let mut msg = to_owned_string("duplicate instance alias: ");
            msg.append(inst.alias.as_str());
            return Err(msg);
        }
        if !starts_with_exec(inst.url.as_str(), "ws://") && !starts_with_exec(inst.url.as_str(), "wss://") {
            let mut msg = to_owned_string("instance ");
            msg.append(inst.alias.as_str());
            msg.append(" url must start with ws:// or wss://");
            return Err(msg);
        }
        i = i + 1;
    }
    Ok(())
}

/// One piece of a token template: literal text, or the name of an
/// environment variable to substitute.
#[derive(Debug)]
pub enum TemplatePart {
    Text(String),
    Var(String),
}

/// A token template cut into parts. `unterminated` is set when a `${` has no
/// closing `}`; the parts then stop before it.
#[derive(Debug)]
pub struct Template {
    pub parts: Vec<TemplatePart>,
    pub unterminated: bool,
}

pub open spec fn part_view(p: TemplatePart) -> (bool, Seq<char>) {
    match p {
        TemplatePart::Text(s) => (false, s@),
        TemplatePart::Var(s) => (true, s@),
    }
}

/// Index of the first `}` in `s`.
pub open spec fn close_brace(s: Seq<char>) -> Option<int> {
    find_str(s, "}"@)
}

/// The parts of a template (as (is variable, text) pairs) and whether a
/// `${` is left open: text up to each `${`, the name up to the next `}`, then
/// the rest; the last text part is always present, possibly empty.
pub open spec fn template_spec(s: Seq<char>) -> (Seq<(bool, Seq<char>)>, bool)
    decreases s.len(),
{
    match find_str(s, "${"@) {
        None => (seq![(false, s)], false),
        Some(start) => {
            let after = s.skip(start + 2);
            match close_brace(after) {
                None => (seq![(false, s.take(start))], true),
                Some(end) => {
                    proof {
                        lemma_find_str_bound(s, "${"@);
                        lemma_find_str_bound(after, "}"@);
                        reveal_strlit("${");
                        reveal_strlit("}");
                    }
                    let rest = template_spec(after.skip(end + 1));
                    (seq![(false, s.take(start)), (true, after.take(end))] + rest.0, rest.1)
                },
            }
        },
    }
}

pub open spec fn parts_view(v: Seq<TemplatePart>) -> Seq<(bool, Seq<char>)> {
    v.map_values(|p: TemplatePart| part_view(p))
}

/// Cut a token template into literal text and `${NAME}` variables.
pub fn split_template(s: &str) -> (r: Template)
    ensures
        (parts_view(r.parts@), r.unterminated) == template_spec(s@),
{
    let mut parts: Vec<TemplatePart> = Vec::new();
    let mut rest: &str = s;
    loop
        invariant
            ({
                let t = template_spec(rest@);
                template_spec(s@) == (parts_view(parts@) + t.0, t.1)
            }),
        decreases rest@.len(),
    {
        match find_str_in(rest, "${") {
            None => {
                let ghost before = parts_view(parts@);
                parts.push(TemplatePart::Text(to_owned_string(rest)));
                assert(parts_view(parts@) =~= before + seq![(false, rest@)]);
                return Template { parts, unterminated: false };
            },
            Some(start) => {
                proof {
                    reveal_strlit("${");
                    lemma_find_str_bound(rest@, "${"@);
                }
                let n = char_len(rest);
                let head = slice(rest, 0, start);
                let after = slice(rest, start + 2, n);
                assert(head@ =~= rest@.take(start as int));
                assert(after@ =~= rest@.skip(start as int + 2));
                match find_str_in(after, "}") {
                    None => {
                        let ghost before = parts_view(parts@);
                        parts.push(TemplatePart::Text(to_owned_string(head)));
                        assert(parts_view(parts@) =~= before + seq![(false, head@)]);
                        return Template { parts, unterminated: true };
                    },
                    Some(end) => {
                        proof {
                            reveal_strlit("}");
                            lemma_find_str_bound(after@, "}"@);
                        }
                        let m = char_len(after);
                        let var = slice(after, 0, end);
                        let next = slice(after, end + 1, m);
                        assert(var@ =~= after@.take(end as int));
                        assert(next@ =~= after@.skip(end as int + 1));
                        let ghost before = parts_view(parts@);
                        parts.push(TemplatePart::Text(to_owned_string(head)));
                        parts.push(TemplatePart::Var(to_owned_string(var)));
                        assert(parts_view(parts@) =~= before + seq![(false, head@), (true, var@)]);
                        proof {
                            let t = template_spec(next@);
                            assert(parts_view(parts@) + t.0 =~= before + (seq![(false, head@), (true, var@)] + t.0));
                        }
                        rest = next;
                    },
                }
            },
        }
    }
}

/// The number of variables among the parts.
pub open spec fn var_count(p: Seq<(bool, Seq<char>)>) -> nat
    decreases p.len(),
{
    if p.len() == 0 {
        0
    } else {
        var_count(p.drop_last()) + if p.last().0 { 1nat } else { 0nat }
    }
}

/// The template's text with the `k`-th variable replaced by `values[k]`.
pub open spec fn filled(p: Seq<(bool, Seq<char>)>, values: Seq<Seq<char>>) -> Seq<char>
    decreases p.len(),
{
    if p.len() == 0 {
        Seq::empty()
    } else {
        let prev = filled(p.drop_last(), values);
        if p.last().0 {
            prev + values[var_count(p.drop_last()) as int]
        } else {
            prev + p.last().1
        }
    }
}

pub open spec fn strings_view(v: Seq<String>) -> Seq<Seq<char>> {
    v.map_values(|s: String| s@)
}

/// Join the parts of a template, each variable replaced by its value, in order.
pub fn fill_template(parts: &Vec<TemplatePart>, values: &Vec<String>) -> (r: String)
    requires
        values@.len() == var_count(parts_view(parts@)),
    ensures
        r@ == filled(parts_view(parts@), strings_view(values@)),
{
    let mut out = String::new();
    let vlen = values.len();
    let mut i: usize = 0;
    let mut k: usize = 0;
    while i < parts.len()
        invariant
            i <= parts@.len(),
            vlen == values@.len(),
            values@.len() == var_count(parts_view(parts@)),
            k == var_count(parts_view(parts@.take(i as int))),
            out@ == filled(parts_view(parts@.take(i as int)), strings_view(values@)),
        decreases parts.len() - i,
    {
        assert(parts_view(parts@.take(i as int + 1)).drop_last() =~= parts_view(parts@.take(i as int)));
        proof {
            let pv = parts_view(parts@);
            lemma_var_count_prefix(pv, i as int + 1);
            assert(parts_view(parts@.take(i as int + 1)) =~= pv.take(i as int + 1));
            assert(parts_view(parts@.take(i as int)) =~= pv.take(i as int));
            assert(pv.take(i as int + 1).drop_last() =~= pv.take(i as int));
            assert(pv.take(i as int + 1).last() == pv[i as int]);
        }
        match &parts[i] {
            TemplatePart::Text(t) => {
                out.append(t.as_str());
            },
            TemplatePart::Var(_) => {
                assert(part_view(parts@[i as int]).0);
                assert(parts_view(parts@)[i as int].0);
                assert(var_count(parts_view(parts@).take(i as int + 1)) == k + 1);
                assert(k < values@.len());
                out.append(values[k].as_str());
                k = k + 1;
            },
        }
        i = i + 1;
    }
    assert(parts@.take(parts@.len() as int) =~= parts@);
    out
}

proof fn lemma_var_count_prefix(p: Seq<(bool, Seq<char>)>, n: int)
    requires
        0 <= n <= p.len(),
    ensures
        var_count(p.take(n)) <= var_count(p),
        n < p.len() && p[n].0 ==> var_count(p.take(n)) < var_count(p),
    decreases p.len() - n,
{
    if n < p.len() {
        lemma_var_count_prefix(p, n + 1);
        assert(p.take(n + 1).drop_last() =~= p.take(n));
    } else {
        assert(p.take(n) =~= p);
    }
}

/// Where an instance's token comes from.
#[derive(Debug)]
pub enum TokenSource<'a> {
    /// A template to expand.
    Inline(&'a str),
    /// A file whose trimmed contents are the token.
    File(&'a PathBuf),
}

/// The inline token wins over a token file; with neither the instance is refused.
pub fn token_source(inst: &InstanceConfig) -> (r: Result<TokenSource<'_>, String>)
    ensures
        match inst.token {
            Some(t) => r matches Ok(TokenSource::Inline(x)) && x@ == t@,
            None => match inst.token_file {
                Some(f) => r matches Ok(TokenSource::File(p)) && *p == f,
                None => r matches Err(e) && e@ == "instance "@ + inst.alias@ + " has neither token nor token_file"@,
            },
        },
{
    match &inst.token {
        Some(t) => Ok(TokenSource::Inline(t.as_str())),
        None => match &inst.token_file {
            Some(f) => Ok(TokenSource::File(f)),
            None => {
                let mut msg = to_owned_string("instance ");
                msg.append(inst.alias.as_str());
                msg.append(" has neither token nor token_file");
                Err(msg)
            },
        },
    }
}

/// A single file name: not empty, not `.` or `..`, and free of path
/// separators and drive colons.
pub open spec fn plain_name(n: Seq<char>) -> bool {
    &&& n.len() > 0
    &&& n != "."@
    &&& n != ".."@
    &&& forall|i: int| 0 <= i < n.len() ==> n[i] != '/' && n[i] != '\\' && n[i] != ':'
}

/// `dir` needs no separator before a file name: it is empty or already
/// ends in a separator (or, on Windows, in a drive's `:`).
pub open spec fn ends_in_separator(dir: Seq<char>) -> bool {
    dir.len() == 0 || dir.last() == '/' || dir.last() == '\\' || dir.last() == ':'
}

/// `p` is directory `dir` with file name `name` adjoined: after one path
/// separator (`/`, or `\\` on Windows), or directly where `dir` needs none.
pub open spec fn joined(dir: Seq<char>, name: Seq<char>, p: Seq<char>) -> bool {
    &&& (p == dir + name || p == dir + seq!['/'] + name || p == dir + seq!['\\'] + name)
    &&& (p == dir + name ==> ends_in_separator(dir))
}

/// `Path::join` of a directory and a relative file name (the path kept as
/// text): `name` extends `dir`, after a separator where one is needed.
#[verifier::external_body]
pub(crate) fn join_path(dir: &str, name: &str) -> (r: String)
    ensures
        plain_name(name@) ==> joined(dir@, name@, r@),
{
    std::path::Path::new(dir).join(name).to_string_lossy().into_owned()
}

/// `config.yaml` inside the configuration directory, when there is one.
pub fn default_config_path(config_dir: Option<String>) -> (r: Option<String>)
    ensures
        match config_dir {
            Some(d) => r matches Some(p) && joined(d@, "config.yaml"@, p@),
            None => r is None,
        },
{
    proof {
        reveal_strlit("config.yaml");
        reveal_strlit(".");
        reveal_strlit("..");
    }
    match config_dir {
        Some(d) => Some(join_path(d.as_str(), "config.yaml")),
        None => None,
    }
}

/// The part of a token file path after a leading `~/`, which is taken
/// relative to the home directory; `None` for any other path.
pub fn home_relative(p: &str) -> (r: Option<&str>)
    ensures
        starts_with(p@, "~/"@) ==> (r matches Some(rest) && rest@ == p@.skip(2)),
        !starts_with(p@, "~/"@) ==> r is None,
{
    if starts_with_exec(p, "~/") {
        proof {
            reveal_strlit("~/");
        }
        let n = char_len(p);
        let rest = slice(p, 2, n);
        assert(rest@ =~= p@.skip(2));
        Some(rest)
    } else {
        None
    }
}

proof fn lemma_no_problem_ws(insts: Seq<InstanceConfig>, n: int)
    requires
        0 <= n <= insts.len(),
        first_problem(insts, n) is None,
    ensures
        forall|i: int| 0 <= i < n ==> starts_with(#[trigger] insts[i].url@, "ws://"@) || starts_with(insts[i].url@, "wss://"@),
    decreases n,
{
    if n > 0 {
        lemma_no_problem_ws(insts, n - 1);
    }
}

/// A configuration passes validation only with at least one instance and
/// every instance URL starting with `ws://` or `wss://`; an `http://` or
/// `https://` URL is refused.
pub proof fn law_validated_urls_are_websocket(insts: Seq<InstanceConfig>)
    requires
        validate_spec(insts) is Ok,
    ensures
        insts.len() > 0,
        forall|i: int| 0 <= i < insts.len() ==> starts_with(#[trigger] insts[i].url@, "ws://"@) || starts_with(
            insts[i].url@,
            "wss://"@,
        ),
{
    lemma_no_problem_ws(insts, insts.len() as int);
}

proof fn lemma_no_problem_distinct(insts: Seq<InstanceConfig>, n: int)
    requires
        0 <= n <= insts.len(),
        first_problem(insts, n) is None,
    ensures
        forall|i: int, j: int| 0 <= i < j < n ==> (#[trigger] insts[i]).alias@ != (#[trigger] insts[j]).alias@,
    decreases n,
{
    if n > 0 {
        lemma_no_problem_distinct(insts, n - 1);
        assert forall|i: int, j: int| 0 <= i < j < n implies (#[trigger] insts[i]).alias@ != (#[trigger] insts[j]).alias@ by {
            if j == n - 1 {
                assert(insts.take(n - 1)[i] == insts[i]);
            }
        }
    }
}

proof fn lemma_good_no_problem(insts: Seq<InstanceConfig>, n: int)
    requires
        0 <= n <= insts.len(),
        forall|i: int, j: int| 0 <= i < j < insts.len() ==> (#[trigger] insts[i]).alias@ != (#[trigger] insts[j]).alias@,
        forall|i: int| 0 <= i < insts.len() ==> starts_with(#[trigger] insts[i].url@, "ws://"@) || starts_with(
            insts[i].url@,
            "wss://"@,
        ),
    ensures
        first_problem(insts, n) is None,
    decreases n,
{
    if n > 0 {
        lemma_good_no_problem(insts, n - 1);
        let a = insts[n - 1].alias@;
        if alias_among(insts.take(n - 1), a) {
            let j = choose|j: int| 0 <= j < insts.take(n - 1).len() && (#[trigger] insts.take(n - 1)[j]).alias@ == a;
            assert(insts[j].alias@ == insts[n - 1].alias@);
        }
        assert(starts_with(insts[n - 1].url@, "ws://"@) || starts_with(insts[n - 1].url@, "wss://"@));
    }
}

/// A configuration passes validation exactly when it has an instance, no two
/// instances share an alias, and every URL starts with `ws://` or `wss://`.
pub proof fn law_validation_accepts_exactly(insts: Seq<InstanceConfig>)
    ensures
        validate_spec(insts) is Ok <==> {
            &&& insts.len() > 0
            &&& forall|i: int, j: int| 0 <= i < j < insts.len() ==> (#[trigger] insts[i]).alias@ != (#[trigger] insts[j]).alias@
            &&& forall|i: int| 0 <= i < insts.len() ==> starts_with(#[trigger] insts[i].url@, "ws://"@) || starts_with(
                insts[i].url@,
                "wss://"@,
            )
        },
{
    if validate_spec(insts) is Ok {
        lemma_no_problem_ws(insts, insts.len() as int);
        lemma_no_problem_distinct(insts, insts.len() as int);
    }
    if insts.len() > 0 && (forall|i: int, j: int| 0 <= i < j < insts.len() ==> (#[trigger] insts[i]).alias@ != (
    #[trigger] insts[j]).alias@) && (forall|i: int| 0 <= i < insts.len() ==> starts_with(#[trigger] insts[i].url@, "ws://"@)
        || starts_with(insts[i].url@, "wss://"@)) {
        lemma_good_no_problem(insts, insts.len() as int);
    }
}

} // verus!
