//! Screen state, the instance form's field order, and the entity list rows.
use vstd::prelude::*;

use crate::dashboard::{Alias, EntityId};
use crate::ha::{state_entries, state_map_values, EntityState, InstanceRuntime};
use crate::sort::{lemma_multiset_map, sort_by_key, sorted_by_key, SortKey};
use crate::strings::{contains_exec, contains_str, find_char, find_char_in, slice, str_eq, to_owned_string};

verus! {

#[derive(Clone, Copy, PartialEq, Eq, Structural, Debug)]
pub enum Screen {
    Dashboard { idx: usize, selected_card: usize, sub_index: usize },
    Editor,
}

impl Screen {
    /// The first dashboard, nothing selected.
    pub fn default() -> (r: Screen)
        ensures
            r == (Screen::Dashboard { idx: 0, selected_card: 0, sub_index: 0 }),
    {
        Screen::Dashboard { idx: 0, selected_card: 0, sub_index: 0 }
    }
}

#[derive(Debug)]
pub enum InstanceFormMode {
    New,
    Edit { original_alias: Alias },
}

#[derive(Clone, Copy, PartialEq, Eq, Structural, Debug)]
pub enum InstanceFormField {
    Alias,
    Url,
    Token,
    Color,
}

/// The field after `f` in the form: Alias → Url → Token → Color → Alias.
pub open spec fn field_after(f: InstanceFormField) -> InstanceFormField {
    match f {
        InstanceFormField::Alias => InstanceFormField::Url,
        InstanceFormField::Url => InstanceFormField::Token,
        InstanceFormField::Token => InstanceFormField::Color,
        InstanceFormField::Color => InstanceFormField::Alias,
    }
}

/// The field before `f` in the form.
pub open spec fn field_before(f: InstanceFormField) -> InstanceFormField {
    match f {
        InstanceFormField::Alias => InstanceFormField::Color,
        InstanceFormField::Url => InstanceFormField::Alias,
        InstanceFormField::Token => InstanceFormField::Url,
        InstanceFormField::Color => InstanceFormField::Token,
    }
}

impl InstanceFormField {
    pub fn next(self) -> (r: Self)
        ensures
            r == field_after(self),
    {
        match self {
            InstanceFormField::Alias => InstanceFormField::Url,
            InstanceFormField::Url => InstanceFormField::Token,
            InstanceFormField::Token => InstanceFormField::Color,
            InstanceFormField::Color => InstanceFormField::Alias,
        }
    }

    pub fn prev(self) -> (r: Self)
        ensures
            r == field_before(self),
    {
        match self {
            InstanceFormField::Alias => InstanceFormField::Color,
            InstanceFormField::Url => InstanceFormField::Alias,
            InstanceFormField::Token => InstanceFormField::Url,
            InstanceFormField::Color => InstanceFormField::Token,
        }
    }
}

/// A text field of the instance form: a `tui_input` buffer.
#[verifier::external_type_specification]
#[verifier::external_body]
pub struct ExInput(tui_input::Input);

/// The text a form buffer holds.
pub uninterp spec fn input_text(i: tui_input::Input) -> Seq<char>;

/// How many characters precede a form buffer's cursor.
pub uninterp spec fn input_cursor(i: tui_input::Input) -> nat;

/// `tui_input::Input::new`: a buffer holding `value`, its cursor after the
/// last character (the source sets it to the value's character count).
#[verifier::external_body]
fn input_new(value: String) -> (r: tui_input::Input)
    ensures
        input_text(r) == value@,
        input_cursor(r) == value@.len(),
{
    tui_input::Input::new(value)
}

/// `tui_input::Input::default`: an empty buffer, its cursor at 0 (the
/// derived default of an empty value and a zero cursor).
#[verifier::external_body]
fn input_empty() -> (r: tui_input::Input)
    ensures
        input_text(r) == Seq::<char>::empty(),
        input_cursor(r) == 0,
{
    tui_input::Input::default()
}

/// The form that adds or edits a Home Assistant instance.
#[derive(Debug)]
pub struct InstanceFormState {
    pub mode: InstanceFormMode,
    pub alias_buf: tui_input::Input,
    pub url_buf: tui_input::Input,
    pub token_buf: tui_input::Input,
    pub color_buf: tui_input::Input,
    pub focus: InstanceFormField,
    pub error: Option<String>,
    /// Esc quits the program (a first run has nothing else to show).
    pub first_run: bool,
}

/// `f` starts on the alias field with no error, every buffer with its
/// cursor at the end of its text.
pub open spec fn form_fresh(f: InstanceFormState) -> bool {
    &&& f.focus == InstanceFormField::Alias
    &&& f.error is None
    &&& input_cursor(f.alias_buf) == input_text(f.alias_buf).len()
    &&& input_cursor(f.url_buf) == input_text(f.url_buf).len()
    &&& input_cursor(f.token_buf) == input_text(f.token_buf).len()
    &&& input_cursor(f.color_buf) == input_text(f.color_buf).len()
}

impl InstanceFormState {
    /// An empty form for a new instance.
    pub fn new_add() -> (r: Self)
        ensures
            r.mode is New,
            form_fresh(r),
            input_text(r.alias_buf) == Seq::<char>::empty(),
            input_text(r.url_buf) == Seq::<char>::empty(),
            input_text(r.token_buf) == Seq::<char>::empty(),
            input_text(r.color_buf) == Seq::<char>::empty(),
            !r.first_run,
    {
        InstanceFormState {
            mode: InstanceFormMode::New,
            alias_buf: input_empty(),
            url_buf: input_empty(),
            token_buf: input_empty(),
            color_buf: input_empty(),
            focus: InstanceFormField::Alias,
            error: None,
            first_run: false,
        }
    }

    /// The empty form shown when no instance is configured yet.
    pub fn new_first_run() -> (r: Self)
        ensures
            r.mode is New,
            form_fresh(r),
            input_text(r.alias_buf) == Seq::<char>::empty(),
            input_text(r.url_buf) == Seq::<char>::empty(),
            input_text(r.token_buf) == Seq::<char>::empty(),
            input_text(r.color_buf) == Seq::<char>::empty(),
            r.first_run,
    {
        let mut f = Self::new_add();
        f.first_run = true;
        f
    }

    /// The form editing instance `alias`, filled with its URL and colour; the
    /// token is left empty.
    pub fn new_edit(alias: &str, url: &str, color: Option<&str>) -> (r: Self)
        ensures
            r.mode matches InstanceFormMode::Edit { original_alias } && original_alias@ == alias@,
            form_fresh(r),
            input_text(r.alias_buf) == alias@,
            input_text(r.url_buf) == url@,
            input_text(r.token_buf) == Seq::<char>::empty(),
            input_text(r.color_buf) == match color {
                Some(c) => c@,
                None => Seq::<char>::empty(),
            },
            !r.first_run,
    {
        let c = match color {
            Some(c) => to_owned_string(c),
            None => String::new(),
        };
        InstanceFormState {
            mode: InstanceFormMode::Edit { original_alias: to_owned_string(alias) },
            alias_buf: input_new(to_owned_string(alias)),
            url_buf: input_new(to_owned_string(url)),
            token_buf: input_empty(),
            color_buf: input_new(c),
            focus: InstanceFormField::Alias,
            error: None,
            first_run: false,
        }
    }
}

/// Moving to the next field and back (or back and then on) returns to the
/// same field, and four steps forward go round the whole form.
pub proof fn law_form_field_cycle(f: InstanceFormField)
    ensures
        field_before(field_after(f)) == f,
        field_after(field_before(f)) == f,
        field_after(field_after(field_after(field_after(f)))) == f,
{
}

/// The domain of an entity id: the part before the first `.`, or the whole id.
pub open spec fn entity_domain_spec(id: Seq<char>) -> Seq<char> {
    match find_char(id, '.') {
        Some(i) => id.take(i),
        None => id,
    }
}

pub fn entity_domain(id: &EntityId) -> (r: &str)
    ensures
        r@ == entity_domain_spec(id@),
{
    proof {
        crate::strings::lemma_find_char_bound(id@, '.');
    }
    match find_char_in(id.as_str(), '.') {
        Some(i) => {
            let d = slice(id.as_str(), 0, i);
            assert(d@ =~= id@.take(i as int));
            d
        },
        None => id.as_str(),
    }
}

/// One entry of the entity list.
pub struct EntityRow<'a> {
    pub instance: &'a Alias,
    pub state: &'a EntityState,
}

impl<'a> SortKey for EntityRow<'a> {
    open spec fn key_view(&self) -> Seq<char> {
        self.state.entity_id@
    }

    fn sort_key(&self) -> (r: &str) {
        self.state.entity_id.as_str()
    }
}

/// An entity row as (instance alias, entity id).
pub open spec fn row_key(r: EntityRow) -> (Seq<char>, Seq<char>) {
    (r.instance@, r.state.entity_id@)
}

/// The states of one instance that a search keeps, as (alias, id) pairs in map order.
pub open spec fn kept_states(alias: Seq<char>, entries: Seq<(Seq<char>, EntityState)>, search: Seq<char>) -> Seq<(Seq<char>, Seq<char>)>
    decreases entries.len(),
{
    if entries.len() == 0 {
        Seq::empty()
    } else {
        let prev = kept_states(alias, entries.drop_last(), search);
        let id = entries.last().1.entity_id@;
        if search.len() == 0 || contains_str(id, search) {
            prev.push((alias, id))
        } else {
            prev
        }
    }
}

/// All (alias, id) pairs an entity list shows, before sorting.
pub open spec fn candidate_rows(rts: Seq<InstanceRuntime>, filter: Option<Seq<char>>, search: Seq<char>) -> Seq<(Seq<char>, Seq<char>)>
    decreases rts.len(),
{
    if rts.len() == 0 {
        Seq::empty()
    } else {
        let prev = candidate_rows(rts.drop_last(), filter, search);
        let rt = rts.last();
        if filter matches Some(f) && rt.alias@ != f {
            prev
        } else {
            prev + kept_states(rt.alias@, state_entries(rt.states), search)
        }
    }
}

/// Flatten every instance's entities into one list sorted by entity id,
/// optionally limited to one instance and to ids containing `search`.
pub fn build_rows<'a>(runtimes: &'a Vec<InstanceRuntime>, instance_filter: Option<&Alias>, search: &str) -> (r: Vec<EntityRow<'a>>)
    ensures
        sorted_by_key(r@),
        r@.map_values(|x: EntityRow<'a>| row_key(x)).to_multiset() == candidate_rows(
            runtimes@,
            match instance_filter {
                Some(f) => Some(f@),
                None => None,
            },
            search@,
        ).to_multiset(),
{
    let ghost filt = match instance_filter {
        Some(f) => Some(f@),
        None => None,
    };
    let empty_search = crate::strings::char_len(search) == 0;
    let mut rows: Vec<EntityRow<'a>> = Vec::new();
    let mut i: usize = 0;
    while i < runtimes.len()
        invariant
            i <= runtimes@.len(),
            empty_search == (search@.len() == 0),
            filt == match instance_filter {
                Some(f) => Some(f@),
                None => None,
            },
            rows@.map_values(|x: EntityRow<'a>| row_key(x)) == candidate_rows(runtimes@.take(i as int), filt, search@),
        decreases runtimes.len() - i,
    {
        let rt = &runtimes[i];
        assert(runtimes@.take(i as int + 1).drop_last() =~= runtimes@.take(i as int));
        let keep_instance = match instance_filter {
            Some(f) => str_eq(rt.alias.as_str(), f.as_str()),
            None => true,
        };
        if keep_instance {
            let states = state_map_values(&rt.states);
            let ghost entries = state_entries(rt.states);
            let ghost base = rows@.map_values(|x: EntityRow<'a>| row_key(x));
            let mut j: usize = 0;
            while j < states.len()
                invariant
                    j <= states@.len(),
                    states@.len() == entries.len(),
                    forall|k: int| 0 <= k < states@.len() ==> *(#[trigger] states@[k]) == entries[k].1,
                    empty_search == (search@.len() == 0),
                    rows@.map_values(|x: EntityRow<'a>| row_key(x)) == base + kept_states(rt.alias@, entries.take(j as int), search@),
                decreases states.len() - j,
            {
                let st = states[j];
                assert(entries.take(j as int + 1).drop_last() =~= entries.take(j as int));
                if empty_search || contains_exec(st.entity_id.as_str(), search) {
                    let ghost before = rows@.map_values(|x: EntityRow<'a>| row_key(x));
                    rows.push(EntityRow { instance: &rt.alias, state: st });
                    assert(rows@.map_values(|x: EntityRow<'a>| row_key(x)) =~= before.push((rt.alias@, st.entity_id@)));
                }
                j = j + 1;
            }
            assert(entries.take(states@.len() as int) =~= entries);
        } else {
            assert(rows@.map_values(|x: EntityRow<'a>| row_key(x)) =~= candidate_rows(runtimes@.take(i as int + 1), filt, search@));
        }
        i = i + 1;
    }
    assert(runtimes@.take(runtimes@.len() as int) =~= runtimes@);
    let sorted = sort_by_key(rows);
    proof {
        lemma_multiset_map(sorted@, rows@, |x: EntityRow<'a>| row_key(x));
    }
    sorted
}

} // verus!
