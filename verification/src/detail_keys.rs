//! The editor's steps that edit a card's details (colour, graph series,
//! orientation and window, gauge thresholds, entity-list overrides, a
//! filtered list's query), the grid's row and column steps, and the context
//! menu's keys.
use vstd::prelude::*;

use crate::builder::opt_view;
use crate::card_edit::{applies, card_edited, CardEdit};
use crate::dashboard::{
    BarOrientation, Card, CardKind, Dashboard, EntityListItem, EntityOverride, RawF64, RowHeight, Severity,
};
use crate::editor::{
    card_added, snapshot_stack, EditorMode, EditorState, FilterFocus, MenuAction, MenuContext, MenuItem, SeriesIndexOp,
    SeverityAccum,
};
use crate::flat::flat_cards;
use crate::grid_ops::{column_removed, grid_rows, is_grid, max_id, row_added, row_height_set, row_removed, same_shape};
use crate::query::{parse_spec, EntityQuery};
use crate::strings::{char_len, parse_u16, parse_uint_spec, parse_usize, str_eq, to_owned_string, trim, trim_str};
use crate::wizard::{trimmed_opt, trimmed_or_none, type_digit_key, type_key, typed, typed_digits, Key};

verus! {

// ── outside facts ───────────────────────────────────────────────────────────

/// What `char::is_alphanumeric` says of `c`: alphabetic or numeric in Unicode.
pub uninterp spec fn unicode_alphanumeric(c: char) -> bool;

/// `char::is_alphanumeric`. Of ASCII characters exactly the letters and
/// digits are alphanumeric; of the others the contract says only that the
/// result is `unicode_alphanumeric(c)`.
#[verifier::external_body]
fn is_alphanumeric(c: char) -> (r: bool)
    ensures
        r == unicode_alphanumeric(c),
        (c as u32) < 128 ==> (r <==> ('0' <= c <= '9' || 'a' <= c <= 'z' || 'A' <= c <= 'Z')),
{
    c.is_alphanumeric()
}

/// What `str::to_lowercase` gives for `s`: its Unicode lowercase mapping.
pub uninterp spec fn unicode_lowercase(s: Seq<char>) -> Seq<char>;

/// `str::to_lowercase`: the lowercase of `s`, as a new string.
#[verifier::external_body]
fn to_lowercase(s: &str) -> (r: String)
    ensures
        r@ == unicode_lowercase(s@),
{
    s.to_lowercase()
}

/// What the caller knows of the text field that the library cannot work out
/// itself.
pub struct KeyFacts {
    /// Whether the trimmed field names a colour (a named colour or `#rrggbb`).
    pub color_ok: bool,
    /// The trimmed field read as a floating-point number (its bits), when it
    /// reads as one.
    pub number: Option<RawF64>,
    /// The text the next severity threshold's field starts with: the card's
    /// current threshold, written out, or empty.
    pub next_text: String,
}

// ── small pieces ────────────────────────────────────────────────────────────

/// A list selection after a key: Up or `k` moves up, Down or `j` down, within `n` entries.
pub open spec fn vim_selection(selected: usize, n: int, key: Key) -> usize {
    match key {
        Key::Up | Key::Char('k') => if selected > 0 { (selected - 1) as usize } else { selected },
        Key::Down | Key::Char('j') => if selected + 1 < n { (selected + 1) as usize } else { selected },
        _ => selected,
    }
}

fn vim_select(selected: usize, n: usize, key: Key) -> (r: usize)
    ensures
        r == vim_selection(selected, n as int, key),
{
    match key {
        Key::Up | Key::Char('k') => if selected > 0 {
            selected - 1
        } else {
            selected
        },
        Key::Down | Key::Char('j') => if selected < n && selected + 1 < n {
            selected + 1
        } else {
            selected
        },
        _ => selected,
    }
}

/// A text field that takes only alphanumeric characters.
pub open spec fn typed_alnum(buf: Seq<char>, key: Key) -> Seq<char> {
    match key {
        Key::Char(c) => if unicode_alphanumeric(c) { buf.push(c) } else { buf },
        _ => typed(buf, key),
    }
}

fn type_alnum_key(buf: &mut String, key: Key)
    ensures
        final(buf)@ == typed_alnum(old(buf)@, key),
{
    match key {
        Key::Char(c) => {
            if is_alphanumeric(c) {
                type_key(buf, key);
            }
        },
        _ => type_key(buf, key),
    }
}

/// A row height as the row steps read it (already trimmed and lowercased):
/// `auto`, or a whole number of lines (at least one).
pub open spec fn row_height_spec(raw: Seq<char>) -> Option<RowHeight> {
    if raw == "auto"@ {
        Some(RowHeight::Auto)
    } else {
        match parse_uint_spec(raw, u16::MAX as nat) {
            Some(n) => Some(RowHeight::Fixed(if n == 0 { 1 } else { n as u16 })),
            None => None,
        }
    }
}

/// Read a row height: `auto`, or a whole number of lines (at least one).
pub fn row_height_from(raw: &str) -> (r: Option<RowHeight>)
    ensures
        r == row_height_spec(raw@),
{
    if str_eq(raw, "auto") {
        return Some(RowHeight::Auto);
    }
    match parse_u16(raw) {
        Some(n) => Some(RowHeight::Fixed(if n == 0 { 1 } else { n })),
        None => None,
    }
}

/// The number of columns a new row asks for: the field read as a count, one
/// when it does not read as one or is zero.
pub open spec fn column_count_spec(buf: Seq<char>) -> usize {
    match parse_uint_spec(trim(buf), usize::MAX as nat) {
        Some(n) => if n == 0 { 1 } else { n as usize },
        None => 1,
    }
}

fn column_count(buf: &str) -> (r: usize)
    ensures
        r == column_count_spec(buf@),
{
    match parse_usize(trim_str(buf)) {
        Some(n) => if n == 0 {
            1
        } else {
            n
        },
        None => 1,
    }
}

/// The orientation picker after a key: Up (or `k`) picks vertical, Down (or
/// `j`) horizontal.
pub open spec fn orientation_after(o: BarOrientation, key: Key) -> BarOrientation {
    match key {
        Key::Up | Key::Char('k') => BarOrientation::Vertical,
        Key::Down | Key::Char('j') => BarOrientation::Horizontal,
        _ => o,
    }
}

/// The next focus of the filter-query form.
pub open spec fn next_filter_focus(f: FilterFocus) -> FilterFocus {
    match f {
        FilterFocus::Query => FilterFocus::Title,
        FilterFocus::Title => FilterFocus::HideToggle,
        FilterFocus::HideToggle => FilterFocus::Query,
    }
}

/// The message for a colour the theme does not know.
pub open spec fn bad_color_message(t: Seq<char>) -> Seq<char> {
    "invalid color \""@ + t + "\" — use a named color or #rrggbb"@
}

fn bad_color(t: &str) -> (r: String)
    ensures
        r@ == bad_color_message(t@),
{
    let mut m = to_owned_string("invalid color \"");
    m.append(t);
    m.append("\" — use a named color or #rrggbb");
    m
}

/// The message for a threshold that is not a number.
pub open spec fn bad_number_message() -> Seq<char> {
    "invalid number — enter a numeric value"@
}

/// The message for a row height that is neither a number nor `auto`.
pub open spec fn bad_height_message() -> Seq<char> {
    "enter a number or \"auto\""@
}

// ── what the dashboard says about a card ────────────────────────────────────

/// The series of the graph card at `idx` (none for any other card).
pub open spec fn series_of(d: Dashboard, idx: usize) -> Seq<crate::dashboard::GraphSeries> {
    let fl = flat_cards(d);
    if idx < fl.len() {
        match fl[idx as int].kind {
            CardKind::Graph { entities, .. } => entities@,
            _ => Seq::empty(),
        }
    } else {
        Seq::empty()
    }
}

fn series_count(d: &Dashboard, idx: usize) -> (r: usize)
    ensures
        r == series_of(*d, idx).len(),
{
    match d.card(idx) {
        Some(card) => match &card.kind {
            CardKind::Graph { entities, .. } => entities.len(),
            _ => 0,
        },
        None => 0,
    }
}

/// The text a series field starts with: its colour (`color`) or label, or empty.
pub open spec fn series_text(d: Dashboard, idx: usize, sidx: usize, color: bool) -> Seq<char> {
    let s = series_of(d, idx);
    if sidx < s.len() {
        match if color { s[sidx as int].color } else { s[sidx as int].label } {
            Some(t) => t@,
            None => Seq::empty(),
        }
    } else {
        Seq::empty()
    }
}

fn series_field(d: &Dashboard, idx: usize, sidx: usize, color: bool) -> (r: String)
    ensures
        r@ == series_text(*d, idx, sidx, color),
{
    match d.card(idx) {
        Some(card) => match &card.kind {
            CardKind::Graph { entities, .. } => {
                if sidx < entities.len() {
                    let f = if color {
                        &entities[sidx].color
                    } else {
                        &entities[sidx].label
                    };
                    match f {
                        Some(t) => t.clone(),
                        None => String::new(),
                    }
                } else {
                    String::new()
                }
            },
            _ => String::new(),
        },
        None => String::new(),
    }
}

/// The name and hidden state an entity-list entry's override form starts
/// with: the entry's name override and hide flag, or empty and off.
pub open spec fn entry_prefill(d: Dashboard, idx: usize, item: usize) -> (Seq<char>, bool) {
    let fl = flat_cards(d);
    if idx < fl.len() {
        match fl[idx as int].kind {
            CardKind::EntityList { entities, .. } => if item < entities@.len() {
                match entities@[item as int] {
                    EntityListItem::Full { name, hide_state, .. } => (
                        match name {
                            Some(n) => n@,
                            None => Seq::empty(),
                        },
                        hide_state == Some(true),
                    ),
                    EntityListItem::Bare(_) => (Seq::empty(), false),
                }
            } else {
                (Seq::empty(), false)
            },
            _ => (Seq::empty(), false),
        }
    } else {
        (Seq::empty(), false)
    }
}

fn entry_fields(d: &Dashboard, idx: usize, item: usize) -> (r: (String, bool))
    ensures
        r.0@ == entry_prefill(*d, idx, item).0,
        r.1 == entry_prefill(*d, idx, item).1,
{
    match d.card(idx) {
        Some(card) => match &card.kind {
            CardKind::EntityList { entities, .. } => {
                if item < entities.len() {
                    let name = match entities[item].name_override() {
                        Some(n) => to_owned_string(n),
                        None => String::new(),
                    };
                    let hide = match entities[item].hide_state_override() {
                        Some(h) => h,
                        None => false,
                    };
                    (name, hide)
                } else {
                    (String::new(), false)
                }
            },
            _ => (String::new(), false),
        },
        None => (String::new(), false),
    }
}

// ── the steps ───────────────────────────────────────────────────────────────

/// When a card edit marks the editor as changed.
#[derive(Clone, Copy, PartialEq, Eq, Structural, Debug)]
pub enum DirtyWhen {
    Always,
    /// When the card exists.
    IfCard,
    /// When the card has the field the edit is about.
    IfApplies,
}

/// What a detail step finishes.
#[derive(Debug)]
pub enum DetailFinish {
    Nothing,
    /// Edit the card at `idx` after an undo snapshot.
    Card { idx: usize, edit: CardEdit, dirty: DirtyWhen },
    /// Add (or, with an edit target, replace) a card after an undo snapshot.
    AddCard(CardKind),
    /// Append a row to the grid after an undo snapshot.
    AddRow { height: RowHeight, cols: usize },
    /// Set a row's height.
    SetRowHeight { row: usize, height: RowHeight },
    /// Remove a row after an undo snapshot, dropping the selection and focus.
    RemoveRow(usize),
    /// Remove a column after an undo snapshot, dropping the selection and focus.
    RemoveColumn(usize, usize),
    /// Carry out a menu action.
    Menu(MenuAction, MenuContext),
    /// The step could not go on; the message says why.
    Failed(String),
}

pub struct DetailStep {
    pub mode: EditorMode,
    pub finish: DetailFinish,
}

/// The step stays where it is.
pub open spec fn stays(r: DetailStep) -> bool {
    r.finish is Nothing
}

/// Leaving a step with Esc.
pub open spec fn cancelled(r: DetailStep) -> bool {
    r.mode is Browse && r.finish is Nothing
}

/// Finishing a step with a card edit.
pub open spec fn edits(r: DetailStep, idx: usize, e: CardEdit, dirty: DirtyWhen) -> bool {
    r.mode is Browse && r.finish == (DetailFinish::Card { idx, edit: e, dirty })
}

/// The editor is in one of the detail steps.
pub open spec fn is_detail_step(m: EditorMode) -> bool {
    m is EnterColorOverride || m is GraphPickSeriesIndex || m is GraphEditSeriesColor || m is GraphEditSeriesLabel
        || m is GraphEditWindow || m is GraphPickOrientation || m is EditSeverityGreen || m is EditSeverityYellow
        || m is EditSeverityRed || m is EditingFilterQuery || m is PickEntityListItemToOverride
        || m is EditEntityListItemOverride || m is Menu || m is PickingNewRowHeight || m is PickingNewRowColumnCount
        || m is EditingRowHeight || m is ConfirmRemoveRow || m is ConfirmRemoveColumn
}

/// A colour field's value: none when blank.
pub open spec fn color_value(buf: Seq<char>) -> Option<Seq<char>> {
    trimmed_opt(buf)
}

/// What a key does in one detail step.
pub open spec fn detail_step_spec(m: EditorMode, key: Key, d: Dashboard, f: KeyFacts, r: DetailStep) -> bool {
    match m {
        EditorMode::EnterColorOverride { card_idx, buf } => match key {
            Key::Esc => cancelled(r),
            Key::Enter => if trim(buf@).len() == 0 {
                r.mode is Browse && (r.finish matches DetailFinish::Card { idx, edit: CardEdit::Color(c), dirty } && idx == card_idx
                    && c is None && dirty == DirtyWhen::Always)
            } else if !f.color_ok {
                r.mode == m && (r.finish matches DetailFinish::Failed(msg) && msg@ == bad_color_message(trim(buf@)))
            } else {
                r.mode is Browse && (r.finish matches DetailFinish::Card { idx, edit: CardEdit::Color(c), dirty } && idx == card_idx
                    && c is Some && c->0@ == trim(buf@) && dirty == DirtyWhen::Always)
            },
            _ => stays(r) && (r.mode matches EditorMode::EnterColorOverride { card_idx: i, buf: b } && i == card_idx && b@
                == typed(buf@, key)),
        },
        EditorMode::GraphPickSeriesIndex { card_idx, op, selected } => match key {
            Key::Esc => cancelled(r),
            Key::Enter => match op {
                SeriesIndexOp::Remove => edits(r, card_idx, CardEdit::SeriesRemove(selected), DirtyWhen::Always),
                SeriesIndexOp::SetColor => stays(r) && (r.mode matches EditorMode::GraphEditSeriesColor { card_idx: i, series_idx, buf }
                    && i == card_idx && series_idx == selected && buf@ == series_text(d, card_idx, selected, true)),
                SeriesIndexOp::SetLabel => stays(r) && (r.mode matches EditorMode::GraphEditSeriesLabel { card_idx: i, series_idx, buf }
                    && i == card_idx && series_idx == selected && buf@ == series_text(d, card_idx, selected, false)),
            },
            _ => stays(r) && r.mode == (EditorMode::GraphPickSeriesIndex {
                card_idx,
                op,
                selected: vim_selection(selected, series_of(d, card_idx).len() as int, key),
            }),
        },
        EditorMode::GraphEditSeriesColor { card_idx, series_idx, buf } => match key {
            Key::Esc => cancelled(r),
            Key::Enter => if trim(buf@).len() > 0 && !f.color_ok {
                r.mode == m && (r.finish matches DetailFinish::Failed(msg) && msg@ == bad_color_message(trim(buf@)))
            } else {
                r.mode is Browse && (r.finish matches DetailFinish::Card { idx, edit: CardEdit::SeriesColor(s, c), dirty }
                    && idx == card_idx && s == series_idx && opt_view(c) == color_value(buf@) && dirty == DirtyWhen::Always)
            },
            _ => stays(r) && (r.mode matches EditorMode::GraphEditSeriesColor { card_idx: i, series_idx: s, buf: b } && i
                == card_idx && s == series_idx && b@ == typed(buf@, key)),
        },
        EditorMode::GraphEditSeriesLabel { card_idx, series_idx, buf } => match key {
            Key::Esc => cancelled(r),
            Key::Enter => r.mode is Browse && (r.finish matches DetailFinish::Card { idx, edit: CardEdit::SeriesLabel(s, l), dirty }
                && idx == card_idx && s == series_idx && opt_view(l) == trimmed_opt(buf@) && dirty == DirtyWhen::Always),
            _ => stays(r) && (r.mode matches EditorMode::GraphEditSeriesLabel { card_idx: i, series_idx: s, buf: b } && i
                == card_idx && s == series_idx && b@ == typed(buf@, key)),
        },
        EditorMode::GraphEditWindow { card_idx, buf } => match key {
            Key::Esc => cancelled(r),
            Key::Enter => if trim(buf@).len() == 0 {
                cancelled(r)
            } else {
                r.mode is Browse && (r.finish matches DetailFinish::Card { idx, edit: CardEdit::GraphWindow(w), dirty } && idx
                    == card_idx && w@ == trim(buf@) && dirty == DirtyWhen::Always)
            },
            _ => stays(r) && (r.mode matches EditorMode::GraphEditWindow { card_idx: i, buf: b } && i == card_idx && b@
                == typed(buf@, key)),
        },
        EditorMode::GraphPickOrientation { card_idx, current } => match key {
            Key::Esc => cancelled(r),
            Key::Enter => edits(r, card_idx, CardEdit::GraphOrientation(current), DirtyWhen::Always),
            _ => stays(r) && r.mode == (EditorMode::GraphPickOrientation { card_idx, current: orientation_after(current, key) }),
        },
        EditorMode::EditSeverityGreen { card_idx, buf, accum } => match key {
            Key::Esc => cancelled(r),
            Key::Enter => match f.number {
                Some(v) => stays(r) && (r.mode matches EditorMode::EditSeverityYellow { card_idx: i, buf: b, accum: a2 } && i
                    == card_idx && b@ == f.next_text@ && a2 == (SeverityAccum { green: v, yellow: accum.yellow })),
                None => r.mode == m && (r.finish matches DetailFinish::Failed(msg) && msg@ == bad_number_message()),
            },
            _ => stays(r) && (r.mode matches EditorMode::EditSeverityGreen { card_idx: i, buf: b, accum: a2 } && i == card_idx
                && a2 == accum && b@ == typed(buf@, key)),
        },
        EditorMode::EditSeverityYellow { card_idx, buf, accum } => match key {
            Key::Esc => cancelled(r),
            Key::Enter => match f.number {
                Some(v) => stays(r) && (r.mode matches EditorMode::EditSeverityRed { card_idx: i, buf: b, accum: a2 } && i
                    == card_idx && b@ == f.next_text@ && a2 == (SeverityAccum { green: accum.green, yellow: v })),
                None => r.mode == m && (r.finish matches DetailFinish::Failed(msg) && msg@ == bad_number_message()),
            },
            _ => stays(r) && (r.mode matches EditorMode::EditSeverityYellow { card_idx: i, buf: b, accum: a2 } && i == card_idx
                && a2 == accum && b@ == typed(buf@, key)),
        },
        EditorMode::EditSeverityRed { card_idx, buf, accum } => match key {
            Key::Esc => cancelled(r),
            Key::Enter => match f.number {
                Some(v) => edits(
                    r,
                    card_idx,
                    CardEdit::Severity(Severity { green: accum.green, yellow: accum.yellow, red: v }),
                    DirtyWhen::Always,
                ),
                None => r.mode == m && (r.finish matches DetailFinish::Failed(msg) && msg@ == bad_number_message()),
            },
            _ => stays(r) && (r.mode matches EditorMode::EditSeverityRed { card_idx: i, buf: b, accum: a2 } && i == card_idx
                && a2 == accum && b@ == typed(buf@, key)),
        },
        EditorMode::EditingFilterQuery { instance, query_buffer, title_buffer, hide_state, focus } => match key {
            Key::Esc => cancelled(r),
            Key::F(2) => {
                let q = trim(query_buffer@);
                &&& r.mode is Browse
                &&& if q.len() == 0 {
                    r.finish matches DetailFinish::Failed(msg) && msg@ == "query cannot be empty"@
                } else {
                    match parse_spec(q) {
                        Err(e) => r.finish matches DetailFinish::Failed(msg) && msg@ == "invalid query: "@ + e,
                        Ok(_) => r.finish matches DetailFinish::AddCard(CardKind::FilteredEntityList {
                            instance: i,
                            query: qq,
                            hide_state: h,
                            hide_when_empty: w,
                            title: t,
                            overrides: o,
                        }) && i == instance && qq@ == q && h == hide_state && !w && opt_view(t) == trimmed_opt(title_buffer@)
                            && o@.len() == 0,
                    }
                }
            },
            _ => stays(r) && (r.mode matches EditorMode::EditingFilterQuery {
                instance: i,
                query_buffer: qb,
                title_buffer: tb,
                hide_state: h,
                focus: fo,
            } && i == instance && match key {
                Key::Tab => qb == query_buffer && tb == title_buffer && h == hide_state && fo == next_filter_focus(focus),
                Key::Char(' ') if focus == FilterFocus::HideToggle => qb == query_buffer && tb == title_buffer && h
                    == !hide_state && fo == focus,
                Key::Backspace | Key::Char(_) => h == hide_state && fo == focus && match focus {
                    FilterFocus::Query => qb@ == typed(query_buffer@, key) && tb == title_buffer,
                    FilterFocus::Title => tb@ == typed(title_buffer@, key) && qb == query_buffer,
                    FilterFocus::HideToggle => qb == query_buffer && tb == title_buffer,
                },
                _ => qb == query_buffer && tb == title_buffer && h == hide_state && fo == focus,
            }),
        },
        EditorMode::PickEntityListItemToOverride { card_idx, items, selected } => match key {
            Key::Esc => cancelled(r),
            Key::Enter => {
                let item = items@[selected as int].0;
                let (name, hide) = entry_prefill(d, card_idx, item);
                stays(r) && (r.mode matches EditorMode::EditEntityListItemOverride {
                    card_idx: i,
                    item_idx,
                    entity_id,
                    name_buf,
                    hide_state,
                    focus_entity_id,
                } && i == card_idx && item_idx == item && entity_id is None && name_buf@ == name && hide_state == hide
                    && !focus_entity_id)
            },
            _ => stays(r) && (r.mode matches EditorMode::PickEntityListItemToOverride { card_idx: i, items: it, selected: s }
                && i == card_idx && it == items && s == vim_selection(selected, items@.len() as int, key)),
        },
        EditorMode::EditEntityListItemOverride { card_idx, item_idx, entity_id, name_buf, hide_state, focus_entity_id } =>
            match key {
            Key::Esc => cancelled(r),
            Key::Enter if !focus_entity_id => r.mode is Browse && (r.finish matches DetailFinish::Card {
                idx,
                edit: CardEdit::EntryOverride { item, entity, name, hide },
                dirty,
            } && idx == card_idx && item == item_idx && hide == hide_state && opt_view(name) == trimmed_opt(name_buf@)
                && dirty == DirtyWhen::IfCard && match entity_id {
                Some(e) => entity is Some && entity->0@ == trim(e@),
                None => entity is None,
            }),
            _ => stays(r) && (r.mode matches EditorMode::EditEntityListItemOverride {
                card_idx: c,
                item_idx: it,
                entity_id: eid,
                name_buf: nb,
                hide_state: h,
                focus_entity_id: fe,
            } && c == card_idx && it == item_idx && match key {
                Key::Enter => eid == entity_id && nb == name_buf && h == hide_state && !fe,
                Key::Tab => eid == entity_id && nb == name_buf && if focus_entity_id {
                    h == hide_state && !fe
                } else {
                    h == !hide_state && fe == focus_entity_id
                },
                Key::Backspace | Key::Char(_) => h == hide_state && fe == focus_entity_id && if focus_entity_id {
                    nb == name_buf && match entity_id {
                        Some(e) => eid is Some && eid->0@ == typed(e@, key),
                        None => eid is None,
                    }
                } else {
                    eid == entity_id && nb@ == typed(name_buf@, key)
                },
                _ => eid == entity_id && nb == name_buf && h == hide_state && fe == focus_entity_id,
            }),
        },
        EditorMode::Menu { context, items, selected } => match key {
            Key::Esc => cancelled(r),
            Key::Enter => if selected < items@.len() {
                r.mode is Browse && r.finish == DetailFinish::Menu(items@[selected as int].action, context)
            } else {
                stays(r) && r.mode == m
            },
            _ => stays(r) && (r.mode matches EditorMode::Menu { context: c, items: it, selected: s } && c == context && it
                == items && s == vim_selection(selected, items@.len() as int, key)),
        },
        EditorMode::PickingNewRowHeight { buf } => match key {
            Key::Esc => cancelled(r),
            Key::Enter => match row_height_spec(unicode_lowercase(trim(buf@))) {
                Some(h) => stays(r) && (r.mode matches EditorMode::PickingNewRowColumnCount { height, buf: b } && height == h
                    && b@.len() == 0),
                None => r.mode is Browse && (r.finish matches DetailFinish::Failed(msg) && msg@ == bad_height_message()),
            },
            _ => stays(r) && (r.mode matches EditorMode::PickingNewRowHeight { buf: b } && b@ == typed_alnum(buf@, key)),
        },
        EditorMode::PickingNewRowColumnCount { height, buf } => match key {
            Key::Esc => cancelled(r),
            Key::Enter => r.mode is Browse && r.finish == (DetailFinish::AddRow { height, cols: column_count_spec(buf@) }),
            _ => stays(r) && (r.mode matches EditorMode::PickingNewRowColumnCount { height: h, buf: b } && h == height && b@
                == typed_digits(buf@, key)),
        },
        EditorMode::EditingRowHeight { row_idx, buf } => match key {
            Key::Esc => cancelled(r),
            Key::Enter => r.mode is Browse && match row_height_spec(unicode_lowercase(trim(buf@))) {
                Some(h) => r.finish == (DetailFinish::SetRowHeight { row: row_idx, height: h }),
                None => r.finish matches DetailFinish::Failed(msg) && msg@ == bad_height_message(),
            },
            _ => stays(r) && (r.mode matches EditorMode::EditingRowHeight { row_idx: ri, buf: b } && ri == row_idx && b@
                == typed_alnum(buf@, key)),
        },
        EditorMode::ConfirmRemoveRow { row_idx } => r.mode is Browse && match key {
            Key::Char('y') | Key::Char('Y') => r.finish == DetailFinish::RemoveRow(row_idx),
            _ => r.finish is Nothing,
        },
        EditorMode::ConfirmRemoveColumn { row_idx, col_idx } => r.mode is Browse && match key {
            Key::Char('y') | Key::Char('Y') => r.finish == DetailFinish::RemoveColumn(row_idx, col_idx),
            _ => r.finish is Nothing,
        },
        _ => false,
    }
}

fn failed(m: EditorMode, msg: String) -> (r: DetailStep)
    ensures
        r.mode == m,
        r.finish == DetailFinish::Failed(msg),
{
    DetailStep { mode: m, finish: DetailFinish::Failed(msg) }
}

fn browse() -> (r: DetailStep)
    ensures
        cancelled(r),
{
    DetailStep { mode: EditorMode::Browse, finish: DetailFinish::Nothing }
}

fn card_step(idx: usize, edit: CardEdit, dirty: DirtyWhen) -> (r: DetailStep)
    ensures
        r.mode is Browse,
        r.finish == (DetailFinish::Card { idx, edit, dirty }),
{
    DetailStep { mode: EditorMode::Browse, finish: DetailFinish::Card { idx, edit, dirty } }
}

fn stay(m: EditorMode) -> (r: DetailStep)
    ensures
        stays(r),
        r.mode == m,
{
    DetailStep { mode: m, finish: DetailFinish::Nothing }
}

/// The next step of a detail edit, and what it finishes.
pub fn detail_step(m: EditorMode, key: Key, d: &Dashboard, f: &KeyFacts) -> (r: DetailStep)
    requires
        is_detail_step(m),
        m matches EditorMode::PickEntityListItemToOverride { items, selected, .. } ==> (key == Key::Enter ==> selected
            < items@.len()),
    ensures
        detail_step_spec(m, key, *d, *f, r),
{
    match m {
        EditorMode::EnterColorOverride { card_idx, buf } => match key {
            Key::Esc => browse(),
            Key::Enter => {
                let t = trim_str(buf.as_str());
                if char_len(t) == 0 {
                    card_step(card_idx, CardEdit::Color(None), DirtyWhen::Always)
                } else if !f.color_ok {
                    let msg = bad_color(t);
                    failed(EditorMode::EnterColorOverride { card_idx, buf }, msg)
                } else {
                    card_step(card_idx, CardEdit::Color(Some(to_owned_string(t))), DirtyWhen::Always)
                }
            },
            _ => {
                let mut b = buf;
                type_key(&mut b, key);
                stay(EditorMode::EnterColorOverride { card_idx, buf: b })
            },
        },
        EditorMode::GraphPickSeriesIndex { card_idx, op, selected } => match key {
            Key::Esc => browse(),
            Key::Enter => match op {
                SeriesIndexOp::Remove => card_step(card_idx, CardEdit::SeriesRemove(selected), DirtyWhen::Always),
                SeriesIndexOp::SetColor => stay(
                    EditorMode::GraphEditSeriesColor { card_idx, series_idx: selected, buf: series_field(d, card_idx, selected, true) },
                ),
                SeriesIndexOp::SetLabel => stay(
                    EditorMode::GraphEditSeriesLabel { card_idx, series_idx: selected, buf: series_field(d, card_idx, selected, false) },
                ),
            },
            _ => {
                let n = series_count(d, card_idx);
                stay(EditorMode::GraphPickSeriesIndex { card_idx, op, selected: vim_select(selected, n, key) })
            },
        },
        EditorMode::GraphEditSeriesColor { card_idx, series_idx, buf } => match key {
            Key::Esc => browse(),
            Key::Enter => {
                let t = trim_str(buf.as_str());
                if char_len(t) > 0 && !f.color_ok {
                    let msg = bad_color(t);
                    failed(EditorMode::GraphEditSeriesColor { card_idx, series_idx, buf }, msg)
                } else {
                    card_step(card_idx, CardEdit::SeriesColor(series_idx, trimmed_or_none(buf.as_str())), DirtyWhen::Always)
                }
            },
            _ => {
                let mut b = buf;
                type_key(&mut b, key);
                stay(EditorMode::GraphEditSeriesColor { card_idx, series_idx, buf: b })
            },
        },
        EditorMode::GraphEditSeriesLabel { card_idx, series_idx, buf } => match key {
            Key::Esc => browse(),
            Key::Enter => card_step(card_idx, CardEdit::SeriesLabel(series_idx, trimmed_or_none(buf.as_str())), DirtyWhen::Always),
            _ => {
                let mut b = buf;
                type_key(&mut b, key);
                stay(EditorMode::GraphEditSeriesLabel { card_idx, series_idx, buf: b })
            },
        },
        EditorMode::GraphEditWindow { card_idx, buf } => match key {
            Key::Esc => browse(),
            Key::Enter => {
                let t = trim_str(buf.as_str());
                if char_len(t) == 0 {
                    browse()
                } else {
                    card_step(card_idx, CardEdit::GraphWindow(to_owned_string(t)), DirtyWhen::Always)
                }
            },
            _ => {
                let mut b = buf;
                type_key(&mut b, key);
                stay(EditorMode::GraphEditWindow { card_idx, buf: b })
            },
        },
        EditorMode::GraphPickOrientation { card_idx, current } => match key {
            Key::Esc => browse(),
            Key::Enter => card_step(card_idx, CardEdit::GraphOrientation(current), DirtyWhen::Always),
            Key::Up | Key::Char('k') => stay(EditorMode::GraphPickOrientation { card_idx, current: BarOrientation::Vertical }),
            Key::Down | Key::Char('j') => stay(EditorMode::GraphPickOrientation { card_idx, current: BarOrientation::Horizontal }),
            _ => stay(EditorMode::GraphPickOrientation { card_idx, current }),
        },
        EditorMode::EditSeverityGreen { card_idx, buf, accum } => match key {
            Key::Esc => browse(),
            Key::Enter => match f.number {
                Some(v) => stay(
                    EditorMode::EditSeverityYellow {
                        card_idx,
                        buf: f.next_text.clone(),
                        accum: SeverityAccum { green: v, yellow: accum.yellow },
                    },
                ),
                None => failed(EditorMode::EditSeverityGreen { card_idx, buf, accum }, to_owned_string("invalid number — enter a numeric value")),
            },
            _ => {
                let mut b = buf;
                type_key(&mut b, key);
                stay(EditorMode::EditSeverityGreen { card_idx, buf: b, accum })
            },
        },
        EditorMode::EditSeverityYellow { card_idx, buf, accum } => match key {
            Key::Esc => browse(),
            Key::Enter => match f.number {
                Some(v) => stay(
                    EditorMode::EditSeverityRed {
                        card_idx,
                        buf: f.next_text.clone(),
                        accum: SeverityAccum { green: accum.green, yellow: v },
                    },
                ),
                None => failed(EditorMode::EditSeverityYellow { card_idx, buf, accum }, to_owned_string("invalid number — enter a numeric value")),
            },
            _ => {
                let mut b = buf;
                type_key(&mut b, key);
                stay(EditorMode::EditSeverityYellow { card_idx, buf: b, accum })
            },
        },
        EditorMode::EditSeverityRed { card_idx, buf, accum } => match key {
            Key::Esc => browse(),
            Key::Enter => match f.number {
                Some(v) => card_step(
                    card_idx,
                    CardEdit::Severity(Severity { green: accum.green, yellow: accum.yellow, red: v }),
                    DirtyWhen::Always,
                ),
                None => failed(EditorMode::EditSeverityRed { card_idx, buf, accum }, to_owned_string("invalid number — enter a numeric value")),
            },
            _ => {
                let mut b = buf;
                type_key(&mut b, key);
                stay(EditorMode::EditSeverityRed { card_idx, buf: b, accum })
            },
        },
        EditorMode::EditingFilterQuery { instance, query_buffer, title_buffer, hide_state, focus } => match key {
            Key::Esc => browse(),
            Key::F(2) => {
                let q = trim_str(query_buffer.as_str());
                if char_len(q) == 0 {
                    return failed(EditorMode::Browse, to_owned_string("query cannot be empty"));
                }
                match EntityQuery::parse(q) {
                    Err(e) => {
                        let mut msg = to_owned_string("invalid query: ");
                        msg.append(e.as_str());
                        failed(EditorMode::Browse, msg)
                    },
                    Ok(_) => DetailStep {
                        mode: EditorMode::Browse,
                        finish: DetailFinish::AddCard(
                            CardKind::FilteredEntityList {
                                instance,
                                query: to_owned_string(q),
                                hide_state,
                                hide_when_empty: false,
                                title: trimmed_or_none(title_buffer.as_str()),
                                overrides: Vec::new(),
                            },
                        ),
                    },
                }
            },
            _ => {
                let mut qb = query_buffer;
                let mut tb = title_buffer;
                let mut h = hide_state;
                let mut fo = focus;
                match key {
                    Key::Tab => {
                        fo = match focus {
                            FilterFocus::Query => FilterFocus::Title,
                            FilterFocus::Title => FilterFocus::HideToggle,
                            FilterFocus::HideToggle => FilterFocus::Query,
                        };
                    },
                    Key::Char(' ') if focus == FilterFocus::HideToggle => {
                        h = !hide_state;
                    },
                    Key::Backspace | Key::Char(_) => match focus {
                        FilterFocus::Query => type_key(&mut qb, key),
                        FilterFocus::Title => type_key(&mut tb, key),
                        FilterFocus::HideToggle => {},
                    },
                    _ => {},
                }
                stay(EditorMode::EditingFilterQuery { instance, query_buffer: qb, title_buffer: tb, hide_state: h, focus: fo })
            },
        },
        EditorMode::PickEntityListItemToOverride { card_idx, items, selected } => match key {
            Key::Esc => browse(),
            Key::Enter => {
                let item = items[selected].0;
                let (name, hide) = entry_fields(d, card_idx, item);
                stay(
                    EditorMode::EditEntityListItemOverride {
                        card_idx,
                        item_idx: item,
                        entity_id: None,
                        name_buf: name,
                        hide_state: hide,
                        focus_entity_id: false,
                    },
                )
            },
            _ => {
                let n = items.len();
                let s = vim_select(selected, n, key);
                stay(EditorMode::PickEntityListItemToOverride { card_idx, items, selected: s })
            },
        },
        EditorMode::EditEntityListItemOverride { card_idx, item_idx, entity_id, name_buf, hide_state, focus_entity_id } =>
            match key {
            Key::Esc => browse(),
            Key::Enter if !focus_entity_id => {
                let entity = match &entity_id {
                    Some(e) => Some(to_owned_string(trim_str(e.as_str()))),
                    None => None,
                };
                card_step(
                    card_idx,
                    CardEdit::EntryOverride { item: item_idx, entity, name: trimmed_or_none(name_buf.as_str()), hide: hide_state },
                    DirtyWhen::IfCard,
                )
            },
            _ => {
                let mut eid = entity_id;
                let mut nb = name_buf;
                let mut h = hide_state;
                let mut fe = focus_entity_id;
                match key {
                    Key::Enter => {
                        fe = false;
                    },
                    Key::Tab => {
                        if focus_entity_id {
                            fe = false;
                        } else {
                            h = !hide_state;
                        }
                    },
                    Key::Backspace | Key::Char(_) => {
                        if focus_entity_id {
                            eid = match eid {
                                Some(e) => {
                                    let mut e2 = e;
                                    type_key(&mut e2, key);
                                    Some(e2)
                                },
                                None => None,
                            };
                        } else {
                            type_key(&mut nb, key);
                        }
                    },
                    _ => {},
                }
                stay(
                    EditorMode::EditEntityListItemOverride {
                        card_idx,
                        item_idx,
                        entity_id: eid,
                        name_buf: nb,
                        hide_state: h,
                        focus_entity_id: fe,
                    },
                )
            },
        },
        EditorMode::Menu { context, items, selected } => match key {
            Key::Esc => browse(),
            Key::Enter => {
                if selected < items.len() {
                    let item: MenuItem = items[selected];
                    DetailStep { mode: EditorMode::Browse, finish: DetailFinish::Menu(item.action, context) }
                } else {
                    stay(EditorMode::Menu { context, items, selected })
                }
            },
            _ => {
                let n = items.len();
                let s = vim_select(selected, n, key);
                stay(EditorMode::Menu { context, items, selected: s })
            },
        },
        EditorMode::PickingNewRowHeight { buf } => match key {
            Key::Esc => browse(),
            Key::Enter => {
                let raw = to_lowercase(trim_str(buf.as_str()));
                match row_height_from(raw.as_str()) {
                    Some(h) => stay(EditorMode::PickingNewRowColumnCount { height: h, buf: String::new() }),
                    None => failed(EditorMode::Browse, to_owned_string("enter a number or \"auto\"")),
                }
            },
            _ => {
                let mut b = buf;
                type_alnum_key(&mut b, key);
                stay(EditorMode::PickingNewRowHeight { buf: b })
            },
        },
        EditorMode::PickingNewRowColumnCount { height, buf } => match key {
            Key::Esc => browse(),
            Key::Enter => DetailStep {
                mode: EditorMode::Browse,
                finish: DetailFinish::AddRow { height, cols: column_count(buf.as_str()) },
            },
            _ => {
                let mut b = buf;
                type_digit_key(&mut b, key);
                stay(EditorMode::PickingNewRowColumnCount { height, buf: b })
            },
        },
        EditorMode::EditingRowHeight { row_idx, buf } => match key {
            Key::Esc => browse(),
            Key::Enter => {
                let raw = to_lowercase(trim_str(buf.as_str()));
                match row_height_from(raw.as_str()) {
                    Some(h) => DetailStep { mode: EditorMode::Browse, finish: DetailFinish::SetRowHeight { row: row_idx, height: h } },
                    None => failed(EditorMode::Browse, to_owned_string("enter a number or \"auto\"")),
                }
            },
            _ => {
                let mut b = buf;
                type_alnum_key(&mut b, key);
                stay(EditorMode::EditingRowHeight { row_idx, buf: b })
            },
        },
        EditorMode::ConfirmRemoveRow { row_idx } => match key {
            Key::Char('y') | Key::Char('Y') => DetailStep { mode: EditorMode::Browse, finish: DetailFinish::RemoveRow(row_idx) },
            _ => browse(),
        },
        _ => match m {
            EditorMode::ConfirmRemoveColumn { row_idx, col_idx } => match key {
                Key::Char('y') | Key::Char('Y') => DetailStep {
                    mode: EditorMode::Browse,
                    finish: DetailFinish::RemoveColumn(row_idx, col_idx),
                },
                _ => browse(),
            },
            _ => browse(),
        },
    }
}

// ── applying a step ─────────────────────────────────────────────────────────

/// What a detail key asks of the caller.
#[derive(Debug)]
pub enum DetailResult {
    /// The editor is in no detail step; nothing changed.
    NotMine,
    /// The key was handled.
    Done,
    /// The key was handled and the step could not go on; the message says why.
    Failed(String),
    /// The key chose this menu action in this context.
    Menu(MenuAction, MenuContext),
}

/// Whether the editor is marked changed after a card edit.
pub open spec fn dirty_after(was: bool, w: DirtyWhen, fl: Seq<Card>, idx: usize, e: CardEdit) -> bool {
    was || match w {
        DirtyWhen::Always => true,
        DirtyWhen::IfCard => idx < fl.len(),
        DirtyWhen::IfApplies => idx < fl.len() && applies(fl[idx as int], e),
    }
}

/// Editor `b`, dashboard `e` and result `r` are what applying card edit
/// `edit` to the card at `idx` gives for editor `a` in mode `mode` and
/// dashboard `d`, after an undo snapshot.
pub open spec fn card_edit_applied(
    a: EditorState,
    d: Dashboard,
    mode: EditorMode,
    idx: usize,
    edit: CardEdit,
    dirty: DirtyWhen,
    b: EditorState,
    e: Dashboard,
) -> bool {
    let fl = flat_cards(d);
    &&& snapshot_stack(a.undo_stack@, d, b.undo_stack@)
    &&& b == (EditorState { mode, undo_stack: b.undo_stack, dirty: dirty_after(a.dirty, dirty, fl, idx, edit), ..a })
    &&& same_shape(d, e)
    &&& e.name == d.name
    &&& idx < fl.len() ==> flat_cards(e) == fl.update(idx as int, flat_cards(e)[idx as int]) && card_edited(
        fl[idx as int],
        edit,
        flat_cards(e)[idx as int],
    )
    &&& idx >= fl.len() ==> e == d
}

/// Editor `b`, dashboard `e` and result `r` are what finishing detail step
/// `st` gives for editor `a` and dashboard `d`.
pub open spec fn detail_applied(a: EditorState, d: Dashboard, st: DetailStep, b: EditorState, e: Dashboard, r: DetailResult) -> bool {
    let rows = grid_rows(d);
    match st.finish {
        DetailFinish::Nothing => b == (EditorState { mode: st.mode, ..a }) && e == d && r is Done,
        DetailFinish::Failed(msg) => b == (EditorState { mode: st.mode, ..a }) && e == d && r == DetailResult::Failed(msg),
        DetailFinish::Menu(act, ctx) => b == (EditorState { mode: st.mode, ..a }) && e == d && r == DetailResult::Menu(act, ctx),
        DetailFinish::Card { idx, edit, dirty } => card_edit_applied(a, d, st.mode, idx, edit, dirty, b, e) && r is Done,
        DetailFinish::AddCard(k) => {
            &&& snapshot_stack(a.undo_stack@, d, b.undo_stack@)
            &&& card_added(EditorState { mode: st.mode, undo_stack: b.undo_stack, ..a }, d, k, b, e)
            &&& b.mode == st.mode
            &&& r is Done
        },
        DetailFinish::AddRow { height, cols } => {
            &&& snapshot_stack(a.undo_stack@, d, b.undo_stack@)
            &&& b == (EditorState { mode: st.mode, undo_stack: b.undo_stack, dirty: true, ..a })
            &&& row_added(d, e, height, cols)
            &&& r is Done
        },
        DetailFinish::SetRowHeight { row, height } => {
            &&& b == (EditorState { mode: st.mode, dirty: true, ..a })
            &&& row_height_set(d, e, row, height, is_grid(d) && row < rows.len())
            &&& r is Done
        },
        DetailFinish::RemoveRow(row) => {
            &&& snapshot_stack(a.undo_stack@, d, b.undo_stack@)
            &&& b == (EditorState {
                mode: st.mode,
                undo_stack: b.undo_stack,
                dirty: true,
                selected_card: None,
                grid_focus: None,
                ..a
            })
            &&& row_removed(d, e, row, is_grid(d) && rows.len() > 1 && row < rows.len())
            &&& r is Done
        },
        DetailFinish::RemoveColumn(row, col) => {
            &&& snapshot_stack(a.undo_stack@, d, b.undo_stack@)
            &&& b == (EditorState {
                mode: st.mode,
                undo_stack: b.undo_stack,
                dirty: true,
                selected_card: None,
                grid_focus: None,
                ..a
            })
            &&& column_removed(
                d,
                e,
                row,
                col,
                is_grid(d) && row < rows.len() && rows[row as int].columns@.len() > 1 && col < rows[row as int].columns@.len(),
            )
            &&& r is Done
        },
    }
}

/// A detail key can be handled without a panic: Enter in the entry picker
/// has an entry selected.
pub open spec fn detail_key_ok(a: EditorState, key: Key) -> bool {
    match a.mode {
        EditorMode::PickEntityListItemToOverride { items, selected, .. } => key == Key::Enter ==> selected < items@.len(),
        _ => true,
    }
}

/// What a key does in the detail steps; outside them nothing changes.
pub open spec fn detail_key_spec(a: EditorState, d: Dashboard, key: Key, f: KeyFacts, b: EditorState, e: Dashboard, r: DetailResult) -> bool {
    if is_detail_step(a.mode) {
        exists|st: DetailStep| #[trigger] detail_step_spec(a.mode, key, d, f, st) && detail_applied(a, d, st, b, e, r)
    } else {
        r is NotMine && b == a && e == d
    }
}

/// Whether `e` would change card `c`.
pub fn edit_applies(c: &Card, e: &CardEdit) -> (r: bool)
    ensures
        r == applies(*c, *e),
{
    match e {
        CardEdit::GraphWindow(_) | CardEdit::GraphOrientation(_) | CardEdit::CycleGraphType | CardEdit::SeriesAdd(_)
        | CardEdit::SeriesRemove(_) | CardEdit::SeriesColor(..) | CardEdit::SeriesLabel(..) => matches!(c.kind, CardKind::Graph { .. }),
        CardEdit::StatsMetric(_) | CardEdit::StatsWindow(_) | CardEdit::StatsUnit(_) => matches!(c.kind, CardKind::Statistics { .. }),
        CardEdit::ClockFormat(_) | CardEdit::ClockTimezone(_) => matches!(c.kind, CardKind::Clock { .. }),
        CardEdit::Size(_) | CardEdit::Color(_) => true,
        CardEdit::Severity(_) | CardEdit::ToggleNeedle => matches!(c.kind, CardKind::Gauge { .. }),
        CardEdit::ToggleTicker => matches!(c.kind, CardKind::Entity { .. }),
        CardEdit::ToggleHideState | CardEdit::ToggleHideWhenEmpty => matches!(c.kind, CardKind::FilteredEntityList { .. }),
        CardEdit::EntryOverride { .. } => matches!(c.kind, CardKind::EntityList { .. } | CardKind::FilteredEntityList { .. }),
    }
}

impl EditorState {
    /// Edit the card at `idx` after an undo snapshot, leaving the editor in `mode`.
    pub fn apply_card_edit(&mut self, dash: &mut Dashboard, mode: EditorMode, idx: usize, edit: CardEdit, dirty: DirtyWhen)
        ensures
            card_edit_applied(*old(self), *old(dash), mode, idx, edit, dirty, *final(self), *final(dash)),
    {
        self.mode = mode;
        self.snapshot(dash);
        let mark = match dirty {
            DirtyWhen::Always => true,
            DirtyWhen::IfCard => dash.card(idx).is_some(),
            DirtyWhen::IfApplies => match dash.card(idx) {
                Some(c) => edit_applies(c, &edit),
                None => false,
            },
        };
        dash.edit_card(idx, edit);
        if mark {
            self.dirty = true;
        }
    }

    pub(crate) fn apply_detail(&mut self, st: DetailStep, dash: &mut Dashboard) -> (r: DetailResult)
        requires
            flat_cards(*old(dash)).len() < usize::MAX,
            max_id(flat_cards(*old(dash))) < u64::MAX,
        ensures
            detail_applied(*old(self), *old(dash), st, *final(self), *final(dash), r),
    {
        match st.finish {
            DetailFinish::Nothing => {
                self.mode = st.mode;
                DetailResult::Done
            },
            DetailFinish::Failed(msg) => {
                self.mode = st.mode;
                DetailResult::Failed(msg)
            },
            DetailFinish::Menu(act, ctx) => {
                self.mode = st.mode;
                DetailResult::Menu(act, ctx)
            },
            DetailFinish::Card { idx, edit, dirty } => {
                self.apply_card_edit(dash, st.mode, idx, edit, dirty);
                DetailResult::Done
            },
            DetailFinish::AddCard(k) => {
                self.mode = st.mode;
                self.snapshot(dash);
                self.add_card(dash, k);
                DetailResult::Done
            },
            DetailFinish::AddRow { height, cols } => {
                self.mode = st.mode;
                self.snapshot(dash);
                dash.grid_add_row(height, cols);
                self.dirty = true;
                DetailResult::Done
            },
            DetailFinish::SetRowHeight { row, height } => {
                self.mode = st.mode;
                dash.grid_set_row_height(row, height);
                self.dirty = true;
                DetailResult::Done
            },
            DetailFinish::RemoveRow(row) => {
                self.mode = st.mode;
                self.snapshot(dash);
                dash.grid_remove_row(row);
                self.dirty = true;
                self.selected_card = None;
                self.grid_focus = None;
                DetailResult::Done
            },
            DetailFinish::RemoveColumn(row, col) => {
                self.mode = st.mode;
                self.snapshot(dash);
                dash.grid_remove_column(row, col);
                self.dirty = true;
                self.selected_card = None;
                self.grid_focus = None;
                DetailResult::Done
            },
        }
    }

    /// Handle a key in the steps that edit a card's details, a grid's rows
    /// and columns, or the context menu. In any other step nothing changes
    /// and the result is `NotMine`.
    pub fn detail_key(&mut self, key: Key, dash: &mut Dashboard, facts: &KeyFacts) -> (r: DetailResult)
        requires
            flat_cards(*old(dash)).len() < usize::MAX,
            max_id(flat_cards(*old(dash))) < u64::MAX,
            detail_key_ok(*old(self), key),
        ensures
            detail_key_spec(*old(self), *old(dash), key, *facts, *final(self), *final(dash), r),
    {
        let mut mode = EditorMode::Browse;
        std::mem::swap(&mut mode, &mut self.mode);
        let ghost a = EditorState { mode: mode, ..*self };
        assert(a == *old(self));
        let mine = match &mode {
            EditorMode::EnterColorOverride { .. } | EditorMode::GraphPickSeriesIndex { .. } | EditorMode::GraphEditSeriesColor { .. }
            | EditorMode::GraphEditSeriesLabel { .. } | EditorMode::GraphEditWindow { .. } | EditorMode::GraphPickOrientation { .. }
            | EditorMode::EditSeverityGreen { .. } | EditorMode::EditSeverityYellow { .. } | EditorMode::EditSeverityRed { .. }
            | EditorMode::EditingFilterQuery { .. } | EditorMode::PickEntityListItemToOverride { .. }
            | EditorMode::EditEntityListItemOverride { .. } | EditorMode::Menu { .. } | EditorMode::PickingNewRowHeight { .. }
            | EditorMode::PickingNewRowColumnCount { .. } | EditorMode::EditingRowHeight { .. } | EditorMode::ConfirmRemoveRow { .. }
            | EditorMode::ConfirmRemoveColumn { .. } => true,
            _ => false,
        };
        if !mine {
            self.mode = mode;
            return DetailResult::NotMine;
        }
        let ghost m0 = mode;
        let st = detail_step(mode, key, dash, facts);
        let ghost st_copy = st;
        let ghost d0 = *dash;
        let r = self.apply_detail(st, dash);
        assert(detail_applied(a, d0, st_copy, *self, *dash, r));
        assert(detail_step_spec(m0, key, d0, *facts, st_copy));
        r
    }
}

} // verus!
