//! The editor's add-card flows: what each key does in each step, as a
//! function from the step (and the key) to the next step and the card it
//! finishes, if any.
use vstd::prelude::*;

use crate::builder::{build_typed_card, built_from_entity, opt_view, picker_mode, picker_mode_for, typed_kind};
use crate::dashboard::{Card, CardKind, EntityListItem, ImageSource, StatsMetric};
use crate::search::EntityPick;
use crate::editor::{card_added, snapshot_stack, CardTypeStub, EditorMode, EditorState};
use crate::flat::flat_cards;
use crate::grid_ops::max_id;
use crate::dashboard::Dashboard;
use crate::ha::InstanceRuntime;
use crate::search::{entity_search, entity_search_filtered, search_result};
use crate::strings::{char_len, parse_u32, parse_u32_spec, starts_with, to_owned_string, trim, trim_str};

verus! {

/// A key as the editor sees it.
#[derive(Clone, Copy, PartialEq, Eq, Structural, Debug)]
pub enum Key {
    Esc,
    Enter,
    Tab,
    BackTab,
    Backspace,
    Up,
    Down,
    Left,
    Right,
    PageUp,
    PageDown,
    Home,
    End,
    F(u8),
    Char(char),
    Other,
}

/// `String::push`: the character appended.
#[verifier::external_body]
pub(crate) fn push_char(s: &mut String, c: char)
    ensures
        final(s)@ == old(s)@.push(c),
{
    s.push(c);
}

/// `String::pop`: the last character removed, if there is one.
#[verifier::external_body]
pub(crate) fn pop_char(s: &mut String) -> (r: Option<char>)
    ensures
        old(s)@.len() > 0 ==> r == Some(old(s)@.last()) && final(s)@ == old(s)@.drop_last(),
        old(s)@.len() == 0 ==> r is None && final(s)@ == old(s)@,
{
    s.pop()
}

/// A text field after a key: Backspace removes the last character, a
/// character key appends it, any other key leaves the text.
pub open spec fn typed(buf: Seq<char>, key: Key) -> Seq<char> {
    match key {
        Key::Backspace => if buf.len() > 0 {
            buf.drop_last()
        } else {
            buf
        },
        Key::Char(c) => buf.push(c),
        _ => buf,
    }
}

pub fn type_key(buf: &mut String, key: Key)
    ensures
        final(buf)@ == typed(old(buf)@, key),
{
    match key {
        Key::Backspace => {
            pop_char(buf);
        },
        Key::Char(c) => push_char(buf, c),
        _ => {},
    }
}

/// A field that accepts only ASCII digits: other characters are ignored.
pub open spec fn typed_digits(buf: Seq<char>, key: Key) -> Seq<char> {
    match key {
        Key::Char(c) => if '0' <= c && c <= '9' {
            buf.push(c)
        } else {
            buf
        },
        _ => typed(buf, key),
    }
}

pub fn type_digit_key(buf: &mut String, key: Key)
    ensures
        final(buf)@ == typed_digits(old(buf)@, key),
{
    match key {
        Key::Char(c) => {
            if '0' <= c && c <= '9' {
                push_char(buf, c);
            }
        },
        _ => type_key(buf, key),
    }
}

/// The trimmed text, or nothing when it is blank.
pub open spec fn trimmed_opt(buf: Seq<char>) -> Option<Seq<char>> {
    if trim(buf).len() == 0 {
        None
    } else {
        Some(trim(buf))
    }
}

pub fn trimmed_or_none(buf: &str) -> (r: Option<String>)
    ensures
        opt_view(r) == trimmed_opt(buf@),
{
    let t = trim_str(buf);
    if char_len(t) == 0 {
        None
    } else {
        Some(to_owned_string(t))
    }
}

/// The trimmed text, or `dflt` when it is blank.
pub open spec fn trimmed_or(buf: Seq<char>, dflt: Seq<char>) -> Seq<char> {
    if trim(buf).len() == 0 {
        dflt
    } else {
        trim(buf)
    }
}

fn trimmed_or_default(buf: &str, dflt: &str) -> (r: String)
    ensures
        r@ == trimmed_or(buf@, dflt@),
{
    let t = trim_str(buf);
    if char_len(t) == 0 {
        to_owned_string(dflt)
    } else {
        to_owned_string(t)
    }
}

/// A card's title from its title field: the trimmed text, else the
/// entity's friendly name, else none.
pub open spec fn title_or_friendly(buf: Seq<char>, friendly: Seq<char>) -> Option<Seq<char>> {
    if trim(buf).len() > 0 {
        Some(trim(buf))
    } else if friendly.len() > 0 {
        Some(friendly)
    } else {
        None
    }
}

fn title_from(buf: &str, friendly: &String) -> (r: Option<String>)
    ensures
        opt_view(r) == title_or_friendly(buf@, friendly@),
{
    let t = trim_str(buf);
    if char_len(t) > 0 {
        Some(to_owned_string(t))
    } else if char_len(friendly.as_str()) > 0 {
        Some(friendly.clone())
    } else {
        None
    }
}

/// What a step of a flow finishes.
#[derive(Debug)]
pub enum Finish {
    /// Nothing yet.
    Nothing,
    /// The card the flow built, to add to the dashboard.
    Card(CardKind),
    /// Start the flow for a new card of this type.
    Start(CardTypeStub),
    /// Remember (or, with `None`, forget) whether the image card being added
    /// shows a camera.
    CameraChoice(Option<bool>),
    /// The flow cannot go on; the message says why.
    Failed(String),
}

/// The result of a key in one step of a flow.
pub struct Step {
    pub mode: EditorMode,
    pub finish: Finish,
}

/// The step stays where it is, with its text field edited.
pub open spec fn stays(r: Step) -> bool {
    r.finish is Nothing
}

// ── clock flow ──────────────────────────────────────────────────────────────

/// The contract of `clock_title_step`.
pub open spec fn clock_title_spec(title_buffer: String, key: Key, r: Step) -> bool {
    &&& stays(r)
    &&& match key {
        Key::Esc => r.mode is Browse,
        Key::Enter => r.mode matches EditorMode::ClockAddFormat { title, format_buffer } && opt_view(title)
            == trimmed_opt(title_buffer@) && format_buffer@ == "%H:%M:%S"@,
        _ => r.mode matches EditorMode::ClockAddTitle { title_buffer: b } && b@ == typed(title_buffer@, key),
    }
}

/// Clock card, first step: the title.
pub fn clock_title_step(title_buffer: String, key: Key) -> (r: Step)
    ensures
        clock_title_spec(title_buffer, key, r),
{
    match key {
        Key::Esc => Step { mode: EditorMode::Browse, finish: Finish::Nothing },
        Key::Enter => {
            let title = trimmed_or_none(title_buffer.as_str());
            Step {
                mode: EditorMode::ClockAddFormat { title, format_buffer: to_owned_string("%H:%M:%S") },
                finish: Finish::Nothing,
            }
        },
        _ => {
            let mut b = title_buffer;
            type_key(&mut b, key);
            Step { mode: EditorMode::ClockAddTitle { title_buffer: b }, finish: Finish::Nothing }
        },
    }
}

/// The contract of `clock_format_step`.
pub open spec fn clock_format_spec(title: Option<String>, format_buffer: String, key: Key, r: Step) -> bool {
    &&& stays(r)
    &&& match key {
        Key::Esc => r.mode is Browse,
        Key::Enter => r.mode matches EditorMode::ClockAddTimezone { title: t, format, tz_buffer } && t == title
            && format@ == trimmed_or(format_buffer@, "%H:%M:%S"@) && tz_buffer@.len() == 0,
        _ => r.mode matches EditorMode::ClockAddFormat { title: t, format_buffer: b } && t == title && b@
            == typed(format_buffer@, key),
    }
}

/// Clock card, second step: the time format (blank means `%H:%M:%S`).
pub fn clock_format_step(title: Option<String>, format_buffer: String, key: Key) -> (r: Step)
    ensures
        clock_format_spec(title, format_buffer, key, r),
{
    match key {
        Key::Esc => Step { mode: EditorMode::Browse, finish: Finish::Nothing },
        Key::Enter => {
            let format = trimmed_or_default(format_buffer.as_str(), "%H:%M:%S");
            Step {
                mode: EditorMode::ClockAddTimezone { title, format, tz_buffer: String::new() },
                finish: Finish::Nothing,
            }
        },
        _ => {
            let mut b = format_buffer;
            type_key(&mut b, key);
            Step { mode: EditorMode::ClockAddFormat { title, format_buffer: b }, finish: Finish::Nothing }
        },
    }
}

/// The contract of `clock_timezone_step`.
pub open spec fn clock_timezone_spec(title: Option<String>, format: String, tz_buffer: String, key: Key, r: Step) -> bool {
    &&& match key {
        Key::Esc => stays(r) && r.mode is Browse,
        Key::Enter => r.mode is Browse && (r.finish matches Finish::Card(CardKind::Clock { format: f, timezone, title: t })
            && f == format && opt_view(timezone) == trimmed_opt(tz_buffer@) && t == title),
        _ => stays(r) && (r.mode matches EditorMode::ClockAddTimezone { title: t, format: f, tz_buffer: b } && t
            == title && f == format && b@ == typed(tz_buffer@, key)),
    }
}

/// Clock card, last step: the time zone (blank means local time); Enter
/// finishes the card.
pub fn clock_timezone_step(title: Option<String>, format: String, tz_buffer: String, key: Key) -> (r: Step)
    ensures
        clock_timezone_spec(title, format, tz_buffer, key, r),
{
    match key {
        Key::Esc => Step { mode: EditorMode::Browse, finish: Finish::Nothing },
        Key::Enter => {
            let timezone = trimmed_or_none(tz_buffer.as_str());
            Step { mode: EditorMode::Browse, finish: Finish::Card(CardKind::Clock { format, timezone, title }) }
        },
        _ => {
            let mut b = tz_buffer;
            type_key(&mut b, key);
            Step { mode: EditorMode::ClockAddTimezone { title, format, tz_buffer: b }, finish: Finish::Nothing }
        },
    }
}

// ── statistics flow ─────────────────────────────────────────────────────────

/// The metrics a statistics card offers, in picker order.
pub open spec fn metric_at(i: int) -> StatsMetric {
    if i == 0 {
        StatsMetric::Avg
    } else if i == 1 {
        StatsMetric::Min
    } else if i == 2 {
        StatsMetric::Max
    } else if i == 3 {
        StatsMetric::Sum
    } else {
        StatsMetric::Count
    }
}

fn metric_of(i: usize) -> (r: StatsMetric)
    ensures
        r == metric_at(i as int),
{
    if i == 0 {
        StatsMetric::Avg
    } else if i == 1 {
        StatsMetric::Min
    } else if i == 2 {
        StatsMetric::Max
    } else if i == 3 {
        StatsMetric::Sum
    } else {
        StatsMetric::Count
    }
}

/// The selection in a list of `n` entries after a key: Up and Down move by
/// one within the list.
pub open spec fn moved_selection(selected: usize, n: int, key: Key) -> usize {
    match key {
        Key::Up => if selected > 0 { (selected - 1) as usize } else { selected },
        Key::Down => if n > 0 && selected < n - 1 { (selected + 1) as usize } else { selected },
        _ => selected,
    }
}

/// The metric picker's selection after a key: arrows move, `1`–`5` jump.
pub open spec fn metric_selection(selected: usize, key: Key) -> usize {
    match key {
        Key::Char(c) => if '1' <= c && c <= '5' {
            ((c as u32) - 49) as usize
        } else {
            selected
        },
        _ => moved_selection(selected, 5, key),
    }
}

/// The contract of `stats_metric_step`.
pub open spec fn stats_metric_spec(instance: String, entity: String, friendly_name: String, selected: usize, key: Key, r: Step) -> bool {
    &&& stays(r)
    &&& match key {
        Key::Esc => r.mode is Browse,
        Key::Enter => r.mode matches EditorMode::StatsEditWindowAdd { instance: i, entity: e, friendly_name: f, metric, buf }
            && i == instance && e == entity && f == friendly_name && metric == metric_at(selected as int) && buf@
            == "1h"@,
        _ => r.mode matches EditorMode::StatsPickMetric { instance: i, entity: e, friendly_name: f, selected: s }
            && i == instance && e == entity && f == friendly_name && s == metric_selection(selected, key) && s < 5,
    }
}

/// Statistics card, after its entity: the metric. Enter goes on to the
/// window, which starts as `1h`.
pub fn stats_metric_step(instance: String, entity: String, friendly_name: String, selected: usize, key: Key) -> (r: Step)
    requires
        selected < 5,
    ensures
        stats_metric_spec(instance, entity, friendly_name, selected, key, r),
{
    match key {
        Key::Esc => Step { mode: EditorMode::Browse, finish: Finish::Nothing },
        Key::Enter => {
            let metric = metric_of(selected);
            Step {
                mode: EditorMode::StatsEditWindowAdd { instance, entity, friendly_name, metric, buf: to_owned_string("1h") },
                finish: Finish::Nothing,
            }
        },
        _ => {
            let s = match key {
                Key::Up => if selected > 0 {
                    selected - 1
                } else {
                    selected
                },
                Key::Down => if selected + 1 < 5 {
                    selected + 1
                } else {
                    selected
                },
                Key::Char(c) => if '1' <= c && c <= '5' {
                    (c as u32 - 49) as usize
                } else {
                    selected
                },
                _ => selected,
            };
            Step {
                mode: EditorMode::StatsPickMetric { instance, entity, friendly_name, selected: s },
                finish: Finish::Nothing,
            }
        },
    }
}

/// The contract of `stats_window_step`.
pub open spec fn stats_window_spec(instance: String, entity: String, friendly_name: String, metric: StatsMetric, buf: String, key: Key, r: Step) -> bool {
    &&& stays(r)
    &&& match key {
        Key::Esc => r.mode is Browse,
        Key::Enter => r.mode matches EditorMode::StatsEditUnitAdd { instance: i, entity: e, friendly_name: f, metric: m, window, buf: b }
            && i == instance && e == entity && f == friendly_name && m == metric && window@ == trimmed_or(buf@, "1h"@)
            && b@.len() == 0,
        _ => r.mode matches EditorMode::StatsEditWindowAdd { instance: i, entity: e, friendly_name: f, metric: m, buf: b }
            && i == instance && e == entity && f == friendly_name && m == metric && b@ == typed(buf@, key),
    }
}

/// Statistics card: the window (blank means `1h`).
pub fn stats_window_step(instance: String, entity: String, friendly_name: String, metric: StatsMetric, buf: String, key: Key) -> (r: Step)
    ensures
        stats_window_spec(instance, entity, friendly_name, metric, buf, key, r),
{
    match key {
        Key::Esc => Step { mode: EditorMode::Browse, finish: Finish::Nothing },
        Key::Enter => {
            let window = trimmed_or_default(buf.as_str(), "1h");
            Step {
                mode: EditorMode::StatsEditUnitAdd { instance, entity, friendly_name, metric, window, buf: String::new() },
                finish: Finish::Nothing,
            }
        },
        _ => {
            let mut b = buf;
            type_key(&mut b, key);
            Step {
                mode: EditorMode::StatsEditWindowAdd { instance, entity, friendly_name, metric, buf: b },
                finish: Finish::Nothing,
            }
        },
    }
}

/// The contract of `stats_unit_step`.
pub open spec fn stats_unit_spec(instance: String, entity: String, friendly_name: String, metric: StatsMetric, window: String, buf: String, key: Key, r: Step) -> bool {
    &&& stays(r)
    &&& match key {
        Key::Esc => r.mode is Browse,
        Key::Enter => r.mode matches EditorMode::StatsEditTitleAdd { instance: i, entity: e, friendly_name: f, metric: m, window: w, unit, buf: b }
            && i == instance && e == entity && f == friendly_name && m == metric && w == window && opt_view(unit)
            == trimmed_opt(buf@) && b@.len() == 0,
        _ => r.mode matches EditorMode::StatsEditUnitAdd { instance: i, entity: e, friendly_name: f, metric: m, window: w, buf: b }
            && i == instance && e == entity && f == friendly_name && m == metric && w == window && b@ == typed(buf@, key),
    }
}

/// Statistics card: the unit (blank means none).
pub fn stats_unit_step(instance: String, entity: String, friendly_name: String, metric: StatsMetric, window: String, buf: String, key: Key) -> (r: Step)
    ensures
        stats_unit_spec(instance, entity, friendly_name, metric, window, buf, key, r),
{
    match key {
        Key::Esc => Step { mode: EditorMode::Browse, finish: Finish::Nothing },
        Key::Enter => {
            let unit = trimmed_or_none(buf.as_str());
            Step {
                mode: EditorMode::StatsEditTitleAdd { instance, entity, friendly_name, metric, window, unit, buf: String::new() },
                finish: Finish::Nothing,
            }
        },
        _ => {
            let mut b = buf;
            type_key(&mut b, key);
            Step {
                mode: EditorMode::StatsEditUnitAdd { instance, entity, friendly_name, metric, window, buf: b },
                finish: Finish::Nothing,
            }
        },
    }
}

/// The contract of `stats_title_step`.
pub open spec fn stats_title_spec(instance: String, entity: String, friendly_name: String, metric: StatsMetric, window: String, unit: Option<String>, buf: String, key: Key, r: Step) -> bool {
    &&& match key {
        Key::Esc => stays(r) && r.mode is Browse,
        Key::Enter => r.mode is Browse && (r.finish matches Finish::Card(
            CardKind::Statistics { instance: i, entity: e, window: w, metric: m, unit: u, title },
        ) && i == instance && e == entity && w == window && m == metric && u == unit && opt_view(title)
            == title_or_friendly(buf@, friendly_name@)),
        _ => stays(r) && (r.mode matches EditorMode::StatsEditTitleAdd { instance: i, entity: e, friendly_name: f, metric: m, window: w, unit: u, buf: b }
            && i == instance && e == entity && f == friendly_name && m == metric && w == window && u == unit && b@
            == typed(buf@, key)),
    }
}

/// Statistics card, last step: the title; Enter finishes the card.
pub fn stats_title_step(
    instance: String,
    entity: String,
    friendly_name: String,
    metric: StatsMetric,
    window: String,
    unit: Option<String>,
    buf: String,
    key: Key,
) -> (r: Step)
    ensures
        stats_title_spec(instance, entity, friendly_name, metric, window, unit, buf, key, r),
{
    match key {
        Key::Esc => Step { mode: EditorMode::Browse, finish: Finish::Nothing },
        Key::Enter => {
            let title = title_from(buf.as_str(), &friendly_name);
            Step {
                mode: EditorMode::Browse,
                finish: Finish::Card(CardKind::Statistics { instance, entity, window, metric, unit, title }),
            }
        },
        _ => {
            let mut b = buf;
            type_key(&mut b, key);
            Step {
                mode: EditorMode::StatsEditTitleAdd { instance, entity, friendly_name, metric, window, unit, buf: b },
                finish: Finish::Nothing,
            }
        },
    }
}

// ── image flow ──────────────────────────────────────────────────────────────

/// The contract of `image_source_step`.
pub open spec fn image_source_spec(selected: usize, key: Key, r: Step) -> bool {
    &&& match key {
        Key::Esc => r.mode is Browse && r.finish == Finish::CameraChoice(None),
        Key::Enter => r.mode == (EditorMode::PickingInstance { card_type: CardTypeStub::Image, selected: 0 })
            && r.finish == Finish::CameraChoice(Some(selected == 1)),
        Key::Char('1') => r.mode == (EditorMode::PickingInstance { card_type: CardTypeStub::Image, selected: 0 })
            && r.finish == Finish::CameraChoice(Some(false)),
        Key::Char('2') => r.mode == (EditorMode::PickingInstance { card_type: CardTypeStub::Image, selected: 0 })
            && r.finish == Finish::CameraChoice(Some(true)),
        Key::Up | Key::Char('k') => stays(r) && r.mode == (EditorMode::ImagePickSourceKind {
            selected: if selected > 0 { (selected - 1) as usize } else { selected },
        }),
        Key::Down | Key::Char('j') => stays(r) && r.mode == (EditorMode::ImagePickSourceKind {
            selected: if selected < 1 { (selected + 1) as usize } else { selected },
        }),
        _ => stays(r) && r.mode == (EditorMode::ImagePickSourceKind { selected }),
    }
}

/// Image card, first step: image entity (0) or camera (1). Enter or `1`/`2`
/// choose and go on to the instance; Esc forgets the choice.
pub fn image_source_step(selected: usize, key: Key) -> (r: Step)
    ensures
        image_source_spec(selected, key, r),
{
    let chosen: Option<bool> = match key {
        Key::Esc => {
            return Step { mode: EditorMode::Browse, finish: Finish::CameraChoice(None) };
        },
        Key::Enter => Some(selected == 1),
        Key::Char('1') => Some(false),
        Key::Char('2') => Some(true),
        _ => None,
    };
    match chosen {
        Some(is_camera) => Step {
            mode: EditorMode::PickingInstance { card_type: CardTypeStub::Image, selected: 0 },
            finish: Finish::CameraChoice(Some(is_camera)),
        },
        None => {
            let s = match key {
                Key::Up | Key::Char('k') => if selected > 0 {
                    selected - 1
                } else {
                    selected
                },
                Key::Down | Key::Char('j') => if selected < 1 {
                    selected + 1
                } else {
                    selected
                },
                _ => selected,
            };
            Step { mode: EditorMode::ImagePickSourceKind { selected: s }, finish: Finish::Nothing }
        },
    }
}

/// A positive refresh period, from a digits field.
pub open spec fn refresh_from(buf: Seq<char>) -> Option<u32> {
    match parse_u32_spec(trim(buf)) {
        Some(n) => if n > 0 { Some(n) } else { None },
        None => None,
    }
}

/// The contract of `image_refresh_step`.
pub open spec fn image_refresh_spec(instance: String, entity: String, friendly_name: String, is_camera: bool, buf: String, key: Key, r: Step) -> bool {
    &&& stays(r)
    &&& match key {
        Key::Esc => r.mode is Browse,
        Key::Enter => r.mode matches EditorMode::ImageEditTitleAdd { instance: i, entity: e, friendly_name: f, is_camera: c, refresh_seconds, buf: b }
            && i == instance && e == entity && f == friendly_name && c == is_camera && refresh_seconds
            == refresh_from(buf@) && b@.len() == 0,
        _ => r.mode matches EditorMode::ImageEditRefreshSeconds { instance: i, entity: e, friendly_name: f, is_camera: c, buf: b }
            && i == instance && e == entity && f == friendly_name && c == is_camera && b@ == typed_digits(buf@, key),
    }
}

/// Camera card: seconds between refreshes (blank or 0 means none).
pub fn image_refresh_step(instance: String, entity: String, friendly_name: String, is_camera: bool, buf: String, key: Key) -> (r: Step)
    ensures
        image_refresh_spec(instance, entity, friendly_name, is_camera, buf, key, r),
{
    match key {
        Key::Esc => Step { mode: EditorMode::Browse, finish: Finish::Nothing },
        Key::Enter => {
            let refresh_seconds = match parse_u32(trim_str(buf.as_str())) {
                Some(n) => if n > 0 {
                    Some(n)
                } else {
                    None
                },
                None => None,
            };
            Step {
                mode: EditorMode::ImageEditTitleAdd { instance, entity, friendly_name, is_camera, refresh_seconds, buf: String::new() },
                finish: Finish::Nothing,
            }
        },
        _ => {
            let mut b = buf;
            type_digit_key(&mut b, key);
            Step {
                mode: EditorMode::ImageEditRefreshSeconds { instance, entity, friendly_name, is_camera, buf: b },
                finish: Finish::Nothing,
            }
        },
    }
}

/// The contract of `image_title_step`.
pub open spec fn image_title_spec(instance: String, entity: String, friendly_name: String, is_camera: bool, refresh_seconds: Option<u32>, buf: String, key: Key, r: Step) -> bool {
    &&& match key {
        Key::Esc => stays(r) && r.mode is Browse,
        Key::Enter => r.mode is Browse && (r.finish matches Finish::Card(CardKind::Image { instance: i, source, refresh_seconds: rs, title })
            && i == instance && rs == refresh_seconds && opt_view(title) == title_or_friendly(buf@, friendly_name@)
            && source == if is_camera {
            ImageSource::Camera { entity }
        } else {
            ImageSource::ImageEntity { entity }
        }),
        _ => stays(r) && (r.mode matches EditorMode::ImageEditTitleAdd { instance: i, entity: e, friendly_name: f, is_camera: c, refresh_seconds: rs, buf: b }
            && i == instance && e == entity && f == friendly_name && c == is_camera && rs == refresh_seconds && b@
            == typed(buf@, key)),
    }
}

/// Image card, last step: the title; Enter finishes the card.
pub fn image_title_step(
    instance: String,
    entity: String,
    friendly_name: String,
    is_camera: bool,
    refresh_seconds: Option<u32>,
    buf: String,
    key: Key,
) -> (r: Step)
    ensures
        image_title_spec(instance, entity, friendly_name, is_camera, refresh_seconds, buf, key, r),
{
    match key {
        Key::Esc => Step { mode: EditorMode::Browse, finish: Finish::Nothing },
        Key::Enter => {
            let title = title_from(buf.as_str(), &friendly_name);
            let source = if is_camera {
                ImageSource::Camera { entity }
            } else {
                ImageSource::ImageEntity { entity }
            };
            Step { mode: EditorMode::Browse, finish: Finish::Card(CardKind::Image { instance, source, refresh_seconds, title }) }
        },
        _ => {
            let mut b = buf;
            type_key(&mut b, key);
            Step {
                mode: EditorMode::ImageEditTitleAdd { instance, entity, friendly_name, is_camera, refresh_seconds, buf: b },
                finish: Finish::Nothing,
            }
        },
    }
}

// ── weather flow ────────────────────────────────────────────────────────────

/// The contract of `weather_forecast_step`.
pub open spec fn weather_forecast_spec(instance: String, entity: String, friendly_name: String, selected: usize, key: Key, r: Step) -> bool {
    &&& stays(r)
    &&& match key {
        Key::Esc => r.mode is Browse,
        Key::Enter => r.mode matches EditorMode::WxEditForecastDays { instance: i, entity: e, friendly_name: f, show_forecast, buf }
            && i == instance && e == entity && f == friendly_name && show_forecast == (selected == 0) && buf@ == "3"@,
        _ => r.mode matches EditorMode::WxEditShowForecast { instance: i, entity: e, friendly_name: f, selected: s }
            && i == instance && e == entity && f == friendly_name && s == match key {
            Key::Up => if selected > 0 { (selected - 1) as usize } else { selected },
            Key::Down => if selected < 1 { (selected + 1) as usize } else { selected },
            Key::Char('y') | Key::Char('Y') => 0,
            Key::Char('n') | Key::Char('N') => 1,
            _ => selected,
        },
    }
}

/// Weather card: show a forecast (0) or not (1); `y`/`n` choose directly.
/// Enter goes on to the number of days, which starts as 3.
pub fn weather_forecast_step(instance: String, entity: String, friendly_name: String, selected: usize, key: Key) -> (r: Step)
    ensures
        weather_forecast_spec(instance, entity, friendly_name, selected, key, r),
{
    match key {
        Key::Esc => Step { mode: EditorMode::Browse, finish: Finish::Nothing },
        Key::Enter => Step {
            mode: EditorMode::WxEditForecastDays {
                instance,
                entity,
                friendly_name,
                show_forecast: selected == 0,
                buf: to_owned_string("3"),
            },
            finish: Finish::Nothing,
        },
        _ => {
            let s: usize = match key {
                Key::Up => if selected > 0 {
                    selected - 1
                } else {
                    selected
                },
                Key::Down => if selected < 1 {
                    selected + 1
                } else {
                    selected
                },
                Key::Char('y') | Key::Char('Y') => 0,
                Key::Char('n') | Key::Char('N') => 1,
                _ => selected,
            };
            Step { mode: EditorMode::WxEditShowForecast { instance, entity, friendly_name, selected: s }, finish: Finish::Nothing }
        },
    }
}

/// Forecast days from a digits field: the number clamped to 1..=7, 3 when it
/// is not a `u8`.
pub open spec fn days_from(buf: Seq<char>) -> u8 {
    let d: int = match parse_u32_spec(trim(buf)) {
        Some(n) => if n <= 255 { n as int } else { 3 },
        None => 3,
    };
    if d < 1 {
        1
    } else if d > 7 {
        7
    } else {
        d as u8
    }
}

/// The contract of `weather_days_step`.
pub open spec fn weather_days_spec(instance: String, entity: String, friendly_name: String, show_forecast: bool, buf: String, key: Key, r: Step) -> bool {
    &&& stays(r)
    &&& match key {
        Key::Esc => r.mode is Browse,
        Key::Enter => r.mode matches EditorMode::WxEditTitleAdd { instance: i, entity: e, friendly_name: f, show_forecast: sf, forecast_days, buf: b }
            && i == instance && e == entity && f == friendly_name && sf == show_forecast && forecast_days == days_from(
            buf@,
        ) && b@.len() == 0,
        _ => r.mode matches EditorMode::WxEditForecastDays { instance: i, entity: e, friendly_name: f, show_forecast: sf, buf: b }
            && i == instance && e == entity && f == friendly_name && sf == show_forecast && b@ == typed_digits(buf@, key),
    }
}

/// Weather card: the number of forecast days.
pub fn weather_days_step(instance: String, entity: String, friendly_name: String, show_forecast: bool, buf: String, key: Key) -> (r: Step)
    ensures
        weather_days_spec(instance, entity, friendly_name, show_forecast, buf, key, r),
{
    match key {
        Key::Esc => Step { mode: EditorMode::Browse, finish: Finish::Nothing },
        Key::Enter => {
            let d: u32 = match parse_u32(trim_str(buf.as_str())) {
                Some(n) => if n <= 255 {
                    n
                } else {
                    3
                },
                None => 3,
            };
            let days: u8 = if d < 1 {
                1
            } else if d > 7 {
                7
            } else {
                d as u8
            };
            Step {
                mode: EditorMode::WxEditTitleAdd { instance, entity, friendly_name, show_forecast, forecast_days: days, buf: String::new() },
                finish: Finish::Nothing,
            }
        },
        _ => {
            let mut b = buf;
            type_digit_key(&mut b, key);
            Step {
                mode: EditorMode::WxEditForecastDays { instance, entity, friendly_name, show_forecast, buf: b },
                finish: Finish::Nothing,
            }
        },
    }
}

/// The contract of `weather_title_step`.
pub open spec fn weather_title_spec(instance: String, entity: String, friendly_name: String, show_forecast: bool, forecast_days: u8, buf: String, key: Key, r: Step) -> bool {
    &&& match key {
        Key::Esc => stays(r) && r.mode is Browse,
        Key::Enter => r.mode is Browse && (r.finish matches Finish::Card(CardKind::Weather { instance: i, entity: e, show_forecast: sf, forecast_days: fd, title })
            && i == instance && e == entity && sf == show_forecast && fd == forecast_days && opt_view(title)
            == title_or_friendly(buf@, friendly_name@)),
        _ => stays(r) && (r.mode matches EditorMode::WxEditTitleAdd { instance: i, entity: e, friendly_name: f, show_forecast: sf, forecast_days: fd, buf: b }
            && i == instance && e == entity && f == friendly_name && sf == show_forecast && fd == forecast_days && b@
            == typed(buf@, key)),
    }
}

/// Weather card, last step: the title; Enter finishes the card.
pub fn weather_title_step(
    instance: String,
    entity: String,
    friendly_name: String,
    show_forecast: bool,
    forecast_days: u8,
    buf: String,
    key: Key,
) -> (r: Step)
    ensures
        weather_title_spec(instance, entity, friendly_name, show_forecast, forecast_days, buf, key, r),
{
    match key {
        Key::Esc => Step { mode: EditorMode::Browse, finish: Finish::Nothing },
        Key::Enter => {
            let title = title_from(buf.as_str(), &friendly_name);
            Step {
                mode: EditorMode::Browse,
                finish: Finish::Card(CardKind::Weather { instance, entity, show_forecast, forecast_days, title }),
            }
        },
        _ => {
            let mut b = buf;
            type_key(&mut b, key);
            Step {
                mode: EditorMode::WxEditTitleAdd { instance, entity, friendly_name, show_forecast, forecast_days, buf: b },
                finish: Finish::Nothing,
            }
        },
    }
}

// ── choosing the card type, the instance and the entities ─────────────────

/// The card types in the order the type picker lists them.
pub open spec fn card_types() -> Seq<CardTypeStub> {
    seq![
        CardTypeStub::Entity,
        CardTypeStub::Toggle,
        CardTypeStub::Gauge,
        CardTypeStub::Graph,
        CardTypeStub::Text,
        CardTypeStub::EntityList,
        CardTypeStub::FilteredEntityList,
        CardTypeStub::Clock,
        CardTypeStub::Statistics,
        CardTypeStub::MediaPlayer,
        CardTypeStub::Image,
        CardTypeStub::Weather,
    ]
}

/// The contract of `picking_type_step`.
pub open spec fn picking_type_spec(selected: usize, key: Key, r: Step) -> bool {
    &&& match key {
        Key::Esc => stays(r) && r.mode is Browse,
        Key::Enter => if selected < 12 {
            r.finish == Finish::Start(card_types()[selected as int]) && r.mode == (EditorMode::PickingType { selected })
        } else {
            stays(r) && r.mode == (EditorMode::PickingType { selected })
        },
        Key::Up => stays(r) && r.mode == (EditorMode::PickingType { selected: moved_selection(selected, 12, key) }),
        Key::Down => stays(r) && r.mode == (EditorMode::PickingType { selected: moved_selection(selected, 12, key) }),
        Key::Char(c) => if c == 'k' {
            stays(r) && r.mode == (EditorMode::PickingType { selected: moved_selection(selected, 12, Key::Up) })
        } else if c == 'j' {
            stays(r) && r.mode == (EditorMode::PickingType { selected: moved_selection(selected, 12, Key::Down) })
        } else if '1' <= c && c <= '9' {
            r.finish == Finish::Start(card_types()[(c as u32) - 49]) && r.mode == (EditorMode::PickingType { selected })
        } else {
            stays(r) && r.mode == (EditorMode::PickingType { selected })
        },
        _ => stays(r) && r.mode == (EditorMode::PickingType { selected }),
    }
}

/// The type picker: arrows (or `k`/`j`) move, Enter or a digit `1`–`9` starts
/// the flow of the chosen type.
pub fn picking_type_step(selected: usize, key: Key) -> (r: Step)
    ensures
        picking_type_spec(selected, key, r),
{
    let all = CardTypeStub::all();
    match key {
        Key::Esc => Step { mode: EditorMode::Browse, finish: Finish::Nothing },
        Key::Enter => {
            if selected < all.len() {
                Step { mode: EditorMode::PickingType { selected }, finish: Finish::Start(all[selected]) }
            } else {
                Step { mode: EditorMode::PickingType { selected }, finish: Finish::Nothing }
            }
        },
        Key::Up | Key::Char('k') => {
            let s = if selected > 0 {
                selected - 1
            } else {
                selected
            };
            Step { mode: EditorMode::PickingType { selected: s }, finish: Finish::Nothing }
        },
        Key::Down | Key::Char('j') => {
            let s = if all.len() > 0 && selected < all.len() - 1 {
                selected + 1
            } else {
                selected
            };
            Step { mode: EditorMode::PickingType { selected: s }, finish: Finish::Nothing }
        },
        Key::Char(c) => {
            if '1' <= c && c <= '9' {
                let d = (c as u32 - 49) as usize;
                Step { mode: EditorMode::PickingType { selected }, finish: Finish::Start(all[d]) }
            } else {
                Step { mode: EditorMode::PickingType { selected }, finish: Finish::Nothing }
            }
        },
        _ => Step { mode: EditorMode::PickingType { selected }, finish: Finish::Nothing },
    }
}

pub open spec fn alias_views(v: Seq<String>) -> Seq<Seq<char>> {
    v.map_values(|s: String| s@)
}

/// The contract of `picking_instance_step`.
pub open spec fn picking_instance_spec(card_type: CardTypeStub, selected: usize, aliases: Seq<String>, key: Key, r: Step) -> bool {
    &&& stays(r)
    &&& ({
        let n = aliases.len() as int;
        let same = r.mode == (EditorMode::PickingInstance { card_type, selected });
        match key {
            Key::Esc => r.mode is Browse,
            Key::Enter => if selected < n {
                picker_mode(card_type, aliases[selected as int]@, r.mode)
            } else {
                same
            },
            Key::Up => r.mode == (EditorMode::PickingInstance { card_type, selected: moved_selection(selected, n, key) }),
            Key::Down => r.mode == (EditorMode::PickingInstance { card_type, selected: moved_selection(selected, n, key) }),
            Key::Char(c) => if c == 'k' {
                r.mode == (EditorMode::PickingInstance { card_type, selected: moved_selection(selected, n, Key::Up) })
            } else if c == 'j' {
                r.mode == (EditorMode::PickingInstance { card_type, selected: moved_selection(selected, n, Key::Down) })
            } else if '1' <= c && c <= '9' && (c as u32) - 48 <= n {
                picker_mode(card_type, aliases[(c as u32) - 49]@, r.mode)
            } else {
                same
            },
            _ => same,
        }
    })
}

/// The instance picker over `aliases`: arrows (or `k`/`j`) move, Enter or a
/// digit `1`–`9` picks an instance and goes on to its entity picker.
pub fn picking_instance_step(card_type: CardTypeStub, selected: usize, aliases: &Vec<String>, key: Key) -> (r: Step)
    ensures
        picking_instance_spec(card_type, selected, aliases@, key, r),
{
    let n = aliases.len();
    match key {
        Key::Esc => Step { mode: EditorMode::Browse, finish: Finish::Nothing },
        Key::Enter => {
            if selected < n {
                Step { mode: picker_mode_for(card_type, aliases[selected].clone()), finish: Finish::Nothing }
            } else {
                Step { mode: EditorMode::PickingInstance { card_type, selected }, finish: Finish::Nothing }
            }
        },
        Key::Up | Key::Char('k') => {
            let s = if selected > 0 {
                selected - 1
            } else {
                selected
            };
            Step { mode: EditorMode::PickingInstance { card_type, selected: s }, finish: Finish::Nothing }
        },
        Key::Down | Key::Char('j') => {
            let s = if n > 0 && selected < n - 1 {
                selected + 1
            } else {
                selected
            };
            Step { mode: EditorMode::PickingInstance { card_type, selected: s }, finish: Finish::Nothing }
        },
        Key::Char(c) => {
            if '1' <= c && c <= '9' && (c as u32 - 48) as usize <= n {
                let i = (c as u32 - 49) as usize;
                Step { mode: picker_mode_for(card_type, aliases[i].clone()), finish: Finish::Nothing }
            } else {
                Step { mode: EditorMode::PickingInstance { card_type, selected }, finish: Finish::Nothing }
            }
        },
        _ => Step { mode: EditorMode::PickingInstance { card_type, selected }, finish: Finish::Nothing },
    }
}

/// The selection of an entity list of `n` rows after a key: arrows move by
/// one, page keys by ten, typing starts over at the top.
pub open spec fn list_selection(selected: usize, n: int, key: Key) -> usize {
    match key {
        Key::Backspace => 0,
        Key::Char(_) => 0,
        Key::PageUp => if selected >= 10 { (selected - 10) as usize } else { 0 },
        Key::PageDown => {
            let last: int = if n > 0 { n - 1 } else { 0 };
            if selected + 10 < last { (selected + 10) as usize } else { last as usize }
        },
        _ => moved_selection(selected, n, key),
    }
}

/// What picking `eid` (with friendly name `fname`) leads to for a card of
/// type `ct`: statistics pick a metric, images a refresh period (cameras) or
/// a title, weather a forecast, every other type a title.
pub open spec fn after_entity(ct: CardTypeStub, inst: Seq<char>, eid: Seq<char>, fname: Seq<char>, camera: Option<bool>, r: EditorMode) -> bool {
    if ct == CardTypeStub::Statistics {
        r matches EditorMode::StatsPickMetric { instance, entity, friendly_name, selected } && instance@ == inst
            && entity@ == eid && friendly_name@ == fname && selected == 0
    } else if ct == CardTypeStub::Image {
        let is_camera = match camera {
            Some(b) => b,
            None => starts_with(eid, "camera."@),
        };
        if is_camera {
            r matches EditorMode::ImageEditRefreshSeconds { instance, entity, friendly_name, is_camera: c, buf } && instance@
                == inst && entity@ == eid && friendly_name@ == fname && c && buf@.len() == 0
        } else {
            r matches EditorMode::ImageEditTitleAdd { instance, entity, friendly_name, is_camera: c, refresh_seconds, buf }
                && instance@ == inst && entity@ == eid && friendly_name@ == fname && !c && refresh_seconds is None
                && buf@.len() == 0
        }
    } else if ct == CardTypeStub::Weather {
        r matches EditorMode::WxEditShowForecast { instance, entity, friendly_name, selected } && instance@ == inst
            && entity@ == eid && friendly_name@ == fname && selected == 0
    } else {
        r matches EditorMode::EditingTitle { card_type, instance, entity, friendly_name, title_buffer } && card_type
            == ct && instance@ == inst && entity@ == eid && friendly_name@ == fname && title_buffer@.len() == 0
    }
}

fn next_after_entity(ct: CardTypeStub, instance: String, eid: String, fname: String, camera: Option<bool>) -> (r: EditorMode)
    ensures
        after_entity(ct, instance@, eid@, fname@, camera, r),
{
    match ct {
        CardTypeStub::Statistics => EditorMode::StatsPickMetric { instance, entity: eid, friendly_name: fname, selected: 0 },
        CardTypeStub::Image => {
            let is_camera = match camera {
                Some(b) => b,
                None => crate::strings::starts_with_exec(eid.as_str(), "camera."),
            };
            if is_camera {
                EditorMode::ImageEditRefreshSeconds { instance, entity: eid, friendly_name: fname, is_camera: true, buf: String::new() }
            } else {
                EditorMode::ImageEditTitleAdd {
                    instance,
                    entity: eid,
                    friendly_name: fname,
                    is_camera: false,
                    refresh_seconds: None,
                    buf: String::new(),
                }
            }
        },
        CardTypeStub::Weather => EditorMode::WxEditShowForecast { instance, entity: eid, friendly_name: fname, selected: 0 },
        _ => EditorMode::EditingTitle { card_type: ct, instance, entity: eid, friendly_name: fname, title_buffer: String::new() },
    }
}

/// The contract of `picking_entity_step`.
pub open spec fn picking_entity_spec(card_type: CardTypeStub, instance: String, query: String, selected: usize, rows: Seq<EntityPick>, camera: Option<bool>, key: Key, r: Step) -> bool {
    &&& stays(r)
    &&& ({
        let n = rows.len() as int;
        match key {
            Key::Esc => r.mode is Browse,
            Key::Enter => if selected < n {
                after_entity(card_type, instance@, rows[selected as int].entity_id@, rows[selected as int].friendly_name@, camera, r.mode)
            } else {
                r.mode matches EditorMode::PickingEntity { card_type: ct, instance: i, query: q, selected: s }
                    && ct == card_type && i == instance && q == query && s == selected
            },
            _ => r.mode matches EditorMode::PickingEntity { card_type: ct, instance: i, query: q, selected: s }
                && ct == card_type && i == instance && q@ == typed(query@, key) && s == list_selection(selected, n, key),
        }
    })
}

/// The single-entity picker over `rows` (the search results for its query):
/// typing edits the query, arrows and page keys move, Enter picks the
/// selected entity.
pub fn picking_entity_step(
    card_type: CardTypeStub,
    instance: String,
    query: String,
    selected: usize,
    rows: &Vec<EntityPick>,
    camera: Option<bool>,
    key: Key,
) -> (r: Step)
    ensures
        picking_entity_spec(card_type, instance, query, selected, rows@, camera, key, r),
{
    let n = rows.len();
    match key {
        Key::Esc => Step { mode: EditorMode::Browse, finish: Finish::Nothing },
        Key::Enter => {
            if selected < n {
                let pick = &rows[selected];
                Step {
                    mode: next_after_entity(card_type, instance, pick.entity_id.clone(), pick.friendly_name.clone(), camera),
                    finish: Finish::Nothing,
                }
            } else {
                Step { mode: EditorMode::PickingEntity { card_type, instance, query, selected }, finish: Finish::Nothing }
            }
        },
        _ => {
            let mut q = query;
            type_key(&mut q, key);
            let s: usize = match key {
                Key::Backspace => 0,
                Key::Char(_) => 0,
                Key::Up => if selected > 0 {
                    selected - 1
                } else {
                    selected
                },
                Key::Down => if n > 0 && selected < n - 1 {
                    selected + 1
                } else {
                    selected
                },
                Key::PageUp => if selected >= 10 {
                    selected - 10
                } else {
                    0
                },
                Key::PageDown => {
                    let last: usize = if n > 0 {
                        n - 1
                    } else {
                        0
                    };
                    if selected < last && last - selected > 10 {
                        selected + 10
                    } else {
                        last
                    }
                },
                _ => selected,
            };
            Step { mode: EditorMode::PickingEntity { card_type, instance, query: q, selected: s }, finish: Finish::Nothing }
        },
    }
}

/// The contract of `editing_title_step`.
pub open spec fn editing_title_spec(card_type: CardTypeStub, instance: String, entity: String, friendly_name: String, title_buffer: String, key: Key, r: Step) -> bool {
    &&& match key {
        Key::Esc => stays(r) && r.mode is Browse,
        Key::Enter => r.mode is Browse && (r.finish matches Finish::Card(k) && typed_kind(
            card_type,
            k,
            instance@,
            entity@,
            title_or_friendly(title_buffer@, friendly_name@),
        )),
        _ => stays(r) && (r.mode matches EditorMode::EditingTitle { card_type: ct, instance: i, entity: e, friendly_name: f, title_buffer: b }
            && ct == card_type && i == instance && e == entity && f == friendly_name && b@ == typed(title_buffer@, key)),
    }
}

/// A one-entity card's last step: the title (the friendly name when left
/// blank); Enter finishes the card.
pub fn editing_title_step(
    card_type: CardTypeStub,
    instance: String,
    entity: String,
    friendly_name: String,
    title_buffer: String,
    key: Key,
) -> (r: Step)
    requires
        key == Key::Enter ==> built_from_entity(card_type),
    ensures
        editing_title_spec(card_type, instance, entity, friendly_name, title_buffer, key, r),
{
    match key {
        Key::Esc => Step { mode: EditorMode::Browse, finish: Finish::Nothing },
        Key::Enter => {
            let title = title_from(title_buffer.as_str(), &friendly_name);
            let kind = build_typed_card(card_type, instance, entity, title);
            Step { mode: EditorMode::Browse, finish: Finish::Card(kind) }
        },
        _ => {
            let mut b = title_buffer;
            type_key(&mut b, key);
            Step {
                mode: EditorMode::EditingTitle { card_type, instance, entity, friendly_name, title_buffer: b },
                finish: Finish::Nothing,
            }
        },
    }
}

pub open spec fn pair_views(v: Seq<(String, String)>) -> Seq<(Seq<char>, Seq<char>)> {
    v.map_values(|p: (String, String)| (p.0@, p.1@))
}

/// Index of the first picked entry with entity id `id`.
pub open spec fn picked_index(picked: Seq<(Seq<char>, Seq<char>)>, id: Seq<char>) -> Option<int>
    decreases picked.len(),
{
    if picked.len() == 0 {
        None
    } else {
        match picked_index(picked.drop_last(), id) {
            Some(i) => Some(i),
            None => if picked.last().0 == id {
                Some(picked.len() - 1)
            } else {
                None
            },
        }
    }
}

/// Picking an entity again unpicks it; otherwise it is added last.
pub open spec fn toggled(picked: Seq<(Seq<char>, Seq<char>)>, id: Seq<char>, name: Seq<char>) -> Seq<(Seq<char>, Seq<char>)> {
    match picked_index(picked, id) {
        Some(i) => picked.remove(i),
        None => picked.push((id, name)),
    }
}

fn find_picked(picked: &Vec<(String, String)>, id: &str) -> (r: Option<usize>)
    ensures
        match r {
            Some(i) => picked_index(pair_views(picked@), id@) == Some(i as int),
            None => picked_index(pair_views(picked@), id@) is None,
        },
{
    let mut i: usize = 0;
    while i < picked.len()
        invariant
            i <= picked@.len(),
            picked_index(pair_views(picked@).take(i as int), id@) is None,
        decreases picked.len() - i,
    {
        assert(pair_views(picked@).take(i as int + 1).drop_last() =~= pair_views(picked@).take(i as int));
        if crate::strings::str_eq(picked[i].0.as_str(), id) {
            proof {
                lemma_picked_index_prefix(pair_views(picked@), i as int + 1, id@);
            }
            return Some(i);
        }
        i = i + 1;
    }
    assert(pair_views(picked@).take(picked@.len() as int) =~= pair_views(picked@));
    None
}

proof fn lemma_picked_index_bound(p: Seq<(Seq<char>, Seq<char>)>, id: Seq<char>)
    ensures
        picked_index(p, id) matches Some(i) ==> 0 <= i < p.len() && p[i].0 == id,
    decreases p.len(),
{
    if p.len() > 0 {
        lemma_picked_index_bound(p.drop_last(), id);
    }
}

proof fn lemma_picked_index_prefix(p: Seq<(Seq<char>, Seq<char>)>, k: int, id: Seq<char>)
    requires
        0 <= k <= p.len(),
        picked_index(p.take(k), id) is Some,
    ensures
        picked_index(p, id) == picked_index(p.take(k), id),
    decreases p.len() - k,
{
    if k < p.len() {
        assert(p.take(k + 1).drop_last() =~= p.take(k));
        lemma_picked_index_prefix(p, k + 1, id);
    } else {
        assert(p.take(k) =~= p);
    }
}

/// The contract of `picking_multi_step`.
pub open spec fn picking_multi_spec(instance: String, query: String, selected: usize, picked: Vec<(String, String)>, rows: Seq<EntityPick>, key: Key, r: Step) -> bool {
    &&& stays(r)
    &&& ({
        let n = rows.len() as int;
        let has_row = selected < n;
        let row = rows[selected as int];
        match key {
            Key::Esc => r.mode is Browse,
            Key::Enter => if picked@.len() == 0 {
                r.mode matches EditorMode::PickingMulti { instance: i, query: q, selected: s, picked: p } && i == instance
                    && q == query && s == selected && pair_views(p@) == if has_row {
                    seq![(row.entity_id@, row.friendly_name@)]
                } else {
                    Seq::empty()
                }
            } else {
                r.mode matches EditorMode::EditingEntityListTitle { instance: i, picked: p, title_buffer } && i == instance
                    && pair_views(p@) == pair_views(picked@) && title_buffer@.len() == 0
            },
            Key::Char(' ') => r.mode matches EditorMode::PickingMulti { instance: i, query: q, selected: s, picked: p }
                && i == instance && q == query && s == selected && pair_views(p@) == if has_row {
                toggled(pair_views(picked@), row.entity_id@, row.friendly_name@)
            } else {
                pair_views(picked@)
            },
            Key::Up => r.mode matches EditorMode::PickingMulti { instance: i, query: q, selected: s, picked: p } && i
                == instance && q == query && s == moved_selection(selected, n, key) && pair_views(p@) == pair_views(picked@),
            Key::Down => r.mode matches EditorMode::PickingMulti { instance: i, query: q, selected: s, picked: p } && i
                == instance && q == query && s == moved_selection(selected, n, key) && pair_views(p@) == pair_views(picked@),
            Key::Backspace => r.mode matches EditorMode::PickingMulti { instance: i, query: q, selected: s, picked: p }
                && i == instance && q@ == typed(query@, key) && s == 0 && pair_views(p@) == pair_views(picked@),
            Key::Char(_) => r.mode matches EditorMode::PickingMulti { instance: i, query: q, selected: s, picked: p }
                && i == instance && q@ == typed(query@, key) && s == 0 && pair_views(p@) == pair_views(picked@),
            _ => r.mode matches EditorMode::PickingMulti { instance: i, query: q, selected: s, picked: p } && i
                == instance && q == query && s == selected && pair_views(p@) == pair_views(picked@),
        }
    })
}

/// The multi-entity picker over `rows` (the search results for its query):
/// Space picks or unpicks the selected entity, other characters edit the
/// query, Enter goes on to the title once something is picked (and with
/// nothing picked yet, picks the selected entity).
pub fn picking_multi_step(
    instance: String,
    query: String,
    selected: usize,
    picked: Vec<(String, String)>,
    rows: &Vec<EntityPick>,
    key: Key,
) -> (r: Step)
    ensures
        picking_multi_spec(instance, query, selected, picked, rows@, key, r),
{
    let n = rows.len();
    let mut picked = picked;
    match key {
        Key::Esc => Step { mode: EditorMode::Browse, finish: Finish::Nothing },
        Key::Enter => {
            if picked.len() == 0 {
                if selected < n {
                    let row = &rows[selected];
                    picked.push((row.entity_id.clone(), row.friendly_name.clone()));
                    assert(pair_views(picked@) =~= seq![(row.entity_id@, row.friendly_name@)]);
                } else {
                    assert(pair_views(picked@) =~= Seq::<(Seq<char>, Seq<char>)>::empty());
                }
                Step { mode: EditorMode::PickingMulti { instance, query, selected, picked }, finish: Finish::Nothing }
            } else {
                Step { mode: EditorMode::EditingEntityListTitle { instance, picked, title_buffer: String::new() }, finish: Finish::Nothing }
            }
        },
        Key::Char(' ') => {
            if selected < n {
                let row = &rows[selected];
                let ghost before = pair_views(picked@);
                match find_picked(&picked, row.entity_id.as_str()) {
                    Some(p) => {
                        proof {
                            lemma_picked_index_bound(before, row.entity_id@);
                        }
                        picked.remove(p);
                        assert(pair_views(picked@) =~= before.remove(p as int));
                    },
                    None => {
                        picked.push((row.entity_id.clone(), row.friendly_name.clone()));
                        assert(pair_views(picked@) =~= before.push((row.entity_id@, row.friendly_name@)));
                    },
                }
            }
            Step { mode: EditorMode::PickingMulti { instance, query, selected, picked }, finish: Finish::Nothing }
        },
        Key::Up => {
            let s = if selected > 0 {
                selected - 1
            } else {
                selected
            };
            Step { mode: EditorMode::PickingMulti { instance, query, selected: s, picked }, finish: Finish::Nothing }
        },
        Key::Down => {
            let s = if n > 0 && selected < n - 1 {
                selected + 1
            } else {
                selected
            };
            Step { mode: EditorMode::PickingMulti { instance, query, selected: s, picked }, finish: Finish::Nothing }
        },
        Key::Backspace | Key::Char(_) => {
            let mut q = query;
            type_key(&mut q, key);
            Step { mode: EditorMode::PickingMulti { instance, query: q, selected: 0, picked }, finish: Finish::Nothing }
        },
        _ => Step { mode: EditorMode::PickingMulti { instance, query, selected, picked }, finish: Finish::Nothing },
    }
}

pub open spec fn bare_items(picked: Seq<(Seq<char>, Seq<char>)>, items: Seq<EntityListItem>) -> bool {
    &&& items.len() == picked.len()
    &&& forall|i: int| 0 <= i < items.len() ==> (#[trigger] items[i] matches EntityListItem::Bare(e) && e@ == picked[i].0)
}

/// The contract of `entity_list_title_step`.
pub open spec fn entity_list_title_spec(instance: String, picked: Vec<(String, String)>, title_buffer: String, key: Key, r: Step) -> bool {
    &&& match key {
        Key::Esc => stays(r) && r.mode is Browse,
        Key::Enter => r.mode is Browse && (r.finish matches Finish::Card(CardKind::EntityList { instance: i, entities, title })
            && i == instance && bare_items(pair_views(picked@), entities@) && opt_view(title) == trimmed_opt(title_buffer@)),
        _ => stays(r) && (r.mode matches EditorMode::EditingEntityListTitle { instance: i, picked: p, title_buffer: b }
            && i == instance && p == picked && b@ == typed(title_buffer@, key)),
    }
}

/// An entity list's last step: the title; Enter finishes the card with the
/// picked entities in order.
pub fn entity_list_title_step(instance: String, picked: Vec<(String, String)>, title_buffer: String, key: Key) -> (r: Step)
    ensures
        entity_list_title_spec(instance, picked, title_buffer, key, r),
{
    match key {
        Key::Esc => Step { mode: EditorMode::Browse, finish: Finish::Nothing },
        Key::Enter => {
            let title = trimmed_or_none(title_buffer.as_str());
            let mut entities: Vec<EntityListItem> = Vec::new();
            let mut i: usize = 0;
            while i < picked.len()
                invariant
                    i <= picked@.len(),
                    bare_items(pair_views(picked@).take(i as int), entities@),
                decreases picked.len() - i,
            {
                entities.push(EntityListItem::Bare(picked[i].0.clone()));
                i = i + 1;
            }
            assert(pair_views(picked@).take(picked@.len() as int) =~= pair_views(picked@));
            Step { mode: EditorMode::Browse, finish: Finish::Card(CardKind::EntityList { instance, entities, title }) }
        },
        _ => {
            let mut b = title_buffer;
            type_key(&mut b, key);
            Step { mode: EditorMode::EditingEntityListTitle { instance, picked, title_buffer: b }, finish: Finish::Nothing }
        },
    }
}

/// The contract of `text_body_step`.
pub open spec fn text_body_spec(title_buffer: String, body_buffer: String, focus_body: bool, key: Key, r: Step) -> bool {
    &&& match key {
        Key::Esc => stays(r) && r.mode is Browse,
        Key::F(2) => r.mode is Browse && (r.finish matches Finish::Card(CardKind::Text { markdown, title }) && markdown
            == body_buffer && opt_view(title) == trimmed_opt(title_buffer@)),
        Key::Tab => stays(r) && (r.mode matches EditorMode::EditingTextBody { title_buffer: t, body_buffer: b, focus_body: f }
            && t == title_buffer && b == body_buffer && f == !focus_body),
        Key::Enter => stays(r) && (r.mode matches EditorMode::EditingTextBody { title_buffer: t, body_buffer: b, focus_body: f }
            && t == title_buffer && f && if focus_body {
            b@ == body_buffer@.push('\n')
        } else {
            b == body_buffer
        }),
        _ => stays(r) && (r.mode matches EditorMode::EditingTextBody { title_buffer: t, body_buffer: b, focus_body: f }
            && f == focus_body && if focus_body {
            t == title_buffer && b@ == typed(body_buffer@, key)
        } else {
            b == body_buffer && t@ == typed(title_buffer@, key)
        }),
    }
}

/// A text card: Tab switches between title and body, Enter moves to the body
/// (and in the body starts a new line), F2 finishes the card.
pub fn text_body_step(title_buffer: String, body_buffer: String, focus_body: bool, key: Key) -> (r: Step)
    ensures
        text_body_spec(title_buffer, body_buffer, focus_body, key, r),
{
    match key {
        Key::Esc => Step { mode: EditorMode::Browse, finish: Finish::Nothing },
        Key::F(2) => {
            let title = trimmed_or_none(title_buffer.as_str());
            Step { mode: EditorMode::Browse, finish: Finish::Card(CardKind::Text { markdown: body_buffer, title }) }
        },
        Key::Tab => Step {
            mode: EditorMode::EditingTextBody { title_buffer, body_buffer, focus_body: !focus_body },
            finish: Finish::Nothing,
        },
        Key::Enter => {
            let mut b = body_buffer;
            if focus_body {
                push_char(&mut b, '\n');
            }
            Step { mode: EditorMode::EditingTextBody { title_buffer, body_buffer: b, focus_body: true }, finish: Finish::Nothing }
        },
        _ => {
            let mut t = title_buffer;
            let mut b = body_buffer;
            if focus_body {
                type_key(&mut b, key);
            } else {
                type_key(&mut t, key);
            }
            Step { mode: EditorMode::EditingTextBody { title_buffer: t, body_buffer: b, focus_body }, finish: Finish::Nothing }
        },
    }
}

pub open spec fn opt_card(t: Option<&Card>) -> Option<Card> {
    match t {
        Some(c) => Some(*c),
        None => None,
    }
}

/// The contract of `start_card`.
pub open spec fn start_card_spec(kind: CardTypeStub, aliases: Seq<String>, target: Option<Card>, r: Step) -> bool {
    &&& match kind {
        CardTypeStub::Text => stays(r) && match target {
            Some(c) if c.kind is Text => r.mode matches EditorMode::EditingTextBody { title_buffer, body_buffer, focus_body }
                && title_buffer@ == crate::card_ops::or_default(c.kind->Text_title, Seq::empty()) && body_buffer
                == c.kind->markdown && focus_body,
            _ => r.mode matches EditorMode::EditingTextBody { title_buffer, body_buffer, focus_body } && title_buffer@.len()
                == 0 && body_buffer@.len() == 0 && !focus_body,
        },
        CardTypeStub::Clock => stays(r) && (r.mode matches EditorMode::ClockAddTitle { title_buffer } && title_buffer@.len() == 0),
        CardTypeStub::Graph => stays(r) && r.mode is GraphPickType,
        CardTypeStub::Image => stays(r) && r.mode == (EditorMode::ImagePickSourceKind { selected: 0 }),
        _ => if aliases.len() == 0 {
            r.mode is Browse && (r.finish matches Finish::Failed(m) && m@ == "no instances connected"@)
        } else if aliases.len() == 1 {
            stays(r) && picker_mode(kind, aliases[0]@, r.mode)
        } else {
            stays(r) && r.mode == (EditorMode::PickingInstance { card_type: kind, selected: 0 })
        },
    }
}

/// The first step of the flow for a new card of type `kind`: text cards go
/// to their editor (filled from `target` when it is the text card being
/// edited), clocks to their title, graphs and images to their own first
/// choice; every other type to the instance picker, straight to the entity
/// picker when there is one instance, and nowhere when there is none.
pub fn start_card(kind: CardTypeStub, aliases: &Vec<String>, target: Option<&Card>) -> (r: Step)
    ensures
        start_card_spec(kind, aliases@, opt_card(target), r),
{
    match kind {
        CardTypeStub::Text => {
            let (t, b, f) = match target {
                Some(c) => match &c.kind {
                    CardKind::Text { markdown, title } => {
                        let t = match title {
                            Some(t) => t.clone(),
                            None => String::new(),
                        };
                        (t, markdown.clone(), true)
                    },
                    _ => (String::new(), String::new(), false),
                },
                None => (String::new(), String::new(), false),
            };
            Step { mode: EditorMode::EditingTextBody { title_buffer: t, body_buffer: b, focus_body: f }, finish: Finish::Nothing }
        },
        CardTypeStub::Clock => Step { mode: EditorMode::ClockAddTitle { title_buffer: String::new() }, finish: Finish::Nothing },
        CardTypeStub::Graph => Step { mode: EditorMode::GraphPickType, finish: Finish::Nothing },
        CardTypeStub::Image => Step { mode: EditorMode::ImagePickSourceKind { selected: 0 }, finish: Finish::Nothing },
        _ => {
            let n = aliases.len();
            if n == 0 {
                Step { mode: EditorMode::Browse, finish: Finish::Failed(to_owned_string("no instances connected")) }
            } else if n == 1 {
                Step { mode: picker_mode_for(kind, aliases[0].clone()), finish: Finish::Nothing }
            } else {
                Step { mode: EditorMode::PickingInstance { card_type: kind, selected: 0 }, finish: Finish::Nothing }
            }
        },
    }
}

// ── the flows as one editor key handler ────────────────────────────────────

/// What a key did to the editor's add-card flow.
#[derive(Debug)]
pub enum KeyResult {
    /// The editor is not in an add-card step; nothing changed.
    NotMine,
    /// The key was handled.
    Done,
    /// The key was handled and the flow could not go on; the message says why.
    Failed(String),
}

/// The instance aliases, in registry order.
pub open spec fn aliases_of(rts: Seq<InstanceRuntime>) -> Seq<String> {
    rts.map_values(|rt: InstanceRuntime| rt.alias)
}

pub(crate) fn aliases(runtimes: &Vec<InstanceRuntime>) -> (r: Vec<String>)
    ensures
        r@ == aliases_of(runtimes@),
{
    let mut out: Vec<String> = Vec::new();
    let mut i: usize = 0;
    while i < runtimes.len()
        invariant
            i <= runtimes@.len(),
            out@ == aliases_of(runtimes@).take(i as int),
        decreases runtimes.len() - i,
    {
        out.push(runtimes[i].alias.clone());
        assert(out@ =~= aliases_of(runtimes@).take(i as int + 1));
        i = i + 1;
    }
    assert(aliases_of(runtimes@).take(runtimes@.len() as int) =~= aliases_of(runtimes@));
    out
}

/// The card being edited, when the editor has one and it exists.
pub open spec fn target_of(a: EditorState, d: Dashboard) -> Option<Card> {
    match a.edit_target {
        Some(i) => if i < flat_cards(d).len() {
            Some(flat_cards(d)[i as int])
        } else {
            None
        },
        None => None,
    }
}

/// The entity prefix the single-entity picker filters on: the image kind
/// chosen for image cards, else the card type's domain.
pub open spec fn picker_prefix(ct: CardTypeStub, camera: Option<bool>) -> Option<Seq<char>> {
    if ct == CardTypeStub::Image {
        match camera {
            Some(true) => Some("camera."@),
            Some(false) => Some("image."@),
            None => None,
        }
    } else if ct == CardTypeStub::MediaPlayer {
        Some("media_player."@)
    } else if ct == CardTypeStub::Weather {
        Some("weather."@)
    } else {
        None
    }
}

fn picker_prefix_for(ct: CardTypeStub, camera: Option<bool>) -> (r: Option<&'static str>)
    ensures
        match r {
            Some(p) => picker_prefix(ct, camera) == Some(p@),
            None => picker_prefix(ct, camera) is None,
        },
{
    match ct {
        CardTypeStub::Image => match camera {
            Some(true) => Some("camera."),
            Some(false) => Some("image."),
            None => None,
        },
        _ => crate::builder::domain_prefix_for_type(ct),
    }
}

/// Editor `b`, dashboard `e` and result `r` are what applying step `st` to
/// editor `a` and dashboard `d` gives: the step's mode, plus what it
/// finishes — a card is added after an undo snapshot, a new flow is started,
/// the image kind is remembered, or the failure is reported.
pub open spec fn step_applied(a: EditorState, d: Dashboard, st: Step, aliases: Seq<String>, b: EditorState, e: Dashboard, r: KeyResult) -> bool {
    match st.finish {
        Finish::Nothing => b == (EditorState { mode: st.mode, ..a }) && e == d && r is Done,
        Finish::Card(k) => {
            &&& snapshot_stack(a.undo_stack@, d, b.undo_stack@)
            &&& card_added(EditorState { mode: EditorMode::Browse, undo_stack: b.undo_stack, ..a }, d, k, b, e)
            &&& r is Done
        },
        Finish::Start(kind) => exists|st2: Step|
            {
                &&& #[trigger] start_card_spec(kind, aliases, target_of(a, d), st2)
                &&& b == (EditorState { mode: st2.mode, ..a })
                &&& e == d
                &&& match st2.finish {
                    Finish::Failed(m) => r == KeyResult::Failed(m),
                    _ => r is Done,
                }
            },
        Finish::CameraChoice(c) => b == (EditorState { mode: st.mode, image_pending_is_camera: c, ..a }) && e == d && r is Done,
        Finish::Failed(m) => b == (EditorState { mode: st.mode, ..a }) && e == d && r == KeyResult::Failed(m),
    }
}

/// The key can be handled without a panic: a finished one-entity card has a
/// type built from one entity, and the metric picker's selection is in range.
pub open spec fn key_ok(a: EditorState, key: Key) -> bool {
    &&& match a.mode {
        EditorMode::EditingTitle { card_type, .. } => key == Key::Enter ==> built_from_entity(card_type),
        EditorMode::StatsPickMetric { selected, .. } => selected < 5,
        _ => true,
    }
}

impl EditorState {
    /// Apply a finished step.
    fn apply_step(&mut self, st: Step, dash: &mut Dashboard, aliases: &Vec<String>) -> (r: KeyResult)
        requires
            flat_cards(*old(dash)).len() < usize::MAX,
            max_id(flat_cards(*old(dash))) < u64::MAX,
            st.finish is Card ==> st.mode is Browse,
        ensures
            step_applied(*old(self), *old(dash), st, aliases@, *final(self), *final(dash), r),
    {
        let ghost st_copy = st;
        match st.finish {
            Finish::Nothing => {
                self.mode = st.mode;
                KeyResult::Done
            },
            Finish::Card(kind) => {
                self.mode = EditorMode::Browse;
                self.snapshot(dash);
                let ghost mid = *self;
                self.add_card(dash, kind);
                KeyResult::Done
            },
            Finish::Start(kind) => {
                let target = match self.edit_target {
                    Some(i) => dash.card(i),
                    None => None,
                };
                let st2 = start_card(kind, aliases, target);
                let ghost st2_copy = st2;
                self.mode = st2.mode;
                let r = match st2.finish {
                    Finish::Failed(m) => KeyResult::Failed(m),
                    _ => KeyResult::Done,
                };
                assert(start_card_spec(kind, aliases@, target_of(*old(self), *old(dash)), st2_copy));
                r
            },
            Finish::CameraChoice(c) => {
                self.mode = st.mode;
                self.image_pending_is_camera = c;
                KeyResult::Done
            },
            Finish::Failed(m) => {
                self.mode = st.mode;
                KeyResult::Failed(m)
            },
        }
    }
}

/// What a key does in the add-card flows: the current step's rule (for the
/// entity pickers over the search results for their query), applied to the
/// editor and the dashboard. Outside those flows nothing changes.
pub open spec fn wizard_spec(a: EditorState, d: Dashboard, key: Key, rts: Seq<InstanceRuntime>, b: EditorState, e: Dashboard, r: KeyResult) -> bool {
    let al = aliases_of(rts);
    match a.mode {
        EditorMode::PickingType { selected } => exists|st: Step|
            #[trigger] picking_type_spec(selected, key, st) && step_applied(a, d, st, al, b, e, r),
        EditorMode::PickingInstance { card_type, selected } => exists|st: Step|
            #[trigger] picking_instance_spec(card_type, selected, al, key, st) && step_applied(a, d, st, al, b, e, r),
        EditorMode::PickingEntity { card_type, instance, query, selected } => exists|rows: Seq<EntityPick>, st: Step|
            search_result(rts, instance@, query@, picker_prefix(card_type, a.image_pending_is_camera), rows)
                && #[trigger] picking_entity_spec(card_type, instance, query, selected, rows, a.image_pending_is_camera, key, st)
                && step_applied(a, d, st, al, b, e, r),
        EditorMode::EditingTitle { card_type, instance, entity, friendly_name, title_buffer } => exists|st: Step|
            #[trigger] editing_title_spec(card_type, instance, entity, friendly_name, title_buffer, key, st) && step_applied(
                a,
                d,
                st,
                al,
                b,
                e,
                r,
            ),
        EditorMode::PickingMulti { instance, query, selected, picked } => exists|rows: Seq<EntityPick>, st: Step|
            search_result(rts, instance@, query@, None, rows) && #[trigger] picking_multi_spec(instance, query, selected, picked, rows, key, st)
                && step_applied(a, d, st, al, b, e, r),
        EditorMode::EditingEntityListTitle { instance, picked, title_buffer } => exists|st: Step|
            #[trigger] entity_list_title_spec(instance, picked, title_buffer, key, st) && step_applied(a, d, st, al, b, e, r),
        EditorMode::EditingTextBody { title_buffer, body_buffer, focus_body } => exists|st: Step|
            #[trigger] text_body_spec(title_buffer, body_buffer, focus_body, key, st) && step_applied(a, d, st, al, b, e, r),
        EditorMode::ClockAddTitle { title_buffer } => exists|st: Step|
            #[trigger] clock_title_spec(title_buffer, key, st) && step_applied(a, d, st, al, b, e, r),
        EditorMode::ClockAddFormat { title, format_buffer } => exists|st: Step|
            #[trigger] clock_format_spec(title, format_buffer, key, st) && step_applied(a, d, st, al, b, e, r),
        EditorMode::ClockAddTimezone { title, format, tz_buffer } => exists|st: Step|
            #[trigger] clock_timezone_spec(title, format, tz_buffer, key, st) && step_applied(a, d, st, al, b, e, r),
        EditorMode::StatsPickMetric { instance, entity, friendly_name, selected } => exists|st: Step|
            #[trigger] stats_metric_spec(instance, entity, friendly_name, selected, key, st) && step_applied(a, d, st, al, b, e, r),
        EditorMode::StatsEditWindowAdd { instance, entity, friendly_name, metric, buf } => exists|st: Step|
            #[trigger] stats_window_spec(instance, entity, friendly_name, metric, buf, key, st) && step_applied(a, d, st, al, b, e, r),
        EditorMode::StatsEditUnitAdd { instance, entity, friendly_name, metric, window, buf } => exists|st: Step|
            #[trigger] stats_unit_spec(instance, entity, friendly_name, metric, window, buf, key, st) && step_applied(
                a,
                d,
                st,
                al,
                b,
                e,
                r,
            ),
        EditorMode::StatsEditTitleAdd { instance, entity, friendly_name, metric, window, unit, buf } => exists|st: Step|
            #[trigger] stats_title_spec(instance, entity, friendly_name, metric, window, unit, buf, key, st) && step_applied(
                a,
                d,
                st,
                al,
                b,
                e,
                r,
            ),
        EditorMode::ImagePickSourceKind { selected } => exists|st: Step|
            #[trigger] image_source_spec(selected, key, st) && step_applied(a, d, st, al, b, e, r),
        EditorMode::ImageEditRefreshSeconds { instance, entity, friendly_name, is_camera, buf } => exists|st: Step|
            #[trigger] image_refresh_spec(instance, entity, friendly_name, is_camera, buf, key, st) && step_applied(
                a,
                d,
                st,
                al,
                b,
                e,
                r,
            ),
        EditorMode::ImageEditTitleAdd { instance, entity, friendly_name, is_camera, refresh_seconds, buf } => exists|st: Step|
            #[trigger] image_title_spec(instance, entity, friendly_name, is_camera, refresh_seconds, buf, key, st) && step_applied(
                a,
                d,
                st,
                al,
                b,
                e,
                r,
            ),
        EditorMode::WxEditShowForecast { instance, entity, friendly_name, selected } => exists|st: Step|
            #[trigger] weather_forecast_spec(instance, entity, friendly_name, selected, key, st) && step_applied(a, d, st, al, b, e, r),
        EditorMode::WxEditForecastDays { instance, entity, friendly_name, show_forecast, buf } => exists|st: Step|
            #[trigger] weather_days_spec(instance, entity, friendly_name, show_forecast, buf, key, st) && step_applied(
                a,
                d,
                st,
                al,
                b,
                e,
                r,
            ),
        EditorMode::WxEditTitleAdd { instance, entity, friendly_name, show_forecast, forecast_days, buf } => exists|st: Step|
            #[trigger] weather_title_spec(instance, entity, friendly_name, show_forecast, forecast_days, buf, key, st)
                && step_applied(a, d, st, al, b, e, r),
        _ => r is NotMine && b == a && e == d,
    }
}

impl EditorState {
    /// Handle a key in the add-card flows (choosing the type, instance and
    /// entities, and every step of the text, clock, statistics, image and
    /// weather cards). In any other step nothing changes and the result is
    /// `NotMine`.
    pub fn wizard_key(&mut self, key: Key, dash: &mut Dashboard, runtimes: &Vec<InstanceRuntime>) -> (r: KeyResult)
        requires
            flat_cards(*old(dash)).len() < usize::MAX,
            max_id(flat_cards(*old(dash))) < u64::MAX,
            key_ok(*old(self), key),
        ensures
            wizard_spec(*old(self), *old(dash), key, runtimes@, *final(self), *final(dash), r),
    {
        let al = aliases(runtimes);
        let mut mode = EditorMode::Browse;
        std::mem::swap(&mut mode, &mut self.mode);
        let ghost a = EditorState { mode: mode, ..*self };
        assert(a == *old(self));
        let st = match mode {
            EditorMode::PickingType { selected } => picking_type_step(selected, key),
            EditorMode::PickingInstance { card_type, selected } => picking_instance_step(card_type, selected, &al, key),
            EditorMode::PickingEntity { card_type, instance, query, selected } => {
                let prefix = picker_prefix_for(card_type, self.image_pending_is_camera);
                let rows = entity_search_filtered(runtimes, instance.as_str(), query.as_str(), prefix);
                let st = picking_entity_step(card_type, instance, query, selected, &rows, self.image_pending_is_camera, key);
                st
            },
            EditorMode::EditingTitle { card_type, instance, entity, friendly_name, title_buffer } => editing_title_step(
                card_type,
                instance,
                entity,
                friendly_name,
                title_buffer,
                key,
            ),
            EditorMode::PickingMulti { instance, query, selected, picked } => {
                let rows = entity_search(runtimes, instance.as_str(), query.as_str());
                picking_multi_step(instance, query, selected, picked, &rows, key)
            },
            EditorMode::EditingEntityListTitle { instance, picked, title_buffer } => entity_list_title_step(
                instance,
                picked,
                title_buffer,
                key,
            ),
            EditorMode::EditingTextBody { title_buffer, body_buffer, focus_body } => text_body_step(
                title_buffer,
                body_buffer,
                focus_body,
                key,
            ),
            EditorMode::ClockAddTitle { title_buffer } => clock_title_step(title_buffer, key),
            EditorMode::ClockAddFormat { title, format_buffer } => clock_format_step(title, format_buffer, key),
            EditorMode::ClockAddTimezone { title, format, tz_buffer } => clock_timezone_step(title, format, tz_buffer, key),
            EditorMode::StatsPickMetric { instance, entity, friendly_name, selected } => stats_metric_step(
                instance,
                entity,
                friendly_name,
                selected,
                key,
            ),
            EditorMode::StatsEditWindowAdd { instance, entity, friendly_name, metric, buf } => stats_window_step(
                instance,
                entity,
                friendly_name,
                metric,
                buf,
                key,
            ),
            EditorMode::StatsEditUnitAdd { instance, entity, friendly_name, metric, window, buf } => stats_unit_step(
                instance,
                entity,
                friendly_name,
                metric,
                window,
                buf,
                key,
            ),
            EditorMode::StatsEditTitleAdd { instance, entity, friendly_name, metric, window, unit, buf } => stats_title_step(
                instance,
                entity,
                friendly_name,
                metric,
                window,
                unit,
                buf,
                key,
            ),
            EditorMode::ImagePickSourceKind { selected } => image_source_step(selected, key),
            EditorMode::ImageEditRefreshSeconds { instance, entity, friendly_name, is_camera, buf } => image_refresh_step(
                instance,
                entity,
                friendly_name,
                is_camera,
                buf,
                key,
            ),
            EditorMode::ImageEditTitleAdd { instance, entity, friendly_name, is_camera, refresh_seconds, buf } => image_title_step(
                instance,
                entity,
                friendly_name,
                is_camera,
                refresh_seconds,
                buf,
                key,
            ),
            EditorMode::WxEditShowForecast { instance, entity, friendly_name, selected } => weather_forecast_step(
                instance,
                entity,
                friendly_name,
                selected,
                key,
            ),
            EditorMode::WxEditForecastDays { instance, entity, friendly_name, show_forecast, buf } => weather_days_step(
                instance,
                entity,
                friendly_name,
                show_forecast,
                buf,
                key,
            ),
            EditorMode::WxEditTitleAdd { instance, entity, friendly_name, show_forecast, forecast_days, buf } => weather_title_step(
                instance,
                entity,
                friendly_name,
                show_forecast,
                forecast_days,
                buf,
                key,
            ),
            other => {
                self.mode = other;
                return KeyResult::NotMine;
            },
        };
        let ghost st_copy = st;
        let r = self.apply_step(st, dash, &al);
        assert(step_applied(a, *old(dash), st_copy, al@, *self, *dash, r));
        r
    }
}

} // verus!


