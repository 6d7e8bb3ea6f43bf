//! Moving around the dashboard screen (between cards and within a list
//! card), the entity a selection stands on, and what Enter or a media key
//! does to it.
use vstd::prelude::*;

use crate::actions::{default_action, default_action_spec, media_service_for_key, media_service_spec, HaCommand};
use crate::card_ops::entity_ref_spec;
use crate::dashboard::{Alias, CardKind, Dashboard, DashboardLayout, EntityId, NavDir};
use crate::flat::flat_cards;
use crate::grid_ops::{count_fits, neighbor_spec};
use crate::ha::{attr_member, key_at, obj_get, state_entries, state_map_get, AttrValue, EntityState, InstanceRuntime};
use crate::screens::Screen;
use crate::search::{entities_listed, find_runtime, first_runtime, friendly_name_spec};
use crate::strings::{find_char, find_char_in, slice, str_eq, to_owned_string};

verus! {

/// A selection index as the screen reads it into a signed number (too large reads as 0).
pub open spec fn as_i64(u: usize) -> int {
    if u <= i64::MAX {
        u as int
    } else {
        0
    }
}

pub open spec fn clamped(x: int, lo: int, hi: int) -> int {
    if x < lo {
        lo
    } else if x > hi {
        hi
    } else {
        x
    }
}

/// Every dashboard's card count fits in a `usize`.
pub open spec fn all_fit(ds: Seq<Dashboard>) -> bool {
    forall|i: int| 0 <= i < ds.len() ==> count_fits(#[trigger] ds[i])
}

/// The cards on the shown dashboard (none in the editor).
pub open spec fn row_count_spec(s: Screen, ds: Seq<Dashboard>) -> int {
    match s {
        Screen::Dashboard { idx, .. } => if idx < ds.len() { flat_cards(ds[idx as int]).len() as int } else { 0 },
        Screen::Editor => 0,
    }
}

/// `s2` is screen `s` after moving the selection by `delta` (Up/Down, page
/// keys): within a list card the list row moves (staying in the list); on a
/// grid the selection goes to the card above or below, if any; otherwise it
/// moves by `delta` cards, staying among them.
pub open spec fn selection_moved(s: Screen, ds: Seq<Dashboard>, rts: Seq<InstanceRuntime>, delta: i32, s2: Screen) -> bool {
    match s {
        Screen::Dashboard { idx, selected_card, sub_index } => {
            let total = row_count_spec(s, ds);
            let fallback = if total == 0 {
                s2 == s
            } else {
                s2 == Screen::Dashboard {
                    idx,
                    selected_card: clamped(as_i64(selected_card) + delta, 0, total - 1) as usize,
                    sub_index,
                }
            };
            if idx < ds.len() {
                let d = ds[idx as int];
                let fl = flat_cards(d);
                if selected_card < fl.len() && (fl[selected_card as int].kind is EntityList
                    || fl[selected_card as int].kind is FilteredEntityList) {
                    exists|r: Option<(Alias, Vec<String>)>|
                        #[trigger] entities_listed(fl[selected_card as int], rts, r) && {
                            let n = (r->0).1@.len() as int;
                            if n == 0 {
                                s2 == s
                            } else {
                                s2 == Screen::Dashboard {
                                    idx,
                                    selected_card,
                                    sub_index: clamped(as_i64(sub_index) + delta, 0, n - 1) as usize,
                                }
                            }
                        }
                } else {
                    match d.layout {
                        DashboardLayout::Grid { rows } => match neighbor_spec(
                            rows@,
                            selected_card as int,
                            if delta < 0 { NavDir::Up } else { NavDir::Down },
                        ) {
                            Some(n) => s2 == Screen::Dashboard { idx, selected_card: n as usize, sub_index: 0 },
                            None => s2 == s,
                        },
                        _ => fallback,
                    }
                }
            } else {
                fallback
            }
        },
        Screen::Editor => s2 == s,
    }
}

/// `s2` is screen `s` after moving between cards sideways by `delta`: on a
/// grid to the neighbouring column's card, if any; on a free canvas by
/// `delta` cards, wrapping around.
pub open spec fn card_selection_moved(s: Screen, ds: Seq<Dashboard>, delta: i32, s2: Screen) -> bool {
    match s {
        Screen::Dashboard { idx, selected_card, sub_index } => if idx < ds.len() && flat_cards(ds[idx as int]).len() > 0 {
            let d = ds[idx as int];
            let total = flat_cards(d).len() as int;
            match d.layout {
                DashboardLayout::Grid { rows } => match neighbor_spec(
                    rows@,
                    selected_card as int,
                    if delta < 0 { NavDir::Left } else { NavDir::Right },
                ) {
                    Some(n) => s2 == Screen::Dashboard { idx, selected_card: n as usize, sub_index: 0 },
                    None => s2 == s,
                },
                _ => s2 == Screen::Dashboard {
                    idx,
                    selected_card: ((as_i64(selected_card) + delta) % total) as usize,
                    sub_index: 0,
                },
            }
        } else {
            s2 == s
        },
        Screen::Editor => s2 == s,
    }
}

/// Moving the selection cannot overflow the signed arithmetic it is done in.
pub open spec fn nav_ok(s: Screen, ds: Seq<Dashboard>, delta: i32) -> bool {
    &&& all_fit(ds)
    &&& s matches Screen::Dashboard { selected_card, sub_index, .. } ==> as_i64(selected_card) + delta <= i64::MAX
        && as_i64(sub_index) + delta <= i64::MAX
}

fn to_i64(u: usize) -> (r: i128)
    ensures
        r == as_i64(u),
{
    if u as u128 <= 9223372036854775807u128 {
        u as i128
    } else {
        0
    }
}

fn clamp_index(x: i128, n: usize) -> (r: usize)
    requires
        n > 0,
    ensures
        r == clamped(x as int, 0, n - 1),
{
    if x < 0 {
        0
    } else if x > (n - 1) as i128 {
        n - 1
    } else {
        x as usize
    }
}

fn wrap_index(x: i128, n: usize) -> (r: usize)
    requires
        n > 0,
        i64::MIN <= x <= i64::MAX,
    ensures
        r == x as int % n as int,
{
    let t = n as u128;
    if x >= 0 {
        let m = (x as u128) % t;
        let q0 = (x as u128) / t;
        assert((x as u128) == q0 * t + m) by (nonlinear_arith)
            requires
                m == (x as u128) % t,
                q0 == (x as u128) / t,
                t > 0,
        ;
        proof {
            vstd::arithmetic::div_mod::lemma_fundamental_div_mod_converse(
                x as int,
                n as int,
                (x as u128 / t) as int,
                m as int,
            );
        }
        m as usize
    } else {
        let y = (-x) as u128;
        let m = y % t;
        let q = y / t;
        assert(y == q * t + m) by (nonlinear_arith)
            requires
                m == y % t,
                q == y / t,
                t > 0,
        ;
        if m == 0 {
            assert(x as int == -(q as int) * (n as int) + 0) by (nonlinear_arith)
                requires
                    y == q * t + m,
                    m == 0,
                    y == -x,
                    t == n,
            ;
            proof {
                vstd::arithmetic::div_mod::lemma_fundamental_div_mod_converse(x as int, n as int, -(q as int), 0);
            }
            0
        } else {
            assert(x as int == (-(q as int) - 1) * (n as int) + (t - m)) by (nonlinear_arith)
                requires
                    y == q * t + m,
                    y == -x,
                    t == n,
            ;
            proof {
                vstd::arithmetic::div_mod::lemma_fundamental_div_mod_converse(
                    x as int,
                    n as int,
                    -(q as int) - 1,
                    (t - m) as int,
                );
            }
            (t - m) as usize
        }
    }
}

fn nav_dir(delta: i32, vertical: bool) -> (r: NavDir)
    ensures
        r == if vertical {
            if delta < 0 { NavDir::Up } else { NavDir::Down }
        } else {
            if delta < 0 { NavDir::Left } else { NavDir::Right }
        },
{
    if vertical {
        if delta < 0 {
            NavDir::Up
        } else {
            NavDir::Down
        }
    } else {
        if delta < 0 {
            NavDir::Left
        } else {
            NavDir::Right
        }
    }
}

/// The number of cards on the shown dashboard (none in the editor).
pub fn row_count(s: &Screen, ds: &Vec<Dashboard>) -> (r: usize)
    requires
        all_fit(ds@),
    ensures
        r == row_count_spec(*s, ds@),
{
    match s {
        Screen::Dashboard { idx, .. } => if *idx < ds.len() {
            ds[*idx].card_count()
        } else {
            0
        },
        Screen::Editor => 0,
    }
}

impl Screen {
    /// Move the selection by `delta` (see `selection_moved`).
    pub fn move_selection(&mut self, ds: &Vec<Dashboard>, rts: &Vec<InstanceRuntime>, delta: i32)
        requires
            nav_ok(*old(self), ds@, delta),
        ensures
            selection_moved(*old(self), ds@, rts@, delta, *final(self)),
    {
        let total = row_count(self, ds);
        match *self {
            Screen::Dashboard { idx, selected_card, sub_index } => {
                if idx < ds.len() {
                    let d = &ds[idx];
                    match d.card(selected_card) {
                        Some(card) => {
                            if matches!(card.kind, CardKind::EntityList { .. } | CardKind::FilteredEntityList { .. }) {
                                let listed = crate::search::list_entities(card, rts);
                                match listed {
                                    Some((_, ids)) => {
                                        if ids.len() == 0 {
                                            return;
                                        }
                                        let x = to_i64(sub_index) + delta as i128;
                                        *self = Screen::Dashboard { idx, selected_card, sub_index: clamp_index(x, ids.len()) };
                                        return;
                                    },
                                    None => {
                                        return;
                                    },
                                }
                            }
                        },
                        None => {},
                    }
                    if !d.is_free() {
                        match d.neighbor(selected_card, nav_dir(delta, true)) {
                            Some(n) => {
                                *self = Screen::Dashboard { idx, selected_card: n, sub_index: 0 };
                            },
                            None => {},
                        }
                        return;
                    }
                }
                if total == 0 {
                    return;
                }
                let x = to_i64(selected_card) + delta as i128;
                *self = Screen::Dashboard { idx, selected_card: clamp_index(x, total), sub_index };
            },
            Screen::Editor => {},
        }
    }

    /// Move between cards sideways by `delta` (see `card_selection_moved`).
    pub fn move_card_selection(&mut self, ds: &Vec<Dashboard>, delta: i32)
        requires
            nav_ok(*old(self), ds@, delta),
        ensures
            card_selection_moved(*old(self), ds@, delta, *final(self)),
    {
        match *self {
            Screen::Dashboard { idx, selected_card, .. } => {
                if idx >= ds.len() {
                    return;
                }
                let d = &ds[idx];
                let total = d.card_count();
                if total == 0 {
                    return;
                }
                if !d.is_free() {
                    match d.neighbor(selected_card, nav_dir(delta, false)) {
                        Some(n) => {
                            *self = Screen::Dashboard { idx, selected_card: n, sub_index: 0 };
                        },
                        None => {},
                    }
                    return;
                }
                let x = to_i64(selected_card) + delta as i128;
                *self = Screen::Dashboard { idx, selected_card: wrap_index(x, total), sub_index: 0 };
            },
            Screen::Editor => {},
        }
    }

    /// Select card `n` of the shown dashboard (its last card when `n` is past it).
    pub fn set_selection(&mut self, ds: &Vec<Dashboard>, n: usize)
        requires
            all_fit(ds@),
        ensures
            match *old(self) {
                Screen::Dashboard { idx, sub_index, .. } if row_count_spec(*old(self), ds@) > 0 => *final(self)
                    == Screen::Dashboard {
                    idx,
                    selected_card: if n < row_count_spec(*old(self), ds@) { n } else { (row_count_spec(*old(self), ds@) - 1) as usize },
                    sub_index,
                },
                _ => *final(self) == *old(self),
            },
    {
        let total = row_count(self, ds);
        if total == 0 {
            return;
        }
        match *self {
            Screen::Dashboard { idx, sub_index, .. } => {
                *self = Screen::Dashboard { idx, selected_card: if n < total { n } else { total - 1 }, sub_index };
            },
            Screen::Editor => {},
        }
    }
}

// ── the entity under the selection ──────────────────────────────────────────

/// `r` is the entity the dashboard selection stands on: the selected row of a
/// list card, or the card's own entity (none for a card without one).
pub open spec fn selected_entity_spec(s: Screen, ds: Seq<Dashboard>, rts: Seq<InstanceRuntime>, r: Option<(String, String)>) -> bool {
    match s {
        Screen::Dashboard { idx, selected_card, sub_index } => if idx < ds.len() && selected_card < flat_cards(
            ds[idx as int],
        ).len() {
            let c = flat_cards(ds[idx as int])[selected_card as int];
            if c.kind is EntityList || c.kind is FilteredEntityList {
                exists|l: Option<(Alias, Vec<String>)>|
                    #[trigger] entities_listed(c, rts, l) && if sub_index < (l->0).1@.len() {
                        r matches Some((a, e)) && a@ == (l->0).0@ && e@ == (l->0).1@[sub_index as int]@
                    } else {
                        r is None
                    }
            } else {
                match entity_ref_spec(c.kind) {
                    Some((a, e)) => r matches Some((a2, e2)) && a2@ == a@ && e2@ == e@,
                    None => r is None,
                }
            }
        } else {
            r is None
        },
        Screen::Editor => r is None,
    }
}

/// The instance and entity the dashboard selection stands on.
pub fn selected_entity(s: &Screen, ds: &Vec<Dashboard>, rts: &Vec<InstanceRuntime>) -> (r: Option<(String, String)>)
    ensures
        selected_entity_spec(*s, ds@, rts@, r),
{
    match *s {
        Screen::Dashboard { idx, selected_card, sub_index } => {
            if idx >= ds.len() {
                return None;
            }
            let card = match ds[idx].card(selected_card) {
                Some(c) => c,
                None => return None,
            };
            match &card.kind {
                CardKind::EntityList { .. } | CardKind::FilteredEntityList { .. } => {
                    match crate::search::list_entities(card, rts) {
                        Some((alias, ids)) => {
                            if sub_index < ids.len() {
                                Some((alias, ids[sub_index].clone()))
                            } else {
                                None
                            }
                        },
                        None => None,
                    }
                },
                _ => match card.entity_ref() {
                    Some((a, e)) => Some((a.clone(), e.clone())),
                    None => None,
                },
            }
        },
        Screen::Editor => None,
    }
}

/// The state stored under `eid` in the runtime of instance `alias`: `st` is
/// one stored under that id, or none when there is no such runtime or state.
pub open spec fn state_in(rts: Seq<InstanceRuntime>, alias: Seq<char>, eid: Seq<char>, st: Option<EntityState>) -> bool {
    if exists|i: int| first_runtime(rts, alias, i) {
        let e = state_entries(rts[choose|i: int| first_runtime(rts, alias, i)].states);
        match st {
            Some(v) => exists|k: int| key_at(e, eid, k) && e[k].1 == v,
            None => !(exists|k: int| key_at(e, eid, k)),
        }
    } else {
        st is None
    }
}

proof fn lemma_first_unique(rts: Seq<InstanceRuntime>, alias: Seq<char>, i: int, j: int)
    requires
        first_runtime(rts, alias, i),
        first_runtime(rts, alias, j),
    ensures
        i == j,
{
    if i < j {
        assert(rts[i].alias@ != alias);
    } else if j < i {
        assert(rts[j].alias@ != alias);
    }
}

fn lookup_state<'a>(rts: &'a Vec<InstanceRuntime>, alias: &str, eid: &str) -> (r: Option<&'a EntityState>)
    ensures
        state_in(
            rts@,
            alias@,
            eid@,
            match r {
                Some(v) => Some(*v),
                None => None,
            },
        ),
{
    match find_runtime(rts, alias) {
        Some(rt) => {
            proof {
                let i = choose|i: int| first_runtime(rts@, alias@, i) && rts@[i] == *rt;
                let c = choose|i: int| first_runtime(rts@, alias@, i);
                lemma_first_unique(rts@, alias@, i, c);
            }
            state_map_get(&rt.states, eid)
        },
        None => {
            proof {
                if exists|i: int| first_runtime(rts@, alias@, i) {
                    let c = choose|i: int| first_runtime(rts@, alias@, i);
                    assert(rts@[c].alias@ == alias@);
                }
            }
            None
        },
    }
}

/// What Enter on an entity leads to.
#[derive(Debug)]
pub enum DefaultDispatch {
    /// Open the value editor of an input entity, starting from its state.
    OpenInput { friendly_name: String, value: String },
    /// Send this command to the entity's instance.
    Send(HaCommand),
    /// Nothing can be done; the message says why.
    Failed(String),
}

/// An input entity's domain: its value is edited rather than toggled.
pub open spec fn is_input_domain(d: Seq<char>) -> bool {
    d == "input_number"@ || d == "input_text"@ || d == "input_select"@ || d == "input_datetime"@
}

/// The name an input editor shows: the entity's friendly name when it is
/// text, its id otherwise.
pub open spec fn display_name(attrs: AttrValue, eid: Seq<char>) -> Seq<char> {
    match obj_get(attrs, "friendly_name"@) {
        Some(AttrValue::Text(s)) => s@,
        _ => eid,
    }
}

/// What Enter on entity `eid` of instance `alias` does, with `st` its state
/// (see `state_in`): an input entity opens its value editor (or reports that
/// it has no state); any other gets its domain's default service call, or a
/// message when its domain has none.
pub open spec fn dispatch_default_spec(alias: Seq<char>, eid: Seq<char>, st: Option<EntityState>, r: DefaultDispatch) -> bool {
    match crate::actions::domain_of(eid) {
        Some(d) if is_input_domain(d) => match st {
            Some(v) => r matches DefaultDispatch::OpenInput { friendly_name, value } && friendly_name@ == display_name(
                v.attributes,
                eid,
            ) && value@ == v.state@,
            None => r matches DefaultDispatch::Failed(m) && m@ == "no state for "@ + eid,
        },
        _ => match default_action_spec(
            eid,
            match st {
                Some(v) => Some(v.state@),
                None => None,
            },
        ) {
            Some((d, svc)) => r matches DefaultDispatch::Send(HaCommand::CallService { domain, service, entity_id }) && domain@
                == d && service@ == svc && entity_id@ == eid,
            None => r matches DefaultDispatch::Failed(m) && m@ == "no default action for "@ + eid,
        },
    }
}

fn display_name_of(attrs: &AttrValue, eid: &str) -> (r: String)
    ensures
        r@ == display_name(*attrs, eid@),
{
    match attr_member(attrs, "friendly_name") {
        Some(AttrValue::Text(s)) => s.clone(),
        _ => to_owned_string(eid),
    }
}

/// What Enter does on entity `eid` of instance `alias`.
pub fn dispatch_default(alias: &str, eid: &String, rts: &Vec<InstanceRuntime>) -> (r: DefaultDispatch)
    ensures
        exists|st: Option<EntityState>| #[trigger] state_in(rts@, alias@, eid@, st) && dispatch_default_spec(alias@, eid@, st, r),
{
    let st = lookup_state(rts, alias, eid.as_str());
    let ghost stv = match st {
        Some(v) => Some(*v),
        None => None,
    };
    let input = match find_char_in(eid.as_str(), '.') {
        Some(i) => {
            proof {
                crate::strings::lemma_find_char_bound(eid@, '.');
            }
            let d = slice(eid.as_str(), 0, i);
            assert(d@ =~= eid@.take(i as int));
            str_eq(d, "input_number") || str_eq(d, "input_text") || str_eq(d, "input_select") || str_eq(d, "input_datetime")
        },
        None => false,
    };
    if input {
        match st {
            Some(v) => DefaultDispatch::OpenInput { friendly_name: display_name_of(&v.attributes, eid.as_str()), value: v.state.clone() },
            None => {
                let mut m = to_owned_string("no state for ");
                m.append(eid.as_str());
                DefaultDispatch::Failed(m)
            },
        }
    } else {
        match default_action(eid, st) {
            Some(cmd) => DefaultDispatch::Send(cmd),
            None => {
                let mut m = to_owned_string("no default action for ");
                m.append(eid.as_str());
                DefaultDispatch::Failed(m)
            },
        }
    }
}

// ── media keys ──────────────────────────────────────────────────────────────

/// Whether a state says its player is muted (`is_volume_muted` is `true`).
pub open spec fn is_muted(st: Option<EntityState>) -> bool {
    match st {
        Some(v) => obj_get(v.attributes, "is_volume_muted"@) matches Some(AttrValue::Other(t)) && t@ == "true"@,
        None => false,
    }
}

/// The command a media key sends for the selected media-player card (`None`
/// when the selection is no media player or the key is no media key), with
/// `st` the player's state: mute flips the player's mute state, every other
/// key calls its service.
pub open spec fn media_key_spec(s: Screen, ds: Seq<Dashboard>, ch: char, st: Option<EntityState>, r: Option<(String, HaCommand)>) -> bool {
    match s {
        Screen::Dashboard { idx, selected_card, .. } => if idx < ds.len() && selected_card < flat_cards(ds[idx as int]).len() {
            match flat_cards(ds[idx as int])[selected_card as int].kind {
                CardKind::MediaPlayer { instance, entity, .. } => match media_service_spec(ch) {
                    Some(svc) => r matches Some((inst, cmd)) && inst@ == instance@ && if svc == "volume_mute"@ {
                        cmd matches HaCommand::SetVolumeMuted { entity_id, muted } && entity_id@ == entity@ && muted == !is_muted(st)
                    } else {
                        cmd matches HaCommand::CallService { domain, service, entity_id } && domain@ == "media_player"@
                            && service@ == svc && entity_id@ == entity@
                    },
                    None => r is None,
                },
                _ => r is None,
            }
        } else {
            r is None
        },
        Screen::Editor => r is None,
    }
}

/// The player state a media key reads: that of the selected card's entity.
pub open spec fn media_state_ok(s: Screen, ds: Seq<Dashboard>, rts: Seq<InstanceRuntime>, st: Option<EntityState>) -> bool {
    match s {
        Screen::Dashboard { idx, selected_card, .. } if idx < ds.len() && selected_card < flat_cards(ds[idx as int]).len() =>
            match flat_cards(ds[idx as int])[selected_card as int].kind {
            CardKind::MediaPlayer { instance, entity, .. } => state_in(rts, instance@, entity@, st),
            _ => st is None,
        },
        _ => st is None,
    }
}

/// The command a media key sends for the selected media-player card.
pub fn media_key(s: &Screen, ds: &Vec<Dashboard>, rts: &Vec<InstanceRuntime>, ch: char) -> (r: Option<(String, HaCommand)>)
    ensures
        exists|st: Option<EntityState>| #[trigger] media_state_ok(*s, ds@, rts@, st) && media_key_spec(*s, ds@, ch, st, r),
{
    let (idx, sel) = match *s {
        Screen::Dashboard { idx, selected_card, .. } => (idx, selected_card),
        Screen::Editor => {
            assert(media_state_ok(*s, ds@, rts@, None));
            return None;
        },
    };
    if idx >= ds.len() {
        assert(media_state_ok(*s, ds@, rts@, None));
        return None;
    }
    let card = match ds[idx].card(sel) {
        Some(c) => c,
        None => {
            assert(media_state_ok(*s, ds@, rts@, None));
            return None;
        },
    };
    match &card.kind {
        CardKind::MediaPlayer { instance, entity, .. } => {
            let st = lookup_state(rts, instance.as_str(), entity.as_str());
            let ghost stv = match st {
                Some(v) => Some(*v),
                None => None,
            };
            assert(media_state_ok(*s, ds@, rts@, stv));
            let svc = match media_service_for_key(ch) {
                Some(svc) => svc,
                None => return None,
            };
            if str_eq(svc, "volume_mute") {
                let muted = match st {
                    Some(v) => match attr_member(&v.attributes, "is_volume_muted") {
                        Some(AttrValue::Other(t)) => str_eq(t.as_str(), "true"),
                        _ => false,
                    },
                    None => false,
                };
                Some((instance.clone(), HaCommand::SetVolumeMuted { entity_id: entity.clone(), muted: !muted }))
            } else {
                Some(
                    (
                        instance.clone(),
                        HaCommand::CallService {
                            domain: to_owned_string("media_player"),
                            service: to_owned_string(svc),
                            entity_id: entity.clone(),
                        },
                    ),
                )
            }
        },
        _ => {
            assert(media_state_ok(*s, ds@, rts@, None));
            None
        },
    }
}

/// Enter on an `input_number`, `input_text`, `input_select` or
/// `input_datetime` entity that has a state opens its value editor, starting
/// from that state.
pub proof fn law_input_entities_open_editor(alias: Seq<char>, eid: Seq<char>, v: EntityState, r: DefaultDispatch, d: Seq<char>)
    requires
        crate::actions::domain_of(eid) == Some(d),
        d == "input_number"@ || d == "input_text"@ || d == "input_select"@ || d == "input_datetime"@,
        dispatch_default_spec(alias, eid, Some(v), r),
    ensures
        r matches DefaultDispatch::OpenInput { value, .. } && value@ == v.state@,
{
}

/// Enter on an input entity with no state reports it; on any other entity it
/// sends the entity's default action to its own id, or reports that there is
/// none.
pub proof fn law_enter_on_other_entities(alias: Seq<char>, eid: Seq<char>, st: Option<EntityState>, r: DefaultDispatch)
    requires
        dispatch_default_spec(alias, eid, st, r),
    ensures
        (crate::actions::domain_of(eid) matches Some(d) && (d == "input_number"@ || d == "input_text"@ || d
            == "input_select"@ || d == "input_datetime"@) && st is None) ==> (r matches DefaultDispatch::Failed(m) && m@
            == "no state for "@ + eid),
        !(crate::actions::domain_of(eid) matches Some(d) && (d == "input_number"@ || d == "input_text"@ || d
            == "input_select"@ || d == "input_datetime"@)) ==> match crate::actions::default_action_spec(
            eid,
            match st {
                Some(v) => Some(v.state@),
                None => None,
            },
        ) {
            Some((d, svc)) => r matches DefaultDispatch::Send(HaCommand::CallService { domain, service, entity_id })
                && domain@ == d && service@ == svc && entity_id@ == eid,
            None => r matches DefaultDispatch::Failed(m) && m@ == "no default action for "@ + eid,
        },
{
}

} // verus!
