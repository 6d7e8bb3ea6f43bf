//! Changes to one field of one card: what the editor's steps and menu
//! actions do to a card, and the per-entity overrides of filtered lists.
use vstd::prelude::*;

use crate::dashboard::{
    BarOrientation, Card, CardKind, CardSize, Dashboard, EntityListItem, EntityOverride, GraphSeries, GraphType, Severity,
    StatsMetric, copy_opt_string,
};
use crate::editor::with_kind;
use crate::flat::flat_cards;
use crate::grid_ops::same_shape;
use crate::strings::{char_len, lemma_lex_irrefl, lemma_lex_total, lemma_lex_trans, lex_lt, str_eq, str_lt};

verus! {

/// A change to one field of a card.
#[derive(Debug)]
pub enum CardEdit {
    GraphWindow(String),
    StatsMetric(StatsMetric),
    StatsWindow(String),
    StatsUnit(Option<String>),
    ClockFormat(String),
    ClockTimezone(Option<String>),
    Size(CardSize),
    /// The card's colour override (`None` clears it).
    Color(Option<String>),
    GraphOrientation(BarOrientation),
    /// Line, then bar, then pie, then line again.
    CycleGraphType,
    /// Append a series of this entity to a graph.
    SeriesAdd(String),
    /// Drop the graph series at this index.
    SeriesRemove(usize),
    SeriesColor(usize, Option<String>),
    SeriesLabel(usize, Option<String>),
    Severity(Severity),
    ToggleNeedle,
    ToggleTicker,
    ToggleHideState,
    ToggleHideWhenEmpty,
    /// The display override of one entry of an entity list: the entry at
    /// `item` of a plain list, the entity `entity` of a filtered one.
    EntryOverride { item: usize, entity: Option<String>, name: Option<String>, hide: bool },
}

/// The graph type after line, bar, pie.
pub open spec fn next_graph_type(t: GraphType) -> GraphType {
    match t {
        GraphType::Line => GraphType::Bar,
        GraphType::Bar => GraphType::Pie,
        GraphType::Pie => GraphType::Line,
    }
}

/// Card `c` after an edit of a single field; an edit of a field the card
/// does not have leaves it. (Edits of a card's lists are `card_edited`.)
pub open spec fn edited(c: Card, e: CardEdit) -> Card {
    match e {
        CardEdit::GraphWindow(w) => match c.kind {
            CardKind::Graph { instance, entity, entities, graph_type, orientation, title, .. } => with_kind(
                c,
                CardKind::Graph { instance, entity, entities, graph_type, window: w, orientation, title },
            ),
            _ => c,
        },
        CardEdit::StatsMetric(m) => match c.kind {
            CardKind::Statistics { instance, entity, window, unit, title, .. } => with_kind(
                c,
                CardKind::Statistics { instance, entity, window, metric: m, unit, title },
            ),
            _ => c,
        },
        CardEdit::StatsWindow(w) => match c.kind {
            CardKind::Statistics { instance, entity, metric, unit, title, .. } => with_kind(
                c,
                CardKind::Statistics { instance, entity, window: w, metric, unit, title },
            ),
            _ => c,
        },
        CardEdit::StatsUnit(u) => match c.kind {
            CardKind::Statistics { instance, entity, window, metric, title, .. } => with_kind(
                c,
                CardKind::Statistics { instance, entity, window, metric, unit: u, title },
            ),
            _ => c,
        },
        CardEdit::ClockFormat(f) => match c.kind {
            CardKind::Clock { timezone, title, .. } => with_kind(c, CardKind::Clock { format: f, timezone, title }),
            _ => c,
        },
        CardEdit::ClockTimezone(z) => match c.kind {
            CardKind::Clock { format, title, .. } => with_kind(c, CardKind::Clock { format, timezone: z, title }),
            _ => c,
        },
        CardEdit::Size(s) => Card { size: s, ..c },
        CardEdit::Color(col) => Card { color: col, ..c },
        CardEdit::GraphOrientation(o) => match c.kind {
            CardKind::Graph { instance, entity, entities, graph_type, window, title, .. } => with_kind(
                c,
                CardKind::Graph { instance, entity, entities, graph_type, window, orientation: o, title },
            ),
            _ => c,
        },
        CardEdit::CycleGraphType => match c.kind {
            CardKind::Graph { instance, entity, entities, graph_type, window, orientation, title } => with_kind(
                c,
                CardKind::Graph { instance, entity, entities, graph_type: next_graph_type(graph_type), window, orientation, title },
            ),
            _ => c,
        },
        CardEdit::Severity(sv) => match c.kind {
            CardKind::Gauge { instance, entity, min, max, unit, needle, title, .. } => with_kind(
                c,
                CardKind::Gauge { instance, entity, min, max, unit, severity: Some(sv), needle, title },
            ),
            _ => c,
        },
        CardEdit::ToggleNeedle => match c.kind {
            CardKind::Gauge { instance, entity, min, max, unit, severity, needle, title } => with_kind(
                c,
                CardKind::Gauge { instance, entity, min, max, unit, severity, needle: !needle, title },
            ),
            _ => c,
        },
        CardEdit::ToggleTicker => match c.kind {
            CardKind::Entity { instance, entity, title, ticker } => with_kind(
                c,
                CardKind::Entity { instance, entity, title, ticker: !ticker },
            ),
            _ => c,
        },
        CardEdit::ToggleHideState => match c.kind {
            CardKind::FilteredEntityList { instance, query, hide_state, hide_when_empty, title, overrides } => with_kind(
                c,
                CardKind::FilteredEntityList { instance, query, hide_state: !hide_state, hide_when_empty, title, overrides },
            ),
            _ => c,
        },
        CardEdit::ToggleHideWhenEmpty => match c.kind {
            CardKind::FilteredEntityList { instance, query, hide_state, hide_when_empty, title, overrides } => with_kind(
                c,
                CardKind::FilteredEntityList { instance, query, hide_state, hide_when_empty: !hide_when_empty, title, overrides },
            ),
            _ => c,
        },
        _ => c,
    }
}

/// The edit changes a list inside the card (its graph series or its
/// entries' overrides).
pub open spec fn edits_list(e: CardEdit) -> bool {
    e is SeriesAdd || e is SeriesRemove || e is SeriesColor || e is SeriesLabel || e is EntryOverride
}

/// The series of a graph after a series edit; an index past the end changes nothing.
pub open spec fn series_after(e: CardEdit, s: Seq<GraphSeries>) -> Seq<GraphSeries> {
    match e {
        CardEdit::SeriesAdd(en) => s.push(GraphSeries { entity: en, label: None, color: None }),
        CardEdit::SeriesRemove(i) => if i < s.len() { s.remove(i as int) } else { s },
        CardEdit::SeriesColor(i, col) => if i < s.len() {
            s.update(i as int, GraphSeries { color: col, ..s[i as int] })
        } else {
            s
        },
        CardEdit::SeriesLabel(i, l) => if i < s.len() {
            s.update(i as int, GraphSeries { label: l, ..s[i as int] })
        } else {
            s
        },
        _ => s,
    }
}

/// An entity-list entry with a display override: a full entry when it has a
/// name or hides its state, a bare id otherwise.
pub open spec fn entry_with(it: EntityListItem, name: Option<String>, hide: bool) -> EntityListItem {
    let eid = match it {
        EntityListItem::Bare(e) => e,
        EntityListItem::Full { entity, .. } => entity,
    };
    if name is Some || hide {
        EntityListItem::Full { entity: eid, name, hide_state: if hide { Some(true) } else { None } }
    } else {
        EntityListItem::Bare(eid)
    }
}

/// `p` is where key `k` belongs among `ovs`: every key before it sorts below
/// `k`, the one at `p` (if any) does not.
pub open spec fn slot_of(ovs: Seq<(String, EntityOverride)>, k: Seq<char>, p: int) -> bool {
    &&& 0 <= p <= ovs.len()
    &&& forall|i: int| 0 <= i < p ==> lex_lt(#[trigger] ovs[i].0@, k)
    &&& p < ovs.len() ==> !lex_lt(ovs[p].0@, k)
}

pub open spec fn slot(ovs: Seq<(String, EntityOverride)>, k: Seq<char>) -> int {
    choose|p: int| slot_of(ovs, k, p)
}

/// Overrides kept in ascending key order, each key once.
pub open spec fn keys_ascending(ovs: Seq<(String, EntityOverride)>) -> bool {
    forall|i: int, j: int| 0 <= i < j < ovs.len() ==> lex_lt(#[trigger] ovs[i].0@, #[trigger] ovs[j].0@)
}

/// The overrides of a filtered list after setting those of entity `k`: a
/// name or a hidden state adds or replaces its entry (in key order), neither
/// removes it.
pub open spec fn overrides_after(ovs: Seq<(String, EntityOverride)>, k: String, name: Option<String>, hide: bool) -> Seq<(String, EntityOverride)> {
    let p = slot(ovs, k@);
    let found = p < ovs.len() && ovs[p].0@ == k@;
    if name is Some || hide {
        let v = EntityOverride { name, hide_state: if hide { Some(true) } else { None } };
        if found {
            ovs.update(p, (ovs[p].0, v))
        } else {
            ovs.insert(p, (k, v))
        }
    } else if found {
        ovs.remove(p)
    } else {
        ovs
    }
}

/// `c2` is graph card `c` with series `s` and nothing else changed.
pub open spec fn graph_with_series(c: Card, s: Seq<GraphSeries>, c2: Card) -> bool {
    match c.kind {
        CardKind::Graph { instance, entity, graph_type, window, orientation, title, .. } => {
            &&& c2 == with_kind(c, c2.kind)
            &&& c2.kind matches CardKind::Graph {
                instance: i2,
                entity: e2,
                entities: n2,
                graph_type: g2,
                window: w2,
                orientation: o2,
                title: t2,
            } && i2 == instance && e2 == entity && n2@ == s && g2 == graph_type && w2 == window && o2 == orientation
                && t2 == title
        },
        _ => c2 == c,
    }
}

/// `c2` is card `c` after edit `e`.
pub open spec fn card_edited(c: Card, e: CardEdit, c2: Card) -> bool {
    match e {
        CardEdit::SeriesAdd(_) | CardEdit::SeriesRemove(_) | CardEdit::SeriesColor(..) | CardEdit::SeriesLabel(..) => match c.kind {
            CardKind::Graph { entities, .. } => graph_with_series(c, series_after(e, entities@), c2),
            _ => c2 == c,
        },
        CardEdit::EntryOverride { item, entity, name, hide } => match c.kind {
            CardKind::EntityList { instance, entities, title } => if item < entities@.len() {
                &&& c2 == with_kind(c, c2.kind)
                &&& c2.kind matches CardKind::EntityList { instance: i2, entities: n2, title: t2 } && i2 == instance
                    && t2 == title && n2@ == entities@.update(item as int, entry_with(entities@[item as int], name, hide))
            } else {
                c2 == c
            },
            CardKind::FilteredEntityList { instance, query, hide_state, hide_when_empty, title, overrides } => match entity {
                Some(k) if k@.len() > 0 => {
                    &&& c2 == with_kind(c, c2.kind)
                    &&& c2.kind matches CardKind::FilteredEntityList {
                        instance: i2,
                        query: q2,
                        hide_state: h2,
                        hide_when_empty: w2,
                        title: t2,
                        overrides: o2,
                    } && i2 == instance && q2 == query && h2 == hide_state && w2 == hide_when_empty && t2 == title && o2@
                        == overrides_after(overrides@, k, name, hide)
                },
                _ => c2 == c,
            },
            _ => c2 == c,
        },
        _ => c2 == edited(c, e),
    }
}

/// The edit would change card `c` (it has the field the edit is about).
pub open spec fn applies(c: Card, e: CardEdit) -> bool {
    match e {
        CardEdit::GraphWindow(_) | CardEdit::GraphOrientation(_) | CardEdit::CycleGraphType | CardEdit::SeriesAdd(_)
        | CardEdit::SeriesRemove(_) | CardEdit::SeriesColor(..) | CardEdit::SeriesLabel(..) => c.kind is Graph,
        CardEdit::StatsMetric(_) | CardEdit::StatsWindow(_) | CardEdit::StatsUnit(_) => c.kind is Statistics,
        CardEdit::ClockFormat(_) | CardEdit::ClockTimezone(_) => c.kind is Clock,
        CardEdit::Size(_) | CardEdit::Color(_) => true,
        CardEdit::Severity(_) | CardEdit::ToggleNeedle => c.kind is Gauge,
        CardEdit::ToggleTicker => c.kind is Entity,
        CardEdit::ToggleHideState | CardEdit::ToggleHideWhenEmpty => c.kind is FilteredEntityList,
        CardEdit::EntryOverride { .. } => c.kind is EntityList || c.kind is FilteredEntityList,
    }
}

proof fn lemma_slot_unique(ovs: Seq<(String, EntityOverride)>, k: Seq<char>, p: int)
    requires
        slot_of(ovs, k, p),
    ensures
        slot(ovs, k) == p,
{
    let q = slot(ovs, k);
    assert(slot_of(ovs, k, q));
    if q < p {
        assert(lex_lt(ovs[q].0@, k));
    } else if p < q {
        assert(lex_lt(ovs[p].0@, k));
    }
}

proof fn lemma_slot_exists(ovs: Seq<(String, EntityOverride)>, k: Seq<char>)
    ensures
        exists|p: int| slot_of(ovs, k, p),
    decreases ovs.len(),
{
    if ovs.len() == 0 {
        assert(slot_of(ovs, k, 0));
    } else {
        let front = ovs.drop_last();
        lemma_slot_exists(front, k);
        let q = choose|p: int| slot_of(front, k, p);
        assert(forall|i: int| 0 <= i < front.len() ==> #[trigger] front[i] == ovs[i]);
        if q < front.len() {
            assert forall|i: int| 0 <= i < q implies lex_lt(#[trigger] ovs[i].0@, k) by {
                assert(front[i] == ovs[i]);
                assert(lex_lt(front[i].0@, k));
            }
            assert(front[q] == ovs[q]);
            assert(slot_of(ovs, k, q));
        } else {
            assert forall|i: int| 0 <= i < front.len() implies lex_lt(#[trigger] ovs[i].0@, k) by {
                assert(front[i] == ovs[i]);
                assert(lex_lt(front[i].0@, k));
            }
            if lex_lt(ovs.last().0@, k) {
                assert(slot_of(ovs, k, ovs.len() as int));
            } else {
                assert(slot_of(ovs, k, ovs.len() - 1));
            }
        }
    }
}

/// Setting the override of an entity keeps a filtered list's overrides in
/// ascending key order with each key once, whatever the entity and override.
pub proof fn law_overrides_stay_ascending(ovs: Seq<(String, EntityOverride)>, k: String, name: Option<String>, hide: bool)
    requires
        keys_ascending(ovs),
    ensures
        keys_ascending(overrides_after(ovs, k, name, hide)),
{
    lemma_slot_exists(ovs, k@);
    let p = slot(ovs, k@);
    assert(slot_of(ovs, k@, p));
    let found = p < ovs.len() && ovs[p].0@ == k@;
    let r = overrides_after(ovs, k, name, hide);
    if name is Some || hide {
        if !found {
            let v = EntityOverride { name, hide_state: if hide { Some(true) } else { None } };
            assert(r == ovs.insert(p, (k, v)));
            if p < ovs.len() {
                lemma_lex_total(ovs[p].0@, k@);
            }
            assert forall|i: int, j: int| 0 <= i < j < r.len() implies lex_lt(#[trigger] r[i].0@, #[trigger] r[j].0@) by {
                if j < p {
                    assert(r[i] == ovs[i] && r[j] == ovs[j]);
                } else if j == p {
                    assert(r[i] == ovs[i]);
                } else if i == p {
                    assert(r[j] == ovs[j - 1]);
                    if j - 1 > p {
                        lemma_lex_trans(k@, ovs[p].0@, ovs[j - 1].0@);
                    }
                } else if i < p {
                    assert(r[i] == ovs[i] && r[j] == ovs[j - 1]);
                    if p < ovs.len() {
                        lemma_lex_trans(ovs[i].0@, k@, ovs[p].0@);
                        if j - 1 > p {
                            lemma_lex_trans(ovs[i].0@, ovs[p].0@, ovs[j - 1].0@);
                        }
                    }
                } else {
                    assert(r[i] == ovs[i - 1] && r[j] == ovs[j - 1]);
                }
            }
        }
    } else if found {
        assert forall|i: int, j: int| 0 <= i < j < r.len() implies lex_lt(#[trigger] r[i].0@, #[trigger] r[j].0@) by {
            if j < p {
                assert(r[i] == ovs[i] && r[j] == ovs[j]);
            } else if i < p {
                assert(r[i] == ovs[i] && r[j] == ovs[j + 1]);
            } else {
                assert(r[i] == ovs[i + 1] && r[j] == ovs[j + 1]);
            }
        }
    }
}

/// Set the override of entity `k` in a filtered list's overrides.
fn set_override(ovs: &mut Vec<(String, EntityOverride)>, k: String, name: Option<String>, hide: bool)
    ensures
        final(ovs)@ == overrides_after(old(ovs)@, k, name, hide),
{
    let ghost o = ovs@;
    let n = ovs.len();
    let mut p: usize = 0;
    loop
        invariant
            ovs@ == o,
            n == o.len(),
            p <= n,
            forall|i: int| 0 <= i < p ==> lex_lt(#[trigger] o[i].0@, k@),
        ensures
            slot_of(o, k@, p as int),
        decreases n - p,
    {
        if p >= n {
            break;
        }
        let below = str_lt(ovs[p].0.as_str(), k.as_str());
        if !below {
            break;
        }
        p = p + 1;
    }
    proof {
        lemma_slot_unique(o, k@, p as int);
    }
    let found = p < n && str_eq(ovs[p].0.as_str(), k.as_str());
    if name.is_some() || hide {
        let v = EntityOverride { name, hide_state: if hide { Some(true) } else { None } };
        if found {
            let key = ovs[p].0.clone();
            ovs.set(p, (key, v));
        } else {
            ovs.insert(p, (k, v));
        }
    } else if found {
        ovs.remove(p);
    }
}

impl Dashboard {
    /// Apply `edit` to the card at flat index `idx`, if there is one.
    pub fn edit_card(&mut self, idx: usize, edit: CardEdit)
        ensures
            same_shape(*old(self), *final(self)),
            final(self).name == old(self).name,
            idx < flat_cards(*old(self)).len() ==> flat_cards(*final(self)) == flat_cards(*old(self)).update(
                idx as int,
                flat_cards(*final(self))[idx as int],
            ) && card_edited(flat_cards(*old(self))[idx as int], edit, flat_cards(*final(self))[idx as int]),
            idx >= flat_cards(*old(self)).len() ==> *final(self) == *old(self),
    {
        let ghost e0 = edit;
        match self.card_mut(idx) {
            Some(card) => {
                let ghost c0 = *card;
                match edit {
                    CardEdit::GraphWindow(w) => {
                        if let CardKind::Graph { window, .. } = &mut card.kind {
                            *window = w;
                        }
                    },
                    CardEdit::StatsMetric(m) => {
                        if let CardKind::Statistics { metric, .. } = &mut card.kind {
                            *metric = m;
                        }
                    },
                    CardEdit::StatsWindow(w) => {
                        if let CardKind::Statistics { window, .. } = &mut card.kind {
                            *window = w;
                        }
                    },
                    CardEdit::StatsUnit(u) => {
                        if let CardKind::Statistics { unit, .. } = &mut card.kind {
                            *unit = u;
                        }
                    },
                    CardEdit::ClockFormat(f) => {
                        if let CardKind::Clock { format, .. } = &mut card.kind {
                            *format = f;
                        }
                    },
                    CardEdit::ClockTimezone(z) => {
                        if let CardKind::Clock { timezone, .. } = &mut card.kind {
                            *timezone = z;
                        }
                    },
                    CardEdit::Size(s) => {
                        card.size = s;
                    },
                    CardEdit::Color(col) => {
                        card.color = col;
                    },
                    CardEdit::GraphOrientation(o) => {
                        if let CardKind::Graph { orientation, .. } = &mut card.kind {
                            *orientation = o;
                        }
                    },
                    CardEdit::CycleGraphType => {
                        if let CardKind::Graph { graph_type, .. } = &mut card.kind {
                            *graph_type = match *graph_type {
                                GraphType::Line => GraphType::Bar,
                                GraphType::Bar => GraphType::Pie,
                                GraphType::Pie => GraphType::Line,
                            };
                        }
                    },
                    CardEdit::Severity(sv) => {
                        if let CardKind::Gauge { severity, .. } = &mut card.kind {
                            *severity = Some(sv);
                        }
                    },
                    CardEdit::ToggleNeedle => {
                        if let CardKind::Gauge { needle, .. } = &mut card.kind {
                            *needle = !*needle;
                        }
                    },
                    CardEdit::ToggleTicker => {
                        if let CardKind::Entity { ticker, .. } = &mut card.kind {
                            *ticker = !*ticker;
                        }
                    },
                    CardEdit::ToggleHideState => {
                        if let CardKind::FilteredEntityList { hide_state, .. } = &mut card.kind {
                            *hide_state = !*hide_state;
                        }
                    },
                    CardEdit::ToggleHideWhenEmpty => {
                        if let CardKind::FilteredEntityList { hide_when_empty, .. } = &mut card.kind {
                            *hide_when_empty = !*hide_when_empty;
                        }
                    },
                    CardEdit::SeriesAdd(en) => {
                        if let CardKind::Graph { entities, .. } = &mut card.kind {
                            entities.push(GraphSeries { entity: en, label: None, color: None });
                        }
                    },
                    CardEdit::SeriesRemove(i) => {
                        if let CardKind::Graph { entities, .. } = &mut card.kind {
                            if i < entities.len() {
                                entities.remove(i);
                            }
                        }
                    },
                    CardEdit::SeriesColor(i, col) => {
                        if let CardKind::Graph { entities, .. } = &mut card.kind {
                            if i < entities.len() {
                                let s = GraphSeries {
                                    entity: entities[i].entity.clone(),
                                    label: copy_opt_string(&entities[i].label),
                                    color: col,
                                };
                                entities.set(i, s);
                            }
                        }
                    },
                    CardEdit::SeriesLabel(i, l) => {
                        if let CardKind::Graph { entities, .. } = &mut card.kind {
                            if i < entities.len() {
                                let s = GraphSeries {
                                    entity: entities[i].entity.clone(),
                                    label: l,
                                    color: copy_opt_string(&entities[i].color),
                                };
                                entities.set(i, s);
                            }
                        }
                    },
                    CardEdit::EntryOverride { item, entity, name, hide } => {
                        match &mut card.kind {
                            CardKind::EntityList { entities, .. } => {
                                if item < entities.len() {
                                    let eid = entities[item].entity_id().clone();
                                    let it = if name.is_some() || hide {
                                        EntityListItem::Full {
                                            entity: eid,
                                            name,
                                            hide_state: if hide { Some(true) } else { None },
                                        }
                                    } else {
                                        EntityListItem::Bare(eid)
                                    };
                                    entities.set(item, it);
                                }
                            },
                            CardKind::FilteredEntityList { overrides, .. } => {
                                if let Some(k) = entity {
                                    if char_len(k.as_str()) > 0 {
                                        set_override(overrides, k, name, hide);
                                    }
                                }
                            },
                            _ => {},
                        }
                    },
                }
                assert(card_edited(c0, e0, *card));
            },
            None => {},
        }
    }
}

} // verus!
