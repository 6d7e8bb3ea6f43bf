//! Per-card queries: titles, the entity a card shows, natural heights.
use vstd::prelude::*;

use crate::strings::char_len;
use crate::dashboard::{Alias, Card, CardKind, CardSize, EntityId, GraphSeries, ImageSource};

verus! {

pub open spec fn or_default(t: Option<String>, d: Seq<char>) -> Seq<char> {
    match t {
        Some(s) => s@,
        None => d,
    }
}

pub open spec fn source_entity(s: ImageSource) -> String {
    match s {
        ImageSource::ImageEntity { entity } => entity,
        ImageSource::Camera { entity } => entity,
    }
}

/// The title a card shows: its own title, else a kind-specific fallback.
pub open spec fn title_spec(k: CardKind) -> Seq<char> {
    match k {
        CardKind::Entity { title, entity, .. } => or_default(title, entity@),
        CardKind::Toggle { title, entity, .. } => or_default(title, entity@),
        CardKind::Gauge { title, entity, .. } => or_default(title, entity@),
        CardKind::Graph { title, entity, entities, .. } => or_default(
            title,
            if entities@.len() > 0 {
                entities@[0].entity@
            } else {
                match entity {
                    Some(e) => e@,
                    None => "Graph"@,
                }
            },
        ),
        CardKind::Text { title, .. } => or_default(title, "Text"@),
        CardKind::EntityList { title, .. } => or_default(title, "Entities"@),
        CardKind::FilteredEntityList { title, .. } => or_default(title, "Filtered"@),
        CardKind::Clock { title, .. } => or_default(title, "Clock"@),
        CardKind::Statistics { title, entity, .. } => or_default(title, entity@),
        CardKind::MediaPlayer { title, entity, .. } => or_default(title, entity@),
        CardKind::Image { title, source, .. } => or_default(title, source_entity(source)@),
        CardKind::Weather { title, entity, .. } => or_default(title, entity@),
        CardKind::AttributeList { title, entity, .. } => or_default(title, entity@),
    }
}

/// The (instance, entity) a card is about, if it is about one entity.
pub open spec fn entity_ref_spec(k: CardKind) -> Option<(Alias, EntityId)> {
    match k {
        CardKind::Entity { instance, entity, .. } => Some((instance, entity)),
        CardKind::Toggle { instance, entity, .. } => Some((instance, entity)),
        CardKind::Gauge { instance, entity, .. } => Some((instance, entity)),
        CardKind::Graph { instance, entity, entities, .. } => if entities@.len() > 0 {
            Some((instance, entities@[0].entity))
        } else {
            match entity {
                Some(e) => Some((instance, e)),
                None => None,
            }
        },
        CardKind::Statistics { instance, entity, .. } => Some((instance, entity)),
        CardKind::MediaPlayer { instance, entity, .. } => Some((instance, entity)),
        CardKind::Weather { instance, entity, .. } => Some((instance, entity)),
        CardKind::Image { instance, source, .. } => Some((instance, source_entity(source))),
        CardKind::AttributeList { instance, entity, .. } => Some((instance, entity)),
        _ => None,
    }
}

/// The instance a card belongs to (all kinds but text and clock).
pub open spec fn instance_spec(k: CardKind) -> Option<Alias> {
    match k {
        CardKind::Entity { instance, .. } => Some(instance),
        CardKind::Toggle { instance, .. } => Some(instance),
        CardKind::Gauge { instance, .. } => Some(instance),
        CardKind::Graph { instance, .. } => Some(instance),
        CardKind::EntityList { instance, .. } => Some(instance),
        CardKind::FilteredEntityList { instance, .. } => Some(instance),
        CardKind::Statistics { instance, .. } => Some(instance),
        CardKind::MediaPlayer { instance, .. } => Some(instance),
        CardKind::Image { instance, .. } => Some(instance),
        CardKind::Weather { instance, .. } => Some(instance),
        CardKind::AttributeList { instance, .. } => Some(instance),
        CardKind::Text { .. } => None,
        CardKind::Clock { .. } => None,
    }
}

/// `b` is `a` with a graph's legacy single `entity` turned into its first
/// series (when it has no series yet); every other card is kept as it is.
pub open spec fn normalized(a: Card, b: Card) -> bool {
    &&& b.id == a.id
    &&& b.pos == a.pos
    &&& b.height == a.height
    &&& b.color == a.color
    &&& b.size == a.size
    &&& match a.kind {
        CardKind::Graph { instance, entity: Some(e), entities, graph_type, window, orientation, title } if entities@.len() == 0 =>
            b.kind matches CardKind::Graph { instance: i2, entity: None, entities: s2, graph_type: g2, window: w2, orientation: o2, title: t2 }
            && i2 == instance && g2 == graph_type && w2 == window && o2 == orientation && t2 == title
            && s2@ =~= seq![GraphSeries { entity: e, label: None, color: None }],
        _ => b == a,
    }
}


/// The entities a graph card plots: its series, else its single legacy entity.
pub open spec fn graph_entities_spec(k: CardKind) -> Seq<EntityId> {
    match k {
        CardKind::Graph { entity, entities, .. } => if entities@.len() > 0 {
            entities@.map_values(|s: GraphSeries| s.entity)
        } else {
            match entity {
                Some(e) => seq![e],
                None => Seq::empty(),
            }
        },
        _ => Seq::empty(),
    }
}


/// A card kind moved to another instance; text and clock cards have none.
pub open spec fn with_instance(k: CardKind, a: Alias) -> CardKind {
    match k {
        CardKind::Entity { entity, title, ticker, .. } => CardKind::Entity { instance: a, entity, title, ticker },
        CardKind::Toggle { entity, title, .. } => CardKind::Toggle { instance: a, entity, title },
        CardKind::Gauge { entity, min, max, unit, severity, needle, title, .. } => CardKind::Gauge {
            instance: a,
            entity,
            min,
            max,
            unit,
            severity,
            needle,
            title,
        },
        CardKind::Graph { entity, entities, graph_type, window, orientation, title, .. } => CardKind::Graph {
            instance: a,
            entity,
            entities,
            graph_type,
            window,
            orientation,
            title,
        },
        CardKind::EntityList { entities, title, .. } => CardKind::EntityList { instance: a, entities, title },
        CardKind::FilteredEntityList { query, hide_state, hide_when_empty, title, overrides, .. } =>
            CardKind::FilteredEntityList { instance: a, query, hide_state, hide_when_empty, title, overrides },
        CardKind::Statistics { entity, window, metric, unit, title, .. } => CardKind::Statistics {
            instance: a,
            entity,
            window,
            metric,
            unit,
            title,
        },
        CardKind::MediaPlayer { entity, title, .. } => CardKind::MediaPlayer { instance: a, entity, title },
        CardKind::Image { source, refresh_seconds, title, .. } => CardKind::Image { instance: a, source, refresh_seconds, title },
        CardKind::Weather { entity, show_forecast, forecast_days, title, .. } => CardKind::Weather {
            instance: a,
            entity,
            show_forecast,
            forecast_days,
            title,
        },
        CardKind::AttributeList { entity, attribute, template, limit, title, .. } => CardKind::AttributeList {
            instance: a,
            entity,
            attribute,
            template,
            limit,
            title,
        },
        _ => k,
    }
}

fn title_or<'a>(t: &'a Option<String>, d: &'a str) -> (r: &'a str)
    ensures
        r@ == or_default(*t, d@),
{
    match t {
        Some(s) => s.as_str(),
        None => d,
    }
}

impl Card {
    pub fn title(&self) -> (r: &str)
        ensures
            r@ == title_spec(self.kind),
    {
        match &self.kind {
            CardKind::Entity { title, entity, .. } => title_or(title, entity.as_str()),
            CardKind::Toggle { title, entity, .. } => title_or(title, entity.as_str()),
            CardKind::Gauge { title, entity, .. } => title_or(title, entity.as_str()),
            CardKind::Graph { title, entity, entities, .. } => {
                let fallback: &str = if entities.len() > 0 {
                    entities[0].entity.as_str()
                } else {
                    match entity {
                        Some(e) => e.as_str(),
                        None => "Graph",
                    }
                };
                title_or(title, fallback)
            },
            CardKind::Text { title, .. } => title_or(title, "Text"),
            CardKind::EntityList { title, .. } => title_or(title, "Entities"),
            CardKind::FilteredEntityList { title, .. } => title_or(title, "Filtered"),
            CardKind::Clock { title, .. } => title_or(title, "Clock"),
            CardKind::Statistics { title, entity, .. } => title_or(title, entity.as_str()),
            CardKind::MediaPlayer { title, entity, .. } => title_or(title, entity.as_str()),
            CardKind::Image { title, source, .. } => {
                let e: &String = match source {
                    ImageSource::ImageEntity { entity } => entity,
                    ImageSource::Camera { entity } => entity,
                };
                title_or(title, e.as_str())
            },
            CardKind::Weather { title, entity, .. } => title_or(title, entity.as_str()),
            CardKind::AttributeList { title, entity, .. } => title_or(title, entity.as_str()),
        }
    }

    pub fn entity_ref(&self) -> (r: Option<(&Alias, &EntityId)>)
        ensures
            match (r, entity_ref_spec(self.kind)) {
                (Some((a, e)), Some((a2, e2))) => *a == a2 && *e == e2,
                (None, None) => true,
                _ => false,
            },
    {
        match &self.kind {
            CardKind::Entity { instance, entity, .. } => Some((instance, entity)),
            CardKind::Toggle { instance, entity, .. } => Some((instance, entity)),
            CardKind::Gauge { instance, entity, .. } => Some((instance, entity)),
            CardKind::Graph { instance, entity, entities, .. } => {
                if entities.len() > 0 {
                    Some((instance, &entities[0].entity))
                } else {
                    match entity {
                        Some(e) => Some((instance, e)),
                        None => None,
                    }
                }
            },
            CardKind::Statistics { instance, entity, .. } => Some((instance, entity)),
            CardKind::MediaPlayer { instance, entity, .. } => Some((instance, entity)),
            CardKind::Weather { instance, entity, .. } => Some((instance, entity)),
            CardKind::Image { instance, source, .. } => {
                let e: &String = match source {
                    ImageSource::ImageEntity { entity } => entity,
                    ImageSource::Camera { entity } => entity,
                };
                Some((instance, e))
            },
            CardKind::AttributeList { instance, entity, .. } => Some((instance, entity)),
            CardKind::Text { .. } => None,
            CardKind::EntityList { .. } => None,
            CardKind::FilteredEntityList { .. } => None,
            CardKind::Clock { .. } => None,
        }
    }

    pub fn instance_ref(&self) -> (r: Option<&Alias>)
        ensures
            match (r, instance_spec(self.kind)) {
                (Some(a), Some(a2)) => *a == a2,
                (None, None) => true,
                _ => false,
            },
    {
        match &self.kind {
            CardKind::Entity { instance, .. } => Some(instance),
            CardKind::Toggle { instance, .. } => Some(instance),
            CardKind::Gauge { instance, .. } => Some(instance),
            CardKind::Graph { instance, .. } => Some(instance),
            CardKind::EntityList { instance, .. } => Some(instance),
            CardKind::FilteredEntityList { instance, .. } => Some(instance),
            CardKind::Statistics { instance, .. } => Some(instance),
            CardKind::MediaPlayer { instance, .. } => Some(instance),
            CardKind::Image { instance, .. } => Some(instance),
            CardKind::Weather { instance, .. } => Some(instance),
            CardKind::AttributeList { instance, .. } => Some(instance),
            CardKind::Text { .. } => None,
            CardKind::Clock { .. } => None,
        }
    }

    /// Mutable access to the card's instance alias (none for text and clock cards).
    pub fn instance_mut(&mut self) -> (r: Option<&mut Alias>)
        ensures
            r is Some == (instance_spec(old(self).kind) is Some),
            r matches Some(a) ==> (*a == instance_spec(old(self).kind)->0 && final(self).kind == with_instance(old(self).kind, *final(a))),
            r is None ==> *final(self) == *old(self),
            final(self).id == old(self).id,
            final(self).pos == old(self).pos,
            final(self).height == old(self).height,
            final(self).color == old(self).color,
            final(self).size == old(self).size,
    {
        match &mut self.kind {
            CardKind::Entity { instance, .. } => Some(instance),
            CardKind::Toggle { instance, .. } => Some(instance),
            CardKind::Gauge { instance, .. } => Some(instance),
            CardKind::Graph { instance, .. } => Some(instance),
            CardKind::EntityList { instance, .. } => Some(instance),
            CardKind::FilteredEntityList { instance, .. } => Some(instance),
            CardKind::Statistics { instance, .. } => Some(instance),
            CardKind::MediaPlayer { instance, .. } => Some(instance),
            CardKind::Image { instance, .. } => Some(instance),
            CardKind::Weather { instance, .. } => Some(instance),
            CardKind::AttributeList { instance, .. } => Some(instance),
            CardKind::Text { .. } => None,
            CardKind::Clock { .. } => None,
        }
    }

    pub fn graph_entities(&self) -> (r: Vec<&EntityId>)
        ensures
            r@.len() == graph_entities_spec(self.kind).len(),
            forall|i: int| 0 <= i < r@.len() ==> *(#[trigger] r@[i]) == graph_entities_spec(self.kind)[i],
    {
        let mut out: Vec<&EntityId> = Vec::new();
        match &self.kind {
            CardKind::Graph { entity, entities, .. } => {
                if entities.len() > 0 {
                    let mut i: usize = 0;
                    while i < entities.len()
                        invariant
                            i <= entities@.len(),
                            out@.len() == i,
                            forall|k: int| 0 <= k < i ==> *(#[trigger] out@[k]) == entities@[k].entity,
                        decreases entities.len() - i,
                    {
                        out.push(&entities[i].entity);
                        i = i + 1;
                    }
                } else {
                    match entity {
                        Some(e) => out.push(e),
                        None => {},
                    }
                }
            },
            _ => {},
        }
        out
    }

    /// Turn a graph's legacy single `entity` into its first series.
    pub fn normalize(&mut self)
        ensures
            normalized(*old(self), *final(self)),
    {
        match &mut self.kind {
            CardKind::Graph { entity, entities, .. } => {
                if entities.len() == 0 {
                    let taken = entity.take();
                    match taken {
                        Some(e) => {
                            entities.push(GraphSeries { entity: e, label: None, color: None });
                        },
                        None => {},
                    }
                }
            },
            _ => {},
        }
    }
}


/// Terminal rows one text line of `len` characters wraps to at width `w`
/// (a blank line still takes a row), as a `u16`.
pub open spec fn line_rows(len: nat, w: nat) -> int {
    let m: int = if len == 0 { 1 } else { len as int };
    ((m + w - 1) / (w as int)) as u16 as int
}

/// Rows for the rest of a text whose current line already holds `cur` characters.
pub open spec fn text_rows_from(s: Seq<char>, cur: nat, w: nat) -> int
    decreases s.len(),
{
    if s.len() == 0 {
        line_rows(cur, w)
    } else if s[0] == '\n' {
        line_rows(cur, w) + text_rows_from(s.drop_first(), 0, w)
    } else {
        text_rows_from(s.drop_first(), cur + 1, w)
    }
}

/// Rows a markdown body wraps to: the sum over its `\n`-separated lines.
pub open spec fn text_rows(s: Seq<char>, w: nat) -> int {
    text_rows_from(s, 0, w)
}

pub proof fn lemma_text_rows_nonneg(s: Seq<char>, cur: nat, w: nat)
    ensures
        text_rows_from(s, cur, w) >= 0,
    decreases s.len(),
{
    if s.len() > 0 {
        if s[0] == '\n' {
            lemma_text_rows_nonneg(s.drop_first(), 0, w);
        } else {
            lemma_text_rows_nonneg(s.drop_first(), cur + 1, w);
        }
    }
}

pub open spec fn sat_add_u16(a: int, b: int) -> int {
    if a + b > u16::MAX { u16::MAX as int } else { a + b }
}

pub open spec fn inner_width(available_width: u16) -> nat {
    if available_width >= 3 { (available_width - 2) as nat } else { 1 }
}

/// Natural height of a card before its size adjustment.
pub open spec fn base_height(k: CardKind, available_width: u16, dynamic_count: Option<usize>) -> int {
    match k {
        CardKind::Entity { .. } => 3,
        CardKind::Toggle { .. } => 3,
        CardKind::Gauge { .. } => 5,
        CardKind::Clock { .. } => 3,
        CardKind::Statistics { .. } => 4,
        CardKind::MediaPlayer { .. } => 6,
        CardKind::Weather { show_forecast, .. } => if show_forecast { 12 } else { 6 },
        CardKind::Image { .. } => 10,
        CardKind::Graph { .. } => 10,
        CardKind::Text { markdown, .. } => {
            let lines = text_rows(markdown@, inner_width(available_width));
            (if lines >= 1 { lines } else { 1 }) + 2
        },
        CardKind::EntityList { entities, .. } => sat_add_u16(entities@.len() as u16 as int, 2),
        CardKind::FilteredEntityList { .. } => {
            let count = match dynamic_count {
                Some(n) => n,
                None => 4,
            };
            let h = sat_add_u16(count as u16 as int, 2);
            if h >= 4 { h } else { 4 }
        },
        CardKind::AttributeList { limit, .. } => match dynamic_count {
            Some(n) => sat_add_u16(n as u16 as int, 2),
            None => match limit {
                Some(n) => sat_add_u16(n as u16 as int, 2),
                None => 6,
            },
        },
    }
}

/// The height a grid card asks for: its explicit height, else the natural
/// height (hidden empty filtered lists outside the editor take none), raised
/// to 6 for large cards and lowered to 3 for small weather and media cards.
pub open spec fn preferred_height_spec(c: Card, available_width: u16, dynamic_count: Option<usize>, in_editor: bool) -> int {
    match c.height {
        Some(h) => h as int,
        None => if (c.kind matches CardKind::FilteredEntityList { hide_when_empty, .. } && hide_when_empty)
            && dynamic_count == Some(0usize) && !in_editor {
            0
        } else {
            let base = base_height(c.kind, available_width, dynamic_count);
            match c.size {
                CardSize::Large => if base >= 6 { base } else { 6 },
                CardSize::Small => match c.kind {
                    CardKind::Weather { .. } => 3,
                    CardKind::MediaPlayer { .. } => 3,
                    _ => base,
                },
                CardSize::Normal => base,
            }
        },
    }
}

/// Text rows of a markdown body at wrap width `w`.
fn markdown_rows(md: &str, w: usize) -> (r: u16)
    requires
        1 <= w <= 65535,
        md@.len() + 65536 <= usize::MAX,
        text_rows(md@, w as nat) <= u16::MAX,
    ensures
        r == text_rows(md@, w as nat),
{
    let n = char_len(md);
    let mut total: u16 = 0;
    let mut cur: usize = 0;
    let mut i: usize = 0;
    assert(md@.skip(0) =~= md@);
    while i < n
        invariant
            n == md@.len(),
            i <= n,
            cur <= i,
            1 <= w <= 65535,
            n + 65536 <= usize::MAX,
            total + text_rows_from(md@.skip(i as int), cur as nat, w as nat) == text_rows(md@, w as nat),
            text_rows(md@, w as nat) <= u16::MAX,
        decreases n - i,
    {
        let c = md.get_char(i);
        assert(md@.skip(i as int).drop_first() =~= md@.skip(i as int + 1));
        assert(md@.skip(i as int)[0] == c);
        if c == '\n' {
            let m: usize = if cur == 0 { 1 } else { cur };
            let rows: u16 = ((m + w - 1) / w) as u16;
            proof {
                lemma_text_rows_nonneg(md@.skip(i as int + 1), 0, w as nat);
            }
            total = total + rows;
            cur = 0;
        } else {
            cur = cur + 1;
        }
        i = i + 1;
    }
    let m: usize = if cur == 0 { 1 } else { cur };
    let rows: u16 = ((m + w - 1) / w) as u16;
    total + rows
}

fn sat_add2(n: usize) -> (r: u16)
    ensures
        r == sat_add_u16(n as u16 as int, 2),
{
    let t: u16 = n as u16;
    if t > 65533 { 65535 } else { t + 2 }
}

impl Card {
    /// Preferred terminal-row height in a grid column of `available_width`.
    pub fn preferred_height(&self, available_width: u16, dynamic_count: Option<usize>, in_editor: bool) -> (r: u16)
        requires
            self.height is None ==> (self.kind matches CardKind::Text { markdown, .. } ==> (markdown@.len()
                + 65536 <= usize::MAX && text_rows(markdown@, inner_width(available_width)) + 2 <= u16::MAX)),
        ensures
            r == preferred_height_spec(*self, available_width, dynamic_count, in_editor),
    {
        match self.height {
            Some(h) => {
                return h;
            },
            None => {},
        }
        let inner_w: usize = if available_width >= 3 { (available_width - 2) as usize } else { 1 };
        let base: u16 = match &self.kind {
            CardKind::Entity { .. } => 3,
            CardKind::Toggle { .. } => 3,
            CardKind::Gauge { .. } => 5,
            CardKind::Clock { .. } => 3,
            CardKind::Statistics { .. } => 4,
            CardKind::MediaPlayer { .. } => 6,
            CardKind::Weather { show_forecast, .. } => if *show_forecast { 12 } else { 6 },
            CardKind::Image { .. } => 10,
            CardKind::Graph { .. } => 10,
            CardKind::Text { markdown, .. } => {
                proof {
                    lemma_text_rows_nonneg(markdown@, 0, inner_width(available_width));
                }
                let lines = markdown_rows(markdown.as_str(), inner_w);
                let l: u16 = if lines >= 1 { lines } else { 1 };
                l + 2
            },
            CardKind::EntityList { entities, .. } => sat_add2(entities.len()),
            CardKind::FilteredEntityList { hide_when_empty, .. } => {
                if *hide_when_empty && dynamic_count == Some(0usize) && !in_editor {
                    return 0;
                }
                let count: usize = match dynamic_count {
                    Some(n) => n,
                    None => 4,
                };
                let h = sat_add2(count);
                if h >= 4 { h } else { 4 }
            },
            CardKind::AttributeList { limit, .. } => match dynamic_count {
                Some(n) => sat_add2(n),
                None => match limit {
                    Some(n) => sat_add2(*n),
                    None => 6,
                },
            },
        };
        match self.size {
            CardSize::Large => if base >= 6 { base } else { 6 },
            CardSize::Small => match &self.kind {
                CardKind::Weather { .. } => 3,
                CardKind::MediaPlayer { .. } => 3,
                _ => base,
            },
            CardSize::Normal => base,
        }
    }
}

/// A filtered entity list set to hide when empty, with no explicit height,
/// takes no rows at all when nothing matches and the editor is not open,
/// whatever its size and width.
pub proof fn law_hidden_empty_list_takes_no_rows(c: Card, available_width: u16)
    requires
        c.height is None,
        c.kind matches CardKind::FilteredEntityList { hide_when_empty, .. } && hide_when_empty,
    ensures
        preferred_height_spec(c, available_width, Some(0usize), false) == 0,
        preferred_height_spec(c, available_width, Some(0usize), true) >= 4,
{
}

/// An explicit height always wins; otherwise a large card takes at least 6
/// rows (unless it is an empty filtered list outside the editor, which may be
/// hidden), and a filtered list is only hidden when empty, set to hide, and
/// outside the editor.
pub proof fn law_preferred_height_rules(c: Card, w: u16, n: Option<usize>, in_editor: bool)
    ensures
        c.height matches Some(h) ==> preferred_height_spec(c, w, n, in_editor) == h,
        c.height is None && c.size == CardSize::Large && !(c.kind is FilteredEntityList && n == Some(0usize) && !in_editor)
            ==> preferred_height_spec(c, w, n, in_editor) >= 6,
        c.height is None && c.kind is FilteredEntityList && (n != Some(0usize) || in_editor || !(c.kind->hide_when_empty))
            ==> preferred_height_spec(c, w, n, in_editor) >= 4,
{
}

} // verus!
