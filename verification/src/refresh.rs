//! What to fetch for the cards on screen: history windows, image sources,
//! weather forecasts, and the entities that refresh on a timer.
use vstd::prelude::*;

use crate::card_ops::{graph_entities_spec, source_entity};
use crate::dashboard::{Card, CardKind, Dashboard, ImageSource};
use crate::flat::flat_cards;
use crate::grid_ops::count_fits;
use crate::actions::HaCommand;
use crate::ha::ImageFetchKind;
use crate::strings::{char_len, parse_u32, parse_u32_spec, slice, str_eq, to_owned_string, trim, trim_str};

verus! {

/// The number a window spec's count stands for, or `dflt` when it does not parse.
pub open spec fn count_or(s: Seq<char>, dflt: u32) -> u32 {
    match parse_u32_spec(s) {
        Some(n) => n,
        None => dflt,
    }
}

/// Hours covered by a window spec such as `1h`, `30m`, `24h`, `1d`, `7d`:
/// hours as given, days times 24, minutes divided by 60 (at least 1).
/// A count that does not parse counts as 1 (60 for minutes); anything else is 1 hour.
pub open spec fn window_hours_spec(s: Seq<char>) -> int {
    let t = trim(s);
    if t.len() > 0 && t.last() == 'h' {
        count_or(t.drop_last(), 1) as int
    } else if t.len() > 0 && t.last() == 'd' {
        count_or(t.drop_last(), 1) * 24
    } else if t.len() > 0 && t.last() == 'm' {
        let h = count_or(t.drop_last(), 60) / 60;
        if h < 1 { 1 } else { h as int }
    } else {
        1
    }
}

/// A window spec whose hour count fits in a `u32`.
pub open spec fn window_ok(s: Seq<char>) -> bool {
    window_hours_spec(s) <= u32::MAX
}

/// Convert a card window spec to whole hours.
pub fn parse_window_hours(s: &str) -> (r: u32)
    requires
        window_ok(s@),
    ensures
        r == window_hours_spec(s@),
{
    let t = trim_str(s);
    let n = char_len(t);
    if n == 0 {
        return 1;
    }
    let last = t.get_char(n - 1);
    let num = slice(t, 0, n - 1);
    assert(num@ =~= t@.drop_last());
    if last == 'h' {
        match parse_u32(num) {
            Some(v) => v,
            None => 1,
        }
    } else if last == 'd' {
        let v = match parse_u32(num) {
            Some(v) => v,
            None => 1,
        };
        v * 24
    } else if last == 'm' {
        let mins = match parse_u32(num) {
            Some(v) => v,
            None => 60,
        };
        let h = mins / 60;
        if h < 1 {
            1
        } else {
            h
        }
    } else {
        1
    }
}

/// Every card of every dashboard, dashboard by dashboard, each in flat order.
pub open spec fn all_cards(ds: Seq<Dashboard>) -> Seq<Card>
    decreases ds.len(),
{
    if ds.len() == 0 {
        Seq::empty()
    } else {
        all_cards(ds.drop_last()) + flat_cards(ds.last())
    }
}

/// Every dashboard's card count fits in a `usize`.
pub open spec fn all_counts_fit(ds: Seq<Dashboard>) -> bool {
    forall|i: int| 0 <= i < ds.len() ==> count_fits(#[trigger] ds[i])
}

/// The cards of all dashboards, in the order `all_cards` gives.
pub fn cards_of_all(ds: &Vec<Dashboard>) -> (r: Vec<&Card>)
    requires
        all_counts_fit(ds@),
    ensures
        r@.len() == all_cards(ds@).len(),
        forall|i: int| 0 <= i < r@.len() ==> *(#[trigger] r@[i]) == all_cards(ds@)[i],
{
    let mut out: Vec<&Card> = Vec::new();
    let mut d: usize = 0;
    while d < ds.len()
        invariant
            d <= ds@.len(),
            all_counts_fit(ds@),
            out@.len() == all_cards(ds@.take(d as int)).len(),
            forall|i: int| 0 <= i < out@.len() ==> *(#[trigger] out@[i]) == all_cards(ds@.take(d as int))[i],
        decreases ds.len() - d,
    {
        assert(ds@.take(d as int + 1).drop_last() =~= ds@.take(d as int));
        let cards = ds[d].cards_iter();
        let ghost base = all_cards(ds@.take(d as int));
        let ghost fl = flat_cards(ds@[d as int]);
        assert(all_cards(ds@.take(d as int + 1)) == base + fl);
        let mut k: usize = 0;
        while k < cards.len()
            invariant
                k <= cards@.len(),
                cards@.len() == fl.len(),
                forall|i: int| 0 <= i < cards@.len() ==> *(#[trigger] cards@[i]) == fl[i],
                out@.len() == base.len() + k,
                forall|i: int| 0 <= i < out@.len() ==> *(#[trigger] out@[i]) == (base + fl)[i],
            decreases cards.len() - k,
        {
            out.push(cards[k]);
            k = k + 1;
        }
        d = d + 1;
    }
    assert(ds@.take(ds@.len() as int) =~= ds@);
    out
}

/// Entities shown by the image cards of `inst`, in card order.
pub open spec fn image_entities(cards: Seq<Card>, inst: Seq<char>) -> Seq<Seq<char>>
    decreases cards.len(),
{
    if cards.len() == 0 {
        Seq::empty()
    } else {
        let prev = image_entities(cards.drop_last(), inst);
        match cards.last().kind {
            CardKind::Image { instance, source, .. } => if instance@ == inst {
                prev.push(source_entity(source)@)
            } else {
                prev
            },
            _ => prev,
        }
    }
}

/// Entities of the weather cards of `inst`, in card order.
pub open spec fn weather_entities(cards: Seq<Card>, inst: Seq<char>) -> Seq<Seq<char>>
    decreases cards.len(),
{
    if cards.len() == 0 {
        Seq::empty()
    } else {
        let prev = weather_entities(cards.drop_last(), inst);
        match cards.last().kind {
            CardKind::Weather { instance, entity, .. } => if instance@ == inst {
                prev.push(entity@)
            } else {
                prev
            },
            _ => prev,
        }
    }
}

pub open spec fn views(v: Seq<String>) -> Seq<Seq<char>> {
    v.map_values(|s: String| s@)
}

/// The image-card entities of an instance, to fetch once it connects.
pub fn image_entities_for(ds: &Vec<Dashboard>, instance: &str) -> (r: Vec<String>)
    requires
        all_counts_fit(ds@),
    ensures
        views(r@) == image_entities(all_cards(ds@), instance@),
{
    let cards = cards_of_all(ds);
    let ghost all = all_cards(ds@);
    let mut out: Vec<String> = Vec::new();
    let mut i: usize = 0;
    while i < cards.len()
        invariant
            i <= cards@.len(),
            cards@.len() == all.len(),
            forall|k: int| 0 <= k < cards@.len() ==> *(#[trigger] cards@[k]) == all[k],
            views(out@) == image_entities(all.take(i as int), instance@),
        decreases cards.len() - i,
    {
        assert(all.take(i as int + 1).drop_last() =~= all.take(i as int));
        let ghost before = views(out@);
        match &cards[i].kind {
            CardKind::Image { instance: ci, source, .. } => {
                if str_eq(ci.as_str(), instance) {
                    let e = match source {
                        ImageSource::ImageEntity { entity } => entity.clone(),
                        ImageSource::Camera { entity } => entity.clone(),
                    };
                    out.push(e);
                    assert(views(out@) =~= before.push(source_entity(*source)@));
                }
            },
            _ => {},
        }
        i = i + 1;
    }
    assert(all.take(all.len() as int) =~= all);
    out
}

/// The weather-card entities of an instance, whose forecasts to request.
pub fn weather_entities_for(ds: &Vec<Dashboard>, instance: &str) -> (r: Vec<String>)
    requires
        all_counts_fit(ds@),
    ensures
        views(r@) == weather_entities(all_cards(ds@), instance@),
{
    let cards = cards_of_all(ds);
    let ghost all = all_cards(ds@);
    let mut out: Vec<String> = Vec::new();
    let mut i: usize = 0;
    while i < cards.len()
        invariant
            i <= cards@.len(),
            cards@.len() == all.len(),
            forall|k: int| 0 <= k < cards@.len() ==> *(#[trigger] cards@[k]) == all[k],
            views(out@) == weather_entities(all.take(i as int), instance@),
        decreases cards.len() - i,
    {
        assert(all.take(i as int + 1).drop_last() =~= all.take(i as int));
        let ghost before = views(out@);
        match &cards[i].kind {
            CardKind::Weather { instance: ci, entity, .. } => {
                if str_eq(ci.as_str(), instance) {
                    out.push(entity.clone());
                    assert(views(out@) =~= before.push(entity@));
                }
            },
            _ => {},
        }
        i = i + 1;
    }
    assert(all.take(all.len() as int) =~= all);
    out
}

/// How an entity's picture is fetched: by the first image card of `inst`
/// showing it, as an image entity or a camera.
pub open spec fn image_kind_for(cards: Seq<Card>, inst: Seq<char>, entity: Seq<char>) -> Option<ImageFetchKind>
    decreases cards.len(),
{
    if cards.len() == 0 {
        None
    } else {
        match cards[0].kind {
            CardKind::Image { instance, source: ImageSource::ImageEntity { entity: e }, .. } if instance@
                == inst && e@ == entity => Some(ImageFetchKind::Image),
            CardKind::Image { instance, source: ImageSource::Camera { entity: e }, .. } if instance@ == inst
                && e@ == entity => Some(ImageFetchKind::Camera),
            _ => image_kind_for(cards.drop_first(), inst, entity),
        }
    }
}

/// Whether `entity` of `instance` is shown by an image card, and how to fetch it.
pub fn image_fetch_kind_for(ds: &Vec<Dashboard>, instance: &str, entity: &str) -> (r: Option<ImageFetchKind>)
    requires
        all_counts_fit(ds@),
    ensures
        r == image_kind_for(all_cards(ds@), instance@, entity@),
{
    let cards = cards_of_all(ds);
    let ghost all = all_cards(ds@);
    assert(all.skip(0) =~= all);
    let mut i: usize = 0;
    while i < cards.len()
        invariant
            i <= cards@.len(),
            cards@.len() == all.len(),
            all == all_cards(ds@),
            forall|k: int| 0 <= k < cards@.len() ==> *(#[trigger] cards@[k]) == all[k],
            image_kind_for(all, instance@, entity@) == image_kind_for(all.skip(i as int), instance@, entity@),
        decreases cards.len() - i,
    {
        assert(all.skip(i as int)[0] == all[i as int]);
        assert(all.skip(i as int).drop_first() =~= all.skip(i as int + 1));
        match &cards[i].kind {
            CardKind::Image { instance: ci, source, .. } => {
                if str_eq(ci.as_str(), instance) {
                    match source {
                        ImageSource::ImageEntity { entity: e } => {
                            if str_eq(e.as_str(), entity) {
                                return Some(ImageFetchKind::Image);
                            }
                        },
                        ImageSource::Camera { entity: e } => {
                            if str_eq(e.as_str(), entity) {
                                return Some(ImageFetchKind::Camera);
                            }
                        },
                    }
                }
            },
            _ => {},
        }
        i = i + 1;
    }
    None
}

/// History requests for the graph and statistics cards of `inst`, in card
/// order: (entity, hours of the card's window).
pub open spec fn history_requests(cards: Seq<Card>, inst: Seq<char>) -> Seq<(Seq<char>, int)>
    decreases cards.len(),
{
    if cards.len() == 0 {
        Seq::empty()
    } else {
        let prev = history_requests(cards.drop_last(), inst);
        match cards.last().kind {
            CardKind::Graph { instance, window, .. } => if instance@ == inst {
                prev + graph_entities_spec(cards.last().kind).map_values(
                    |e: String| (e@, window_hours_spec(window@)),
                )
            } else {
                prev
            },
            CardKind::Statistics { instance, entity, window, .. } => if instance@ == inst {
                prev.push((entity@, window_hours_spec(window@)))
            } else {
                prev
            },
            _ => prev,
        }
    }
}

/// Every graph and statistics window of `inst` converts to hours without overflow.
pub open spec fn windows_ok(cards: Seq<Card>, inst: Seq<char>) -> bool {
    forall|i: int| 0 <= i < cards.len() ==> match (#[trigger] cards[i]).kind {
        CardKind::Graph { instance, window, .. } => instance@ == inst ==> window_ok(window@),
        CardKind::Statistics { instance, window, .. } => instance@ == inst ==> window_ok(window@),
        _ => true,
    }
}

pub open spec fn request_views(v: Seq<(String, u32)>) -> Seq<(Seq<char>, int)> {
    v.map_values(|p: (String, u32)| (p.0@, p.1 as int))
}

/// The history backfill to request for an instance once it connects.
pub fn history_requests_for(ds: &Vec<Dashboard>, instance: &str) -> (r: Vec<(String, u32)>)
    requires
        all_counts_fit(ds@),
        windows_ok(all_cards(ds@), instance@),
    ensures
        request_views(r@) == history_requests(all_cards(ds@), instance@),
{
    let cards = cards_of_all(ds);
    let ghost all = all_cards(ds@);
    let mut out: Vec<(String, u32)> = Vec::new();
    let mut i: usize = 0;
    while i < cards.len()
        invariant
            i <= cards@.len(),
            cards@.len() == all.len(),
            forall|k: int| 0 <= k < cards@.len() ==> *(#[trigger] cards@[k]) == all[k],
            windows_ok(all, instance@),
            request_views(out@) == history_requests(all.take(i as int), instance@),
        decreases cards.len() - i,
    {
        assert(all.take(i as int + 1).drop_last() =~= all.take(i as int));
        let card = cards[i];
        assert(*card == all[i as int]);
        match &card.kind {
            CardKind::Graph { instance: ci, window, .. } => {
                if str_eq(ci.as_str(), instance) {
                    let hours = parse_window_hours(window.as_str());
                    let es = card.graph_entities();
                    let ghost base = request_views(out@);
                    let ghost ge = graph_entities_spec(card.kind);
                    let mut j: usize = 0;
                    while j < es.len()
                        invariant
                            j <= es@.len(),
                            es@.len() == ge.len(),
                            forall|k: int| 0 <= k < es@.len() ==> *(#[trigger] es@[k]) == ge[k],
                            hours == window_hours_spec(window@),
                            request_views(out@) == base + ge.take(j as int).map_values(
                                |e: String| (e@, window_hours_spec(window@)),
                            ),
                        decreases es.len() - j,
                    {
                        let ghost before = request_views(out@);
                        out.push((es[j].clone(), hours));
                        assert(request_views(out@) =~= before.push((ge[j as int]@, hours as int)));
                        assert(ge.take(j as int + 1).map_values(|e: String| (e@, window_hours_spec(window@)))
                            =~= ge.take(j as int).map_values(|e: String| (e@, window_hours_spec(window@))).push(
                            (ge[j as int]@, window_hours_spec(window@)),
                        ));
                        j = j + 1;
                    }
                    assert(ge.take(ge.len() as int) =~= ge);
                }
            },
            CardKind::Statistics { instance: ci, entity, window, .. } => {
                if str_eq(ci.as_str(), instance) {
                    let hours = parse_window_hours(window.as_str());
                    let ghost before = request_views(out@);
                    out.push((entity.clone(), hours));
                    assert(request_views(out@) =~= before.push((entity@, hours as int)));
                }
            },
            _ => {},
        }
        i = i + 1;
    }
    assert(all.take(all.len() as int) =~= all);
    out
}

/// (instance, entity) of every weather card, each pair once, first seen first.
pub open spec fn weather_pairs(cards: Seq<Card>) -> Seq<(Seq<char>, Seq<char>)>
    decreases cards.len(),
{
    if cards.len() == 0 {
        Seq::empty()
    } else {
        let prev = weather_pairs(cards.drop_last());
        match cards.last().kind {
            CardKind::Weather { instance, entity, .. } => if prev.contains((instance@, entity@)) {
                prev
            } else {
                prev.push((instance@, entity@))
            },
            _ => prev,
        }
    }
}

pub open spec fn pair_views(v: Seq<(String, String)>) -> Seq<(Seq<char>, Seq<char>)> {
    v.map_values(|p: (String, String)| (p.0@, p.1@))
}

fn pairs_contain(v: &Vec<(String, String)>, a: &str, b: &str) -> (r: bool)
    ensures
        r == pair_views(v@).contains((a@, b@)),
{
    let mut i: usize = 0;
    while i < v.len()
        invariant
            i <= v@.len(),
            forall|k: int| 0 <= k < i ==> pair_views(v@)[k] != (a@, b@),
        decreases v.len() - i,
    {
        if str_eq(v[i].0.as_str(), a) && str_eq(v[i].1.as_str(), b) {
            assert(pair_views(v@)[i as int] == (a@, b@));
            return true;
        }
        i = i + 1;
    }
    false
}

/// The weather entities to refresh on the forecast timer.
pub fn weather_refresh_pairs(ds: &Vec<Dashboard>) -> (r: Vec<(String, String)>)
    requires
        all_counts_fit(ds@),
    ensures
        pair_views(r@) == weather_pairs(all_cards(ds@)),
{
    let cards = cards_of_all(ds);
    let ghost all = all_cards(ds@);
    let mut out: Vec<(String, String)> = Vec::new();
    let mut i: usize = 0;
    while i < cards.len()
        invariant
            i <= cards@.len(),
            cards@.len() == all.len(),
            forall|k: int| 0 <= k < cards@.len() ==> *(#[trigger] cards@[k]) == all[k],
            pair_views(out@) == weather_pairs(all.take(i as int)),
        decreases cards.len() - i,
    {
        assert(all.take(i as int + 1).drop_last() =~= all.take(i as int));
        match &cards[i].kind {
            CardKind::Weather { instance, entity, .. } => {
                if !pairs_contain(&out, instance.as_str(), entity.as_str()) {
                    let ghost before = pair_views(out@);
                    out.push((instance.clone(), entity.clone()));
                    assert(pair_views(out@) =~= before.push((instance@, entity@)));
                }
            },
            _ => {},
        }
        i = i + 1;
    }
    assert(all.take(all.len() as int) =~= all);
    out
}

/// (instance, camera entity, seconds) of every camera card with a refresh period.
pub open spec fn camera_timers(cards: Seq<Card>) -> Seq<(Seq<char>, Seq<char>, u32)>
    decreases cards.len(),
{
    if cards.len() == 0 {
        Seq::empty()
    } else {
        let prev = camera_timers(cards.drop_last());
        match cards.last().kind {
            CardKind::Image { instance, source: ImageSource::Camera { entity }, refresh_seconds: Some(secs), .. } => prev.push(
                (instance@, entity@, secs),
            ),
            _ => prev,
        }
    }
}

pub open spec fn timer_views(v: Seq<(String, String, u32)>) -> Seq<(Seq<char>, Seq<char>, u32)> {
    v.map_values(|p: (String, String, u32)| (p.0@, p.1@, p.2))
}

/// The camera cards that refresh on their own timer, one entry per card.
pub fn camera_refresh_timers(ds: &Vec<Dashboard>) -> (r: Vec<(String, String, u32)>)
    requires
        all_counts_fit(ds@),
    ensures
        timer_views(r@) == camera_timers(all_cards(ds@)),
{
    let cards = cards_of_all(ds);
    let ghost all = all_cards(ds@);
    let mut out: Vec<(String, String, u32)> = Vec::new();
    let mut i: usize = 0;
    while i < cards.len()
        invariant
            i <= cards@.len(),
            cards@.len() == all.len(),
            forall|k: int| 0 <= k < cards@.len() ==> *(#[trigger] cards@[k]) == all[k],
            timer_views(out@) == camera_timers(all.take(i as int)),
        decreases cards.len() - i,
    {
        assert(all.take(i as int + 1).drop_last() =~= all.take(i as int));
        match &cards[i].kind {
            CardKind::Image { instance, source: ImageSource::Camera { entity }, refresh_seconds: Some(secs), .. } => {
                let ghost before = timer_views(out@);
                out.push((instance.clone(), entity.clone(), *secs));
                assert(timer_views(out@) =~= before.push((instance@, entity@, *secs)));
            },
            _ => {},
        }
        i = i + 1;
    }
    assert(all.take(all.len() as int) =~= all);
    out
}

/// Ask for the picture of `entity` of `instance` unless a fetch of it is in
/// flight: the request goes out (and is recorded as in flight) only when an
/// image card shows the entity, with that card's kind of fetch.
pub fn image_fetch_request(inflight: &mut Vec<(String, String)>, ds: &Vec<Dashboard>, instance: &str, entity: &str) -> (r: Option<
    HaCommand,
>)
    requires
        all_counts_fit(ds@),
    ensures
        ({
            let key = (instance@, entity@);
            if pair_views(old(inflight)@).contains(key) {
                r is None && final(inflight)@ == old(inflight)@
            } else {
                match image_kind_for(all_cards(ds@), instance@, entity@) {
                    Some(k) => (r matches Some(HaCommand::FetchImageBytes { entity: e, kind }) && e@ == entity@ && kind == k)
                        && pair_views(final(inflight)@) == pair_views(old(inflight)@).push(key),
                    None => r is None && final(inflight)@ == old(inflight)@,
                }
            }
        }),
{
    if pairs_contain(inflight, instance, entity) {
        return None;
    }
    let kind = match image_fetch_kind_for(ds, instance, entity) {
        Some(k) => k,
        None => return None,
    };
    let ghost before = inflight@;
    inflight.push((to_owned_string(instance), to_owned_string(entity)));
    assert(pair_views(inflight@) =~= pair_views(before).push((instance@, entity@)));
    Some(HaCommand::FetchImageBytes { entity: to_owned_string(entity), kind })
}

/// The pairs of `v` other than `key`, in order.
pub open spec fn without_pair(v: Seq<(Seq<char>, Seq<char>)>, key: (Seq<char>, Seq<char>)) -> Seq<(Seq<char>, Seq<char>)> {
    v.filter(|p: (Seq<char>, Seq<char>)| p != key)
}

/// A fetch of `entity` of `instance` has answered: it is no longer in flight.
pub fn image_fetch_done(inflight: &mut Vec<(String, String)>, instance: &str, entity: &str)
    ensures
        pair_views(final(inflight)@) == without_pair(pair_views(old(inflight)@), (instance@, entity@)),
{
    let ghost orig = pair_views(inflight@);
    let ghost key = (instance@, entity@);
    let mut i: usize = 0;
    let ghost mut j: int = 0;
    while i < inflight.len()
        invariant
            key == (instance@, entity@),
            0 <= j <= orig.len(),
            i <= inflight@.len(),
            pair_views(inflight@) == without_pair(orig.take(j), key) + orig.skip(j),
            i == without_pair(orig.take(j), key).len(),
        decreases inflight@.len() - i,
    {
        proof {
            lemma_without_len(orig.take(j), key);
            assert(j < orig.len());
            assert(pair_views(inflight@)[i as int] == orig[j]);
            lemma_without_step(orig, key, j);
        }
        let a = str_eq(inflight[i].0.as_str(), instance);
        let b = str_eq(inflight[i].1.as_str(), entity);
        let same = a && b;
        proof {
            let p = inflight@[i as int];
            assert(pair_views(inflight@)[i as int] == (p.0@, p.1@));
        }
        let ghost prev = inflight@;
        if same {
            inflight.remove(i);
        } else {
            i = i + 1;
        }
        proof {
            assert(orig.skip(j) =~= seq![orig[j]] + orig.skip(j + 1));
            if same {
                assert(pair_views(inflight@) =~= pair_views(prev).remove(i as int));
            }
            j = j + 1;
            assert(pair_views(inflight@) =~= without_pair(orig.take(j), key) + orig.skip(j));
        }
    }
    proof {
        lemma_without_len(orig.take(j), key);
        assert(orig.take(j) =~= orig);
        assert(pair_views(inflight@) =~= without_pair(orig, key));
    }
}

proof fn lemma_without_step(v: Seq<(Seq<char>, Seq<char>)>, key: (Seq<char>, Seq<char>), j: int)
    requires
        0 <= j < v.len(),
    ensures
        without_pair(v.take(j + 1), key) == if v[j] != key {
            without_pair(v.take(j), key).push(v[j])
        } else {
            without_pair(v.take(j), key)
        },
{
    reveal(Seq::filter);
    assert(v.take(j + 1).drop_last() =~= v.take(j));
    assert(v.take(j + 1).last() == v[j]);
}

proof fn lemma_without_len(v: Seq<(Seq<char>, Seq<char>)>, key: (Seq<char>, Seq<char>))
    ensures
        without_pair(v, key).len() <= v.len(),
{
    v.lemma_filter_len(|p: (Seq<char>, Seq<char>)| p != key);
}

/// Once a fetch has answered, the entity is no longer in flight, so the
/// next request for it can go out.
pub proof fn law_fetch_done_clears(v: Seq<(Seq<char>, Seq<char>)>, key: (Seq<char>, Seq<char>))
    ensures
        !without_pair(v, key).contains(key),
{
    broadcast use vstd::seq_lib::group_filter_ensures;

    if without_pair(v, key).contains(key) {
        let i = choose|i: int| 0 <= i < without_pair(v, key).len() && without_pair(v, key)[i] == key;
        assert(without_pair(v, key)[i] != key);
    }
}

} // verus!
