use ha_tui::dashboard::{Card, CardId, CardKind, CardSize, EntityListItem};
use ha_tui::ha::{AttrValue, EntityState, InstanceRuntime};
use ha_tui::search::{contains_ignore_ascii_case, entity_search, entity_search_filtered, find_runtime, list_entities};

fn state(id: &str, friendly: Option<&str>) -> EntityState {
    let attrs = match friendly {
        Some(f) => AttrValue::Object(
            vec![("friendly_name".to_string(), AttrValue::Text(f.to_string()))],
            format!("{{\"friendly_name\":\"{f}\"}}"),
        ),
        None => AttrValue::Object(Vec::new(), "{}".to_string()),
    };
    EntityState { entity_id: id.to_string(), state: "on".to_string(), attributes: attrs, last_changed: None, last_updated: None }
}

fn runtime(alias: &str, states: Vec<EntityState>) -> InstanceRuntime {
    let mut rt = InstanceRuntime::new(alias.to_string(), "ws://x".to_string());
    rt.set_initial_states(states);
    rt
}

fn runtimes() -> Vec<InstanceRuntime> {
    vec![
        runtime(
            "home",
            vec![
                state("switch.fan", Some("Ceiling Fan")),
                state("light.kitchen", Some("Kitchen Light")),
                state("media_player.tv", None),
                state("light.bed", Some("Bedroom")),
            ],
        ),
        runtime("cabin", vec![state("light.porch", None)]),
    ]
}

fn ids(p: &[ha_tui::search::EntityPick]) -> Vec<&str> {
    p.iter().map(|x| x.entity_id.as_str()).collect()
}

#[test]
fn search_all_sorted() {
    let r = entity_search(&runtimes(), "home", "");
    assert_eq!(ids(&r), vec!["light.bed", "light.kitchen", "media_player.tv", "switch.fan"]);
}

#[test]
fn search_matches_friendly_name_ignoring_case() {
    let r = entity_search(&runtimes(), "home", "KITCHEN");
    assert_eq!(ids(&r), vec!["light.kitchen"]);
    assert_eq!(r[0].friendly_name, "Kitchen Light");
    let r = entity_search(&runtimes(), "home", "fan");
    assert_eq!(ids(&r), vec!["switch.fan"]);
}

#[test]
fn search_with_domain_prefix() {
    let r = entity_search_filtered(&runtimes(), "home", "", Some("media_player."));
    assert_eq!(ids(&r), vec!["media_player.tv"]);
    assert_eq!(r[0].friendly_name, "");
}

#[test]
fn search_unknown_instance_empty() {
    assert!(entity_search(&runtimes(), "nowhere", "").is_empty());
}

#[test]
fn find_runtime_by_alias() {
    let rts = runtimes();
    assert_eq!(find_runtime(&rts, "cabin").unwrap().alias, "cabin");
    assert!(find_runtime(&rts, "x").is_none());
}

#[test]
fn case_insensitive_contains() {
    assert!(contains_ignore_ascii_case("Sensor.Temp", "temp"));
    assert!(contains_ignore_ascii_case("abc", ""));
    assert!(!contains_ignore_ascii_case("abc", "abcd"));
    assert!(!contains_ignore_ascii_case("Ünïcode", "üni"));
}

fn card(kind: CardKind) -> Card {
    Card { id: CardId(1), kind, pos: None, height: None, color: None, size: CardSize::Normal }
}

#[test]
fn list_entities_of_entity_list() {
    let c = card(CardKind::EntityList {
        instance: "home".to_string(),
        entities: vec![
            EntityListItem::Bare("light.a".to_string()),
            EntityListItem::Full { entity: "light.b".to_string(), name: Some("B".to_string()), hide_state: None },
        ],
        title: None,
    });
    let (inst, ids) = list_entities(&c, &runtimes()).unwrap();
    assert_eq!(inst, "home");
    assert_eq!(ids, vec!["light.a".to_string(), "light.b".to_string()]);
}

#[test]
fn list_entities_of_filtered_list() {
    let c = card(CardKind::FilteredEntityList {
        instance: "home".to_string(),
        query: "light.*".to_string(),
        hide_state: false,
        hide_when_empty: false,
        title: None,
        overrides: Vec::new(),
    });
    let (inst, ids) = list_entities(&c, &runtimes()).unwrap();
    assert_eq!(inst, "home");
    assert_eq!(ids, vec!["light.bed".to_string(), "light.kitchen".to_string()]);
}

#[test]
fn list_entities_of_other_card_is_none() {
    let c = card(CardKind::Text { markdown: String::new(), title: None });
    assert!(list_entities(&c, &runtimes()).is_none());
}

#[test]
fn initial_states_sorted_by_id_and_deduplicated() {
    let mut rt = InstanceRuntime::new("home".to_string(), "ws://x".to_string());
    rt.set_initial_states(vec![state("switch.b", None), state("light.a", Some("A")), state("switch.b", Some("B"))]);
    let keys: Vec<&str> = rt.states.keys().map(|k| k.as_str()).collect();
    assert_eq!(keys, vec!["light.a", "switch.b"]);
    let b = rt.states.get("switch.b").unwrap();
    assert!(matches!(&b.attributes, AttrValue::Object(e, _) if e.len() == 1));
}

#[test]
fn update_replaces_in_place_or_appends() {
    let mut rt = InstanceRuntime::new("home".to_string(), "ws://x".to_string());
    rt.set_initial_states(vec![state("light.a", None), state("light.b", None)]);
    let mut changed = state("light.a", None);
    changed.state = "off".to_string();
    rt.apply_update(changed);
    rt.apply_update(state("light.0", None));
    let keys: Vec<&str> = rt.states.keys().map(|k| k.as_str()).collect();
    assert_eq!(keys, vec!["light.a", "light.b", "light.0"]);
    assert_eq!(rt.states.get("light.a").unwrap().state, "off");
}
