use ha_tui::builder::{build_card_kind, build_typed_card, domain_prefix_for_type, find_free_cell, picker_mode_for, GAUGE_DEFAULT_MAX};
use ha_tui::dashboard::{BarOrientation, CardKind, EntityListItem, GraphType, Grid, Pos, RawF64};
use ha_tui::editor::{CardTypeStub, EditorMode, FilterFocus};

#[test]
fn domain_prefixes() {
    assert_eq!(domain_prefix_for_type(CardTypeStub::MediaPlayer), Some("media_player."));
    assert_eq!(domain_prefix_for_type(CardTypeStub::Weather), Some("weather."));
    assert_eq!(domain_prefix_for_type(CardTypeStub::Image), None);
    assert_eq!(domain_prefix_for_type(CardTypeStub::Entity), None);
}

#[test]
fn picker_modes() {
    assert!(matches!(
        picker_mode_for(CardTypeStub::EntityList, "home".to_string()),
        EditorMode::PickingMulti { ref instance, ref query, selected: 0, ref picked } if instance == "home" && query.is_empty() && picked.is_empty()
    ));
    assert!(matches!(
        picker_mode_for(CardTypeStub::FilteredEntityList, "home".to_string()),
        EditorMode::EditingFilterQuery { hide_state: false, focus: FilterFocus::Query, .. }
    ));
    assert!(matches!(
        picker_mode_for(CardTypeStub::Gauge, "home".to_string()),
        EditorMode::PickingEntity { card_type: CardTypeStub::Gauge, selected: 0, .. }
    ));
}

#[test]
fn gauge_defaults() {
    let k = build_typed_card(CardTypeStub::Gauge, "home".to_string(), "sensor.t".to_string(), None);
    match k {
        CardKind::Gauge { min, max, needle, unit, severity, .. } => {
            assert_eq!(min, RawF64(0));
            assert_eq!(max, RawF64(GAUGE_DEFAULT_MAX));
            assert_eq!(f64::from_bits(max.0), 100.0);
            assert!(needle && unit.is_none() && severity.is_none());
        },
        _ => panic!("wrong variant"),
    }
}

#[test]
fn graph_defaults() {
    let k = build_typed_card(CardTypeStub::Graph, "home".to_string(), "sensor.t".to_string(), Some("T".to_string()));
    match k {
        CardKind::Graph { entity, entities, graph_type, window, orientation, title, .. } => {
            assert_eq!(entity.as_deref(), Some("sensor.t"));
            assert!(entities.is_empty());
            assert_eq!(graph_type, GraphType::Line);
            assert_eq!(window, "1h");
            assert_eq!(orientation, BarOrientation::Vertical);
            assert_eq!(title.as_deref(), Some("T"));
        },
        _ => panic!("wrong variant"),
    }
}

#[test]
fn entity_list_with_one_item() {
    let k = build_typed_card(CardTypeStub::EntityList, "home".to_string(), "light.a".to_string(), None);
    match k {
        CardKind::EntityList { entities, .. } => {
            assert_eq!(entities.len(), 1);
            assert!(matches!(&entities[0], EntityListItem::Bare(e) if e == "light.a"));
        },
        _ => panic!("wrong variant"),
    }
}

#[test]
fn card_from_reference() {
    match build_card_kind(CardTypeStub::Toggle, " cabin/light.porch ", Some("home")).unwrap() {
        CardKind::Toggle { instance, entity, title } => {
            assert_eq!(instance, "cabin");
            assert_eq!(entity, "light.porch");
            assert!(title.is_none());
        },
        _ => panic!("wrong variant"),
    }
    match build_card_kind(CardTypeStub::Entity, "light.x", Some("home")).unwrap() {
        CardKind::Entity { instance, entity, ticker, .. } => {
            assert_eq!(instance, "home");
            assert_eq!(entity, "light.x");
            assert!(!ticker);
        },
        _ => panic!("wrong variant"),
    }
    assert!(build_card_kind(CardTypeStub::Entity, "light.x", None).is_none());
    assert!(build_card_kind(CardTypeStub::Entity, "   ", Some("home")).is_none());
    match build_card_kind(CardTypeStub::Text, "  # hi  ", None).unwrap() {
        CardKind::Text { markdown, title } => {
            assert_eq!(markdown, "# hi");
            assert!(title.is_none());
        },
        _ => panic!("wrong variant"),
    }
}

#[test]
fn free_cell_scan_order() {
    let grid = Grid { cols: 12, rows: 8 };
    assert_eq!(find_free_cell(grid, &[], 3, 2), Some(Pos { col: 0, row: 0, w: 3, h: 2 }));
    let occ = [Pos { col: 0, row: 0, w: 3, h: 2 }, Pos { col: 4, row: 0, w: 8, h: 1 }];
    assert_eq!(find_free_cell(grid, &occ, 3, 2), Some(Pos { col: 3, row: 1, w: 3, h: 2 }));
    assert_eq!(find_free_cell(Grid { cols: 2, rows: 2 }, &[], 3, 2), None);
    let full = [Pos { col: 0, row: 0, w: 12, h: 8 }];
    assert_eq!(find_free_cell(grid, &full, 1, 1), None);
}
