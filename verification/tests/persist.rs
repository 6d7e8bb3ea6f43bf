use ha_tui::dashboard::{
    BarOrientation, Card, CardId, CardKind, CardSize, Dashboard, DashboardFile, DashboardLayout, GraphType, Grid,
    GridColumn, GridRow, Pos, RowHeight,
};
use ha_tui::persist::{default_path, finish_load, LoadError};

fn card(id: u64, kind: CardKind) -> Card {
    Card { id: CardId(id), kind, pos: Some(Pos { col: 0, row: 0, w: 2, h: 2 }), height: None, color: None, size: CardSize::Normal }
}

fn text() -> CardKind {
    CardKind::Text { markdown: String::new(), title: None }
}

fn graph(entity: Option<&str>) -> CardKind {
    CardKind::Graph {
        instance: "home".to_string(),
        entity: entity.map(|e| e.to_string()),
        entities: Vec::new(),
        graph_type: GraphType::Line,
        window: "1h".to_string(),
        orientation: BarOrientation::Vertical,
        title: None,
    }
}

fn free(name: &str, cards: Vec<Card>) -> Dashboard {
    Dashboard { name: name.to_string(), layout: DashboardLayout::Free { grid: Grid { cols: 12, rows: 8 }, cards } }
}

fn ids(d: &Dashboard) -> Vec<u64> {
    d.cards_iter().iter().map(|c| c.id.0).collect()
}

#[test]
fn zero_ids_get_fresh_ids_file_wide() {
    let f = DashboardFile {
        dashboards: vec![
            free("a", vec![card(0, text()), card(7, text())]),
            free("b", vec![card(3, text()), card(0, text()), card(0, text())]),
        ],
    };
    let f = finish_load(f).unwrap();
    assert_eq!(ids(&f.dashboards[0]), vec![8, 7]);
    assert_eq!(ids(&f.dashboards[1]), vec![3, 9, 10]);
}

#[test]
fn legacy_graph_entity_becomes_series() {
    let f = DashboardFile { dashboards: vec![free("a", vec![card(1, graph(Some("sensor.temp")))])] };
    let f = finish_load(f).unwrap();
    match &f.dashboards[0].cards_iter()[0].kind {
        CardKind::Graph { entity, entities, .. } => {
            assert!(entity.is_none());
            assert_eq!(entities.len(), 1);
            assert_eq!(entities[0].entity, "sensor.temp");
        },
        _ => panic!("wrong variant"),
    }
}

#[test]
fn graph_without_entities_refused() {
    let grid = Dashboard {
        name: "g".to_string(),
        layout: DashboardLayout::Grid {
            rows: vec![GridRow {
                height: RowHeight::Auto,
                fill_height: None,
                columns: vec![
                    GridColumn { fill_height: None, cards: vec![card(1, text())] },
                    GridColumn { fill_height: None, cards: vec![card(2, graph(None))] },
                ],
            }],
        },
    };
    let f = DashboardFile { dashboards: vec![free("a", vec![card(0, text())]), grid] };
    let err = finish_load(f).unwrap_err();
    assert_eq!(err, LoadError::GraphWithoutEntities { dashboard: 1, card: 1 });
    assert_eq!(err.message(), "dashboard 1 card 1 graph has no entities");
}

#[test]
fn empty_file_loads() {
    let f = finish_load(DashboardFile { dashboards: vec![] }).unwrap();
    assert!(f.dashboards.is_empty());
}

#[test]
fn error_message_has_decimal_indices() {
    let e = LoadError::GraphWithoutEntities { dashboard: 12, card: 305 };
    assert_eq!(e.message(), "dashboard 12 card 305 graph has no entities");
}

#[test]
fn default_path_is_dashboards_yaml() {
    let p = default_path(Some("/cfg".to_string())).unwrap();
    assert_eq!(p, "/cfg/dashboards.yaml");
    assert_eq!(default_path(Some("/cfg/".to_string())).unwrap(), "/cfg/dashboards.yaml");
    assert!(default_path(None).is_none());
}
