use ha_tui::dashboard::{
    Card, CardId, CardKind, CardSize, Dashboard, DashboardLayout, GraphType, BarOrientation, GridColumn, GridRow,
    NavDir, RowHeight,
};

fn text_card(id: u64) -> Card {
    Card {
        id: CardId(id),
        kind: CardKind::Text { markdown: String::new(), title: None },
        pos: None,
        height: None,
        color: None,
        size: CardSize::Normal,
    }
}

fn make_grid_dashboard(col_card_counts: &[&[usize]]) -> Dashboard {
    let mut next_id = 1u64;
    let mut rows = Vec::new();
    for cols in col_card_counts {
        let mut columns = Vec::new();
        for &n in cols.iter() {
            let mut cards = Vec::new();
            for _ in 0..n {
                cards.push(text_card(next_id));
                next_id += 1;
            }
            columns.push(GridColumn { fill_height: None, cards });
        }
        rows.push(GridRow { height: RowHeight::Fixed(10), fill_height: None, columns });
    }
    Dashboard { name: "test".to_string(), layout: DashboardLayout::Grid { rows } }
}

#[test]
fn neighbor_up_down_within_column() {
    let dash = make_grid_dashboard(&[&[3]]);
    assert_eq!(dash.neighbor(0, NavDir::Up), None, "top of col stays");
    assert_eq!(dash.neighbor(0, NavDir::Down), Some(1));
    assert_eq!(dash.neighbor(1, NavDir::Up), Some(0));
    assert_eq!(dash.neighbor(2, NavDir::Down), None, "bottom of col stays");
}

#[test]
fn neighbor_left_right_between_columns() {
    let dash = make_grid_dashboard(&[&[2, 2, 2]]);
    assert_eq!(dash.neighbor(0, NavDir::Left), None, "leftmost col stays");
    assert_eq!(dash.neighbor(0, NavDir::Right), Some(2), "go to col 1 pos 0");
    assert_eq!(dash.neighbor(3, NavDir::Left), Some(1), "col 1 pos 1 → col 0 pos 1");
    assert_eq!(dash.neighbor(4, NavDir::Right), None);
}

#[test]
fn neighbor_wraps_row_boundary() {
    let dash = make_grid_dashboard(&[&[2], &[2]]);
    assert_eq!(dash.neighbor(0, NavDir::Left), None);
    assert_eq!(dash.neighbor(0, NavDir::Right), Some(2));
    assert_eq!(dash.neighbor(2, NavDir::Left), Some(0));
    assert_eq!(dash.neighbor(2, NavDir::Right), None);
}

#[test]
fn flat_idx_roundtrip() {
    let dash = make_grid_dashboard(&[&[1, 1], &[2]]);
    assert_eq!(dash.flat_idx_from_grid(0, 0, 0), Some(0));
    assert_eq!(dash.flat_idx_from_grid(0, 1, 0), Some(1));
    assert_eq!(dash.flat_idx_from_grid(1, 0, 0), Some(2));
    assert_eq!(dash.flat_idx_from_grid(1, 0, 1), Some(3));
    assert_eq!(dash.flat_idx_from_grid(1, 0, 2), None);

    assert_eq!(dash.locate_grid_flat(0), Some((0, 0, 0)));
    assert_eq!(dash.locate_grid_flat(1), Some((0, 1, 0)));
    assert_eq!(dash.locate_grid_flat(2), Some((1, 0, 0)));
    assert_eq!(dash.locate_grid_flat(3), Some((1, 0, 1)));
    assert_eq!(dash.locate_grid_flat(4), None);
}

#[test]
fn grid_structural_ops() {
    let mut dash = make_grid_dashboard(&[&[2, 1]]);
    let id0 = dash.cards_iter()[0].id;

    assert!(!dash.grid_move_row(0, false));

    dash.grid_add_row(RowHeight::Auto, 2);
    if let DashboardLayout::Grid { rows } = &dash.layout {
        assert_eq!(rows.len(), 2);
    }

    dash.grid_add_column(0);
    if let DashboardLayout::Grid { rows } = &dash.layout {
        assert_eq!(rows[0].columns.len(), 3);
    }

    assert!(dash.grid_remove_column(0, 2));
    if let DashboardLayout::Grid { rows } = &dash.layout {
        assert_eq!(rows[0].columns.len(), 2);
    }

    let before_id = dash.flat_idx_of(id0).unwrap();
    assert_eq!(before_id, 0);
    dash.grid_move_card_in_column(0, 0, 0, false);
    assert_eq!(dash.flat_idx_of(id0), Some(1));
}

#[test]
fn selection_preserved_through_row_move() {
    let mut dash = make_grid_dashboard(&[&[1], &[1]]);
    let id_row0 = dash.cards_iter()[0].id;
    dash.grid_move_row(0, false);
    assert_eq!(dash.flat_idx_of(id_row0), Some(1));
}

#[test]
fn graph_legacy_sparkline_normalizes_to_single_series() {
    let mut card = Card {
        id: CardId(0),
        kind: CardKind::Graph {
            instance: "home".to_string(),
            entity: Some("sensor.temp".to_string()),
            entities: Vec::new(),
            graph_type: GraphType::Line,
            window: "6h".to_string(),
            orientation: BarOrientation::Vertical,
            title: None,
        },
        pos: None,
        height: None,
        color: None,
        size: CardSize::Normal,
    };
    card.normalize();
    if let CardKind::Graph { entity, entities, window, .. } = &card.kind {
        assert!(entity.is_none(), "legacy entity should be cleared after normalize");
        assert_eq!(entities.len(), 1);
        assert_eq!(entities[0].entity.as_str(), "sensor.temp");
        assert_eq!(window, "6h");
    } else {
        panic!("wrong variant");
    }
}

#[test]
fn neighbor_down_then_up_returns() {
    let dash = make_grid_dashboard(&[&[3, 1], &[2]]);
    for i in 0..dash.card_count() {
        if let Some(j) = dash.neighbor(i, NavDir::Down) {
            assert_eq!(dash.neighbor(j, NavDir::Up), Some(i));
        }
    }
}

#[test]
fn row_move_there_and_back_restores_order() {
    let mut dash = make_grid_dashboard(&[&[2], &[1, 1], &[3]]);
    let before: Vec<u64> = dash.cards_iter().iter().map(|c| c.id.0).collect();
    assert!(dash.grid_move_row(1, true));
    assert!(dash.grid_move_row(0, false));
    let after: Vec<u64> = dash.cards_iter().iter().map(|c| c.id.0).collect();
    assert_eq!(before, after);
}

#[test]
fn move_in_column_swaps_neighbours() {
    let mut dash = make_grid_dashboard(&[&[3]]);
    assert!(dash.grid_move_card_in_column(0, 0, 2, true));
    let ids: Vec<u64> = dash.cards_iter().iter().map(|c| c.id.0).collect();
    assert_eq!(ids, vec![1, 3, 2]);
    assert!(!dash.grid_move_card_in_column(0, 0, 0, true));
}

#[test]
fn next_card_id_is_one_past_max() {
    let dash = make_grid_dashboard(&[&[2], &[3]]);
    assert_eq!(dash.next_card_id(), CardId(6));
}

#[test]
fn remove_card_by_id_takes_it_out() {
    let mut dash = make_grid_dashboard(&[&[2, 1]]);
    let removed = dash.remove_card_by_id(CardId(2)).unwrap();
    assert_eq!(removed.id, CardId(2));
    assert_eq!(dash.card_count(), 2);
    assert_eq!(dash.flat_idx_of(CardId(2)), None);
    assert_eq!(dash.flat_idx_of(CardId(3)), Some(1));
}

#[test]
fn grid_remove_last_column_refused() {
    let mut dash = make_grid_dashboard(&[&[1]]);
    assert!(!dash.grid_remove_column(0, 0));
    assert_eq!(dash.card_count(), 1);
}

#[test]
fn retain_cards_keeps_rows_and_columns() {
    let mut d = make_grid_dashboard(&[&[2, 1], &[1]]);
    let before: Vec<u64> = (0..d.card_count()).map(|i| d.card(i).unwrap().id.0).collect();
    d.retain_cards(|c: &Card| c.id.0 % 2 == 0);
    let after: Vec<u64> = (0..d.card_count()).map(|i| d.card(i).unwrap().id.0).collect();
    assert_eq!(after, before.iter().copied().filter(|id| id % 2 == 0).collect::<Vec<u64>>());
    match &d.layout {
        DashboardLayout::Grid { rows } => {
            assert_eq!(rows.len(), 2);
            assert_eq!(rows[0].columns.len(), 2);
        }
        _ => panic!("expected a grid"),
    }
}

#[test]
fn retain_cards_on_a_free_canvas() {
    let mut d = Dashboard {
        name: "f".to_string(),
        layout: DashboardLayout::Free {
            grid: ha_tui::dashboard::Grid { cols: 12, rows: 8 },
            cards: vec![text_card(1), text_card(2), text_card(3)],
        },
    };
    d.retain_cards(|c: &Card| c.id != CardId(2));
    assert_eq!(d.card_count(), 2);
    assert_eq!(d.card(1).unwrap().id, CardId(3));
    let mut e = make_grid_dashboard(&[&[1]]);
    e.retain_cards(|_: &Card| false);
    assert_eq!(e.card_count(), 0);
}

#[test]
fn card_by_id_mut_edits_the_card() {
    let mut d = make_grid_dashboard(&[&[1, 2]]);
    let id = d.card(2).unwrap().id;
    d.card_by_id_mut(id).unwrap().color = Some("red".to_string());
    assert_eq!(d.card(2).unwrap().color.as_deref(), Some("red"));
    assert!(d.card_by_id_mut(CardId(999)).is_none());
}
