use ha_tui::dashboard::{Card, CardId, CardKind, CardSize, Dashboard, DashboardLayout, Grid, GridColumn, GridRow, Pos, RowHeight};
use ha_tui::dashboard_file::{
    layout_fields, layout_from_fields, row_height_from_i64, row_height_from_str, row_height_from_u64, LayoutError, LayoutFields,
};
use ha_tui::editor::EditorState;
use ha_tui::mouse::MouseKind;

fn text(id: u64, pos: Option<Pos>) -> Card {
    Card { id: CardId(id), pos, height: None, kind: CardKind::Text { markdown: "x".to_string(), title: None }, color: None, size: CardSize::Normal }
}

fn row() -> GridRow {
    GridRow { height: RowHeight::Auto, fill_height: None, columns: vec![GridColumn { fill_height: None, cards: vec![text(1, None)] }] }
}

fn fields(t: Option<&str>, grid: bool, cards: bool, rows: bool) -> LayoutFields {
    LayoutFields {
        layout_type: t.map(|s| s.to_string()),
        grid: if grid { Some(Grid { cols: 12, rows: 8 }) } else { None },
        cards: if cards { Some(vec![text(1, Some(Pos { col: 0, row: 0, w: 2, h: 2 }))]) } else { None },
        rows: if rows { Some(vec![row()]) } else { None },
    }
}

fn err(f: LayoutFields) -> String {
    match layout_from_fields(f) {
        Err(e) => e.message(),
        Ok(_) => panic!("expected an error"),
    }
}

#[test]
fn grid_and_cards_give_a_free_layout() {
    match layout_from_fields(fields(None, true, true, false)) {
        Ok(DashboardLayout::Free { grid, cards }) => {
            assert_eq!(grid.cols, 12);
            assert_eq!(cards.len(), 1);
        }
        _ => panic!("expected a free layout"),
    }
    match layout_from_fields(fields(Some("free"), true, false, false)) {
        Ok(DashboardLayout::Free { cards, .. }) => assert!(cards.is_empty()),
        _ => panic!("expected a free layout"),
    }
}

#[test]
fn rows_give_a_grid_layout() {
    match layout_from_fields(fields(None, false, false, true)) {
        Ok(DashboardLayout::Grid { rows }) => assert_eq!(rows.len(), 1),
        _ => panic!("expected a grid layout"),
    }
    match layout_from_fields(fields(Some("grid"), false, false, false)) {
        Ok(DashboardLayout::Grid { rows }) => assert!(rows.is_empty()),
        _ => panic!("expected a grid layout"),
    }
}

#[test]
fn conflicting_layout_fields_are_refused() {
    assert_eq!(err(fields(Some("free"), true, false, true)), "dashboard has `type: free` but also `rows` — remove one");
    assert_eq!(err(fields(Some("grid"), false, true, true)), "dashboard has `type: grid` but also `grid`/`cards` fields — remove them");
    assert_eq!(
        err(fields(None, true, false, true)),
        "ambiguous dashboard layout: has both `grid`/`cards` and `rows`; add `type: free` or `type: grid`"
    );
    assert_eq!(err(fields(None, false, false, false)), "dashboard has neither `grid`/`cards` (free layout) nor `rows` (grid layout)");
    assert_eq!(err(fields(None, false, true, false)), "free dashboard has `cards` but no `grid`");
    assert_eq!(err(fields(Some("tabs"), false, false, true)), "unrecognized dashboard type Some(\"tabs\")");
    assert_eq!(err(fields(None, false, true, true)), "unrecognized dashboard type None");
    assert!(matches!(layout_from_fields(fields(Some("free"), false, true, false)), Err(LayoutError::UnknownType(Some(_)))));
}

#[test]
fn written_layouts_read_back() {
    let free = DashboardLayout::Free { grid: Grid { cols: 10, rows: 6 }, cards: vec![text(3, Some(Pos { col: 1, row: 1, w: 2, h: 2 }))] };
    match layout_from_fields(layout_fields(free)) {
        Ok(DashboardLayout::Free { grid, cards }) => {
            assert_eq!((grid.cols, grid.rows), (10, 6));
            assert_eq!(cards[0].id, CardId(3));
        }
        _ => panic!("expected the free layout back"),
    }
    let f = layout_fields(DashboardLayout::Grid { rows: vec![row(), row()] });
    assert_eq!(f.layout_type.as_deref(), Some("grid"));
    match layout_from_fields(f) {
        Ok(DashboardLayout::Grid { rows }) => assert_eq!(rows.len(), 2),
        _ => panic!("expected the grid layout back"),
    }
}

#[test]
fn row_heights_from_numbers_and_words() {
    assert_eq!(row_height_from_u64(5), RowHeight::Fixed(5));
    assert_eq!(row_height_from_u64(65541), RowHeight::Fixed(5));
    assert_eq!(row_height_from_i64(7), Ok(RowHeight::Fixed(7)));
    assert_eq!(row_height_from_i64(-3), Err("row height must be positive".to_string()));
    assert_eq!(row_height_from_i64(0), Err("row height must be positive".to_string()));
    assert_eq!(row_height_from_str("AUTO"), Ok(RowHeight::Auto));
    assert_eq!(row_height_from_str("auto"), Ok(RowHeight::Auto));
    assert_eq!(row_height_from_str("tall"), Err("expected \"auto\" or integer, got \"tall\"".to_string()));
}

fn canvas() -> Dashboard {
    Dashboard {
        name: "m".to_string(),
        layout: DashboardLayout::Free {
            grid: Grid { cols: 12, rows: 8 },
            cards: vec![text(1, Some(Pos { col: 0, row: 0, w: 3, h: 2 })), text(2, Some(Pos { col: 5, row: 4, w: 2, h: 2 }))],
        },
    }
}

fn pos_of(d: &Dashboard, i: usize) -> Pos {
    d.card(i).unwrap().pos.unwrap()
}

#[test]
fn press_selects_and_drag_moves_the_card() {
    let mut d = canvas();
    let mut e = EditorState::new(0, None);
    let mut drag = None;
    e.mouse(&mut d, 6, 5, MouseKind::Press, &mut drag);
    assert_eq!(e.selected_card, Some(1));
    assert_eq!(drag, Some((6, 5)));
    assert_eq!((e.cursor_col, e.cursor_row), (6, 5));
    e.mouse(&mut d, 8, 1, MouseKind::Drag, &mut drag);
    assert_eq!((pos_of(&d, 1).col, pos_of(&d, 1).row), (8, 1));
    assert_eq!(e.undo_stack.len(), 1);
    assert!(e.dirty);
    e.mouse(&mut d, 11, 7, MouseKind::Drag, &mut drag);
    assert_eq!((pos_of(&d, 1).col, pos_of(&d, 1).row), (10, 6));
    e.mouse(&mut d, 11, 7, MouseKind::Release, &mut drag);
    assert_eq!(drag, None);
    assert!(e.undo(&mut d));
    assert_eq!((pos_of(&d, 1).col, pos_of(&d, 1).row), (8, 1));
}

#[test]
fn press_on_empty_cell_clears_the_selection_and_drag_does_nothing() {
    let mut d = canvas();
    let mut e = EditorState::new(0, None);
    e.selected_card = Some(0);
    let mut drag = None;
    e.mouse(&mut d, 10, 0, MouseKind::Press, &mut drag);
    assert_eq!(e.selected_card, None);
    e.mouse(&mut d, 2, 2, MouseKind::Drag, &mut drag);
    assert_eq!(e.undo_stack.len(), 0);
    assert_eq!((pos_of(&d, 0).col, pos_of(&d, 0).row), (0, 0));
    e.mouse(&mut d, 3, 3, MouseKind::Other, &mut drag);
    assert_eq!(drag, Some((10, 0)));
    assert_eq!((e.cursor_col, e.cursor_row), (3, 3));
}
