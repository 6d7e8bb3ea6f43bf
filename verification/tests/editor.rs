use ha_tui::dashboard::{Card, CardId, CardKind, CardSize, Dashboard, DashboardLayout, Grid, Pos};
use ha_tui::editor::{card_at, EditorState, MAX_UNDO};

fn text(id: u64, pos: Pos, body: &str) -> Card {
    Card {
        id: CardId(id),
        pos: Some(pos),
        height: None,
        kind: CardKind::Text { markdown: body.to_string(), title: None },
        color: None,
        size: CardSize::Normal,
    }
}

fn make_dash() -> Dashboard {
    Dashboard {
        name: "t".to_string(),
        layout: DashboardLayout::Free {
            grid: Grid { cols: 12, rows: 8 },
            cards: vec![
                text(1, Pos { col: 0, row: 0, w: 3, h: 2 }, "a"),
                text(2, Pos { col: 4, row: 0, w: 2, h: 2 }, "b"),
            ],
        },
    }
}

#[test]
fn card_at_hits() {
    let d = make_dash();
    assert_eq!(card_at(&d, 1, 1), Some(0));
    assert_eq!(card_at(&d, 4, 0), Some(1));
    assert_eq!(card_at(&d, 7, 0), None);
}

#[test]
fn move_clamps_to_grid() {
    let d = make_dash();
    let mut e = EditorState::new(0, None);
    e.cursor_col = 11;
    e.cursor_row = 7;
    e.move_cursor(5, 5, &d);
    assert_eq!(e.cursor_col, 11);
    assert_eq!(e.cursor_row, 7);
}

#[test]
fn delete_removes_card() {
    let mut d = make_dash();
    let mut e = EditorState::new(0, None);
    e.selected_card = Some(1);
    e.delete_selected(&mut d);
    assert_eq!(d.card_count(), 1);
}

#[test]
fn undo_restores() {
    let mut d = make_dash();
    let mut e = EditorState::new(0, None);
    e.snapshot(&d);
    d.remove_card_at_free(d.card_count() - 1);
    assert_eq!(d.card_count(), 1);
    e.undo(&mut d);
    assert_eq!(d.card_count(), 2);
}

#[test]
fn undo_stack_keeps_at_most_max() {
    let d = make_dash();
    let mut e = EditorState::new(0, None);
    for _ in 0..(MAX_UNDO + 5) {
        e.snapshot(&d);
    }
    assert_eq!(e.undo_stack.len(), MAX_UNDO);
}

#[test]
fn undo_with_empty_stack_does_nothing() {
    let mut d = make_dash();
    let mut e = EditorState::new(0, None);
    assert!(!e.undo(&mut d));
    assert_eq!(d.card_count(), 2);
}

#[test]
fn move_cursor_clamps_at_zero() {
    let d = make_dash();
    let mut e = EditorState::new(0, None);
    e.move_cursor(-3, -1, &d);
    assert_eq!(e.cursor_col, 0);
    assert_eq!(e.cursor_row, 0);
    e.move_cursor(4, 2, &d);
    assert_eq!(e.cursor_col, 4);
    assert_eq!(e.cursor_row, 2);
}

#[test]
fn select_at_cursor_picks_card_under_it() {
    let d = make_dash();
    let mut e = EditorState::new(0, None);
    e.cursor_col = 5;
    e.cursor_row = 1;
    e.select_at_cursor(&d);
    assert_eq!(e.selected_card, Some(1));
    e.cursor_col = 10;
    e.select_at_cursor(&d);
    assert_eq!(e.selected_card, None);
}

#[test]
fn add_card_on_free_canvas_lands_at_cursor() {
    let mut d = make_dash();
    let mut e = EditorState::new(0, None);
    e.cursor_col = 6;
    e.cursor_row = 4;
    e.add_card(&mut d, CardKind::Text { markdown: String::new(), title: None });
    assert_eq!(d.card_count(), 3);
    let c = d.card(2).unwrap();
    assert_eq!(c.id, CardId(3));
    assert_eq!(c.pos.unwrap().col, 6);
    assert_eq!(c.pos.unwrap().row, 4);
    assert!(e.dirty);
}
