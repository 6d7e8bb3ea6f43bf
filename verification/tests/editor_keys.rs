use ha_tui::dashboard::{Card, CardId, CardKind, CardSize, Dashboard, DashboardLayout, Grid, GridColumn, GridRow, NavDir, Pos, RowHeight};
use ha_tui::edit_keys::EditResult;
use ha_tui::editor::{EditorMode, EditorState, GridFocus, MenuAction, MenuContext};
use ha_tui::wizard::{Key, KeyResult};
use ha_tui::editor_route::{shown_after, EditorKey};

fn text(id: u64, pos: Option<Pos>, body: &str) -> Card {
    Card {
        id: CardId(id),
        pos,
        height: None,
        kind: CardKind::Text { markdown: body.to_string(), title: None },
        color: None,
        size: CardSize::Normal,
    }
}

fn free_dash() -> Dashboard {
    Dashboard {
        name: "t".to_string(),
        layout: DashboardLayout::Free {
            grid: Grid { cols: 12, rows: 8 },
            cards: vec![
                text(1, Some(Pos { col: 0, row: 0, w: 3, h: 2 }), "a"),
                text(2, Some(Pos { col: 4, row: 0, w: 2, h: 2 }), "b"),
            ],
        },
    }
}

/// Two rows: the first with columns of two and one cards, the second with
/// one empty column.
fn grid_dash() -> Dashboard {
    Dashboard {
        name: "g".to_string(),
        layout: DashboardLayout::Grid {
            rows: vec![
                GridRow {
                    height: RowHeight::Auto,
                    fill_height: None,
                    columns: vec![
                        GridColumn { fill_height: None, cards: vec![text(1, None, "a"), text(2, None, "b")] },
                        GridColumn { fill_height: None, cards: vec![text(3, None, "c")] },
                    ],
                },
                GridRow {
                    height: RowHeight::Fixed(5),
                    fill_height: None,
                    columns: vec![GridColumn { fill_height: None, cards: vec![] }],
                },
            ],
        },
    }
}

fn press(e: &mut EditorState, d: &mut Dashboard, key: Key) -> KeyResult {
    e.wizard_key(key, d, &Vec::new())
}

#[test]
fn picking_type_esc_returns_to_browse() {
    let mut d = free_dash();
    let mut e = EditorState::new(0, None);
    e.mode = EditorMode::PickingType { selected: 2 };
    assert!(matches!(press(&mut e, &mut d, Key::Esc), KeyResult::Done));
    assert!(matches!(e.mode, EditorMode::Browse));
    assert_eq!(d.card_count(), 2);
}

#[test]
fn browse_is_not_a_wizard_step() {
    let mut d = free_dash();
    let mut e = EditorState::new(0, None);
    assert!(matches!(press(&mut e, &mut d, Key::Enter), KeyResult::NotMine));
    assert!(matches!(e.edit_key(Key::Enter, &mut d), EditResult::NotMine));
    assert!(matches!(e.mode, EditorMode::Browse));
}

#[test]
fn clock_flow_adds_clock_card() {
    let mut d = free_dash();
    let mut e = EditorState::new(0, None);
    e.mode = EditorMode::ClockAddTitle { title_buffer: String::new() };
    for c in "Kitchen x".chars() {
        press(&mut e, &mut d, Key::Char(c));
    }
    press(&mut e, &mut d, Key::Backspace);
    press(&mut e, &mut d, Key::Backspace);
    press(&mut e, &mut d, Key::Enter);
    match &e.mode {
        EditorMode::ClockAddFormat { title, format_buffer } => {
            assert_eq!(title.as_deref(), Some("Kitchen"));
            assert_eq!(format_buffer, "%H:%M:%S");
        }
        other => panic!("unexpected mode {:?}", other),
    }
    press(&mut e, &mut d, Key::Enter);
    for c in " Europe/Paris ".chars() {
        press(&mut e, &mut d, Key::Char(c));
    }
    assert!(matches!(press(&mut e, &mut d, Key::Enter), KeyResult::Done));
    assert!(matches!(e.mode, EditorMode::Browse));
    assert_eq!(d.card_count(), 3);
    match &d.card(2).unwrap().kind {
        CardKind::Clock { format, timezone, title } => {
            assert_eq!(format, "%H:%M:%S");
            assert_eq!(timezone.as_deref(), Some("Europe/Paris"));
            assert_eq!(title.as_deref(), Some("Kitchen"));
        }
        other => panic!("unexpected card {:?}", other),
    }
    assert_eq!(d.card(2).unwrap().id, CardId(3));
    assert!(e.dirty);
}

#[test]
fn clock_flow_esc_adds_nothing() {
    let mut d = free_dash();
    let mut e = EditorState::new(0, None);
    e.mode = EditorMode::ClockAddFormat { title: None, format_buffer: String::new() };
    press(&mut e, &mut d, Key::Esc);
    assert!(matches!(e.mode, EditorMode::Browse));
    assert_eq!(d.card_count(), 2);
}

#[test]
fn confirm_exit_yes_exits_no_returns() {
    let mut d = free_dash();
    let mut e = EditorState::new(0, None);
    e.mode = EditorMode::ConfirmExit;
    assert!(matches!(e.edit_key(Key::Char('x'), &mut d), EditResult::Done));
    assert!(matches!(e.mode, EditorMode::ConfirmExit));
    assert!(matches!(e.edit_key(Key::Char('y'), &mut d), EditResult::Exit));
    e.mode = EditorMode::ConfirmExit;
    assert!(matches!(e.edit_key(Key::Char('n'), &mut d), EditResult::Done));
    assert!(matches!(e.mode, EditorMode::Browse));
}

#[test]
fn confirm_delete_removes_selected_card() {
    let mut d = free_dash();
    let mut e = EditorState::new(0, None);
    e.selected_card = Some(0);
    e.mode = EditorMode::ConfirmDelete;
    assert!(matches!(e.edit_key(Key::Char('Y'), &mut d), EditResult::Done));
    assert_eq!(d.card_count(), 1);
    assert_eq!(d.card(0).unwrap().id, CardId(2));
}

#[test]
fn renaming_dashboard_trims_and_ignores_blank() {
    let mut d = free_dash();
    let mut e = EditorState::new(0, None);
    e.mode = EditorMode::Renaming { buffer: "  ".to_string() };
    e.edit_key(Key::Enter, &mut d);
    assert_eq!(d.name, "t");
    e.mode = EditorMode::Renaming { buffer: " Home ".to_string() };
    e.edit_key(Key::Enter, &mut d);
    assert_eq!(d.name, "Home");
    assert!(matches!(e.mode, EditorMode::Browse));
}

#[test]
fn resizing_grid_takes_digits_only() {
    let mut d = free_dash();
    let mut e = EditorState::new(0, None);
    e.mode = EditorMode::ResizingGrid { cols_buffer: String::new(), rows_buffer: String::new(), focus_rows: false };
    for k in [Key::Char('2'), Key::Char('x'), Key::Char('0'), Key::Tab, Key::Char('9')] {
        e.edit_key(k, &mut d);
    }
    match &e.mode {
        EditorMode::ResizingGrid { cols_buffer, rows_buffer, focus_rows } => {
            assert_eq!(cols_buffer, "20");
            assert_eq!(rows_buffer, "9");
            assert!(*focus_rows);
        }
        other => panic!("unexpected mode {:?}", other),
    }
    e.edit_key(Key::Enter, &mut d);
    match &d.layout {
        DashboardLayout::Free { grid, .. } => {
            assert_eq!(grid.cols, 20);
            assert_eq!(grid.rows, 9);
        }
        _ => panic!("layout changed"),
    }
}

#[test]
fn pick_card_size_moves_and_applies() {
    let mut d = free_dash();
    let mut e = EditorState::new(0, None);
    e.mode = EditorMode::PickCardSize { card_idx: 1, current: CardSize::Normal };
    e.edit_key(Key::Down, &mut d);
    e.edit_key(Key::Down, &mut d);
    assert!(matches!(e.mode, EditorMode::PickCardSize { current: CardSize::Large, .. }));
    e.edit_key(Key::Char('k'), &mut d);
    e.edit_key(Key::Enter, &mut d);
    assert_eq!(d.card(1).unwrap().size, CardSize::Normal);
    e.mode = EditorMode::PickCardSize { card_idx: 1, current: CardSize::Small };
    e.edit_key(Key::Up, &mut d);
    e.edit_key(Key::Enter, &mut d);
    assert_eq!(d.card(1).unwrap().size, CardSize::Small);
    assert_eq!(e.undo_stack.len(), 2);
}

#[test]
fn navigate_free_canvas_clamps() {
    let d = free_dash();
    let mut e = EditorState::new(0, None);
    e.navigate(NavDir::Left, &d);
    e.navigate(NavDir::Up, &d);
    assert_eq!((e.cursor_col, e.cursor_row), (0, 0));
    e.navigate(NavDir::Right, &d);
    e.navigate(NavDir::Down, &d);
    assert_eq!((e.cursor_col, e.cursor_row), (1, 1));
}

#[test]
fn navigate_grid_walks_rows_columns_cards() {
    let d = grid_dash();
    let mut e = EditorState::new(0, None);
    e.navigate(NavDir::Right, &d);
    assert_eq!(e.grid_focus, Some(GridFocus::Column { row: 0, col: 0 }));
    assert_eq!(e.selected_card, None);
    e.navigate(NavDir::Down, &d);
    assert_eq!(e.grid_focus, Some(GridFocus::Card { row: 0, col: 0, pos_in_col: 0 }));
    assert_eq!(e.selected_card, Some(0));
    e.navigate(NavDir::Down, &d);
    assert_eq!(e.selected_card, Some(1));
    e.navigate(NavDir::Down, &d);
    assert_eq!(e.grid_focus, Some(GridFocus::Card { row: 0, col: 0, pos_in_col: 1 }));
    e.navigate(NavDir::Right, &d);
    assert_eq!(e.grid_focus, Some(GridFocus::Column { row: 0, col: 0 }));
    e.navigate(NavDir::Right, &d);
    e.navigate(NavDir::Down, &d);
    assert_eq!(e.selected_card, Some(2));
    e.navigate(NavDir::Right, &d);
    e.navigate(NavDir::Right, &d);
    assert_eq!(e.grid_focus, Some(GridFocus::Row { row: 1 }));
    e.navigate(NavDir::Left, &d);
    assert_eq!(e.grid_focus, Some(GridFocus::Column { row: 0, col: 1 }));
    e.navigate(NavDir::Left, &d);
    e.navigate(NavDir::Left, &d);
    assert_eq!(e.grid_focus, Some(GridFocus::Row { row: 0 }));
    e.navigate(NavDir::Up, &d);
    assert_eq!(e.grid_focus, Some(GridFocus::Row { row: 0 }));
}

#[test]
fn focus_row_and_column_of_selected_card() {
    let d = grid_dash();
    let mut e = EditorState::new(0, None);
    e.selected_card = Some(2);
    e.focus_column(&d);
    assert_eq!(e.grid_focus, Some(GridFocus::Column { row: 0, col: 1 }));
    e.focus_row(&d);
    assert_eq!(e.grid_focus, Some(GridFocus::Row { row: 0 }));
}

fn actions(e: &EditorState) -> (MenuContext, Vec<MenuAction>) {
    match &e.mode {
        EditorMode::Menu { context, items, selected } => {
            assert_eq!(*selected, 0);
            (*context, items.iter().map(|i| i.action).collect())
        }
        other => panic!("unexpected mode {:?}", other),
    }
}

#[test]
fn open_menu_follows_focus() {
    let d = grid_dash();
    let mut e = EditorState::new(0, None);
    e.open_menu(&d);
    let (ctx, acts) = actions(&e);
    assert_eq!(ctx, MenuContext::Dashboard);
    assert_eq!(acts, vec![MenuAction::RenameDashboard, MenuAction::AddRow, MenuAction::DeleteDashboard]);

    e.grid_focus = Some(GridFocus::Row { row: 1 });
    e.open_menu(&d);
    let (ctx, acts) = actions(&e);
    assert_eq!(ctx, MenuContext::Row(1));
    assert_eq!(acts[0], MenuAction::SetRowHeight);
    assert_eq!(*acts.last().unwrap(), MenuAction::RemoveRow);

    e.grid_focus = Some(GridFocus::Card { row: 0, col: 1, pos_in_col: 0 });
    e.selected_card = Some(2);
    e.open_menu(&d);
    let (ctx, acts) = actions(&e);
    assert_eq!(ctx, MenuContext::Card(2));
    let n = acts.len();
    assert_eq!(&acts[n - 6..n - 3], &[MenuAction::MoveCardUpInColumn, MenuAction::MoveCardDownInColumn, MenuAction::MoveToColumn]);
}

#[test]
fn open_menu_free_dashboard() {
    let d = free_dash();
    let mut e = EditorState::new(0, None);
    e.open_menu(&d);
    let (ctx, acts) = actions(&e);
    assert_eq!(ctx, MenuContext::Dashboard);
    assert_eq!(acts, vec![MenuAction::RenameDashboard, MenuAction::ResizeGrid, MenuAction::DeleteDashboard]);
    e.selected_card = Some(1);
    e.open_menu(&d);
    let (ctx, acts) = actions(&e);
    assert_eq!(ctx, MenuContext::Card(1));
    assert!(!acts.contains(&MenuAction::MoveToColumn));
}

fn no_facts() -> ha_tui::detail_keys::KeyFacts {
    ha_tui::detail_keys::KeyFacts { color_ok: false, number: None, next_text: String::new() }
}

#[test]
fn editor_keys_go_to_the_handler_of_the_step() {
    let mut ds = vec![free_dash(), grid_dash()];
    let mut e = EditorState::new(1, None);
    e.mode = EditorMode::PickingType { selected: 0 };
    let r = e.editor_key(Key::Esc, &mut ds, &Vec::new(), &no_facts());
    assert!(matches!(r, EditorKey::Wizard(KeyResult::Done)));
    assert!(matches!(e.mode, EditorMode::Browse));
    assert_eq!(shown_after(&r, 1), None);
    e.mode = EditorMode::ConfirmExit;
    let r = e.editor_key(Key::Char('y'), &mut ds, &Vec::new(), &no_facts());
    assert!(matches!(r, EditorKey::Edit(EditResult::Exit)));
    assert_eq!(shown_after(&r, 1), Some(1));
    let mut b = EditorState::new(1, None);
    let r = b.editor_key(Key::Esc, &mut ds, &Vec::new(), &no_facts());
    assert!(matches!(r, EditorKey::Browse(_)));
    assert_eq!(ds.len(), 2);
}

#[test]
fn u_in_the_editor_restores_the_last_snapshot() {
    let mut ds = vec![free_dash(), grid_dash()];
    let mut e = EditorState::new(0, None);
    e.snapshot(&ds[0]);
    ds[0].name = "changed".to_string();
    let r = e.editor_key(Key::Char('u'), &mut ds, &Vec::new(), &no_facts());
    assert!(matches!(r, EditorKey::Browse(_)));
    assert_eq!(ds[0].name, "t");
    assert_eq!(ds[1].name, "g");
    assert!(e.undo_stack.is_empty());
    assert!(e.dirty);
    let mut f = EditorState::new(1, None);
    f.editor_key(Key::Char('u'), &mut ds, &Vec::new(), &no_facts());
    assert!(!f.dirty);
    assert_eq!(ds[1].name, "g");
}
