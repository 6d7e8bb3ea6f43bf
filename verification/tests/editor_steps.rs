use ha_tui::browse::BrowseResult;
use ha_tui::card_edit::CardEdit;
use ha_tui::dashboard::{
    BarOrientation, Card, CardId, CardKind, CardSize, Dashboard, DashboardLayout, EntityListItem, EntityOverride, Grid,
    GridColumn, GridRow, GraphSeries, GraphType, Pos, RawF64, RowHeight, Severity, StatsMetric,
};
use ha_tui::detail_keys::{row_height_from, DetailResult, KeyFacts};
use ha_tui::editor::{EditorMode, EditorState, GridFocus, MenuAction, MenuContext, SeriesIndexOp, SeverityAccum, TransferOp};
use ha_tui::ha::{AttrValue, EntityState, InstanceRuntime};
use ha_tui::menu::MenuOutcome;
use ha_tui::wizard::Key;
use ha_tui::screens::Screen;
use ha_tui::workspace::{enter_editor, new_dashboard, transfer_card, WorkspaceResult};

fn card(id: u64, pos: Option<Pos>, kind: CardKind) -> Card {
    Card { id: CardId(id), pos, height: None, kind, color: None, size: CardSize::Normal }
}

fn graph(series: &[&str]) -> CardKind {
    CardKind::Graph {
        instance: "home".to_string(),
        entity: None,
        entities: series.iter().map(|s| GraphSeries { entity: s.to_string(), label: None, color: None }).collect(),
        graph_type: GraphType::Line,
        window: "6h".to_string(),
        orientation: BarOrientation::Vertical,
        title: Some("Temps".to_string()),
    }
}

fn gauge() -> CardKind {
    CardKind::Gauge {
        instance: "home".to_string(),
        entity: "sensor.cpu".to_string(),
        min: RawF64(0),
        max: RawF64(0x4059_0000_0000_0000),
        unit: None,
        severity: None,
        needle: false,
        title: None,
    }
}

fn entity_list() -> CardKind {
    CardKind::EntityList {
        instance: "home".to_string(),
        entities: vec![
            EntityListItem::Bare("light.kitchen".to_string()),
            EntityListItem::Full { entity: "switch.fan".to_string(), name: Some("Fan".to_string()), hide_state: Some(true) },
        ],
        title: None,
    }
}

fn filtered() -> CardKind {
    CardKind::FilteredEntityList {
        instance: "home".to_string(),
        query: "light.*".to_string(),
        hide_state: false,
        hide_when_empty: false,
        title: None,
        overrides: vec![
            ("light.a".to_string(), EntityOverride { name: Some("A".to_string()), hide_state: None }),
            ("light.c".to_string(), EntityOverride { name: Some("C".to_string()), hide_state: None }),
        ],
    }
}

fn free_dash() -> Dashboard {
    Dashboard {
        name: "main".to_string(),
        layout: DashboardLayout::Free {
            grid: Grid { cols: 12, rows: 8 },
            cards: vec![
                card(1, Some(Pos { col: 0, row: 0, w: 3, h: 2 }), graph(&["sensor.a", "sensor.b"])),
                card(2, Some(Pos { col: 3, row: 0, w: 3, h: 2 }), gauge()),
                card(3, Some(Pos { col: 6, row: 0, w: 3, h: 2 }), entity_list()),
                card(4, Some(Pos { col: 9, row: 0, w: 3, h: 2 }), filtered()),
            ],
        },
    }
}

fn grid_dash() -> Dashboard {
    let text = |id: u64, t: &str| card(id, None, CardKind::Text { markdown: t.to_string(), title: None });
    Dashboard {
        name: "grid".to_string(),
        layout: DashboardLayout::Grid {
            rows: vec![
                GridRow {
                    height: RowHeight::Fixed(7),
                    fill_height: None,
                    columns: vec![
                        GridColumn { fill_height: None, cards: vec![text(1, "a"), text(2, "b")] },
                        GridColumn { fill_height: None, cards: vec![text(3, "c")] },
                    ],
                },
                GridRow { height: RowHeight::Auto, fill_height: None, columns: vec![GridColumn { fill_height: None, cards: vec![] }] },
            ],
        },
    }
}

fn facts() -> KeyFacts {
    KeyFacts { color_ok: true, number: None, next_text: String::new() }
}

fn typed(e: &mut EditorState, d: &mut Dashboard, text: &str, f: &KeyFacts) {
    for c in text.chars() {
        e.detail_key(Key::Char(c), d, f);
    }
}

fn series_of(d: &Dashboard, i: usize) -> Vec<(String, Option<String>, Option<String>)> {
    match &d.card(i).unwrap().kind {
        CardKind::Graph { entities, .. } => entities.iter().map(|s| (s.entity.clone(), s.label.clone(), s.color.clone())).collect(),
        _ => panic!("not a graph"),
    }
}

#[test]
fn color_override_sets_and_clears() {
    let mut d = free_dash();
    let mut e = EditorState::new(0, None);
    e.mode = EditorMode::EnterColorOverride { card_idx: 1, buf: String::new() };
    typed(&mut e, &mut d, " red ", &facts());
    assert!(matches!(e.detail_key(Key::Enter, &mut d, &facts()), DetailResult::Done));
    assert_eq!(d.card(1).unwrap().color.as_deref(), Some("red"));
    assert!(e.dirty);
    assert_eq!(e.undo_stack.len(), 1);
    e.mode = EditorMode::EnterColorOverride { card_idx: 1, buf: "   ".to_string() };
    e.detail_key(Key::Enter, &mut d, &facts());
    assert_eq!(d.card(1).unwrap().color, None);
}

#[test]
fn color_override_rejects_unknown_color() {
    let mut d = free_dash();
    let mut e = EditorState::new(0, None);
    e.mode = EditorMode::EnterColorOverride { card_idx: 1, buf: "mauve-ish".to_string() };
    let bad = KeyFacts { color_ok: false, number: None, next_text: String::new() };
    match e.detail_key(Key::Enter, &mut d, &bad) {
        DetailResult::Failed(m) => assert_eq!(m, "invalid color \"mauve-ish\" — use a named color or #rrggbb"),
        other => panic!("unexpected {:?}", other),
    }
    assert!(matches!(e.mode, EditorMode::EnterColorOverride { .. }));
    assert_eq!(d.card(1).unwrap().color, None);
    assert!(!e.dirty);
}

#[test]
fn series_pick_remove_and_relabel() {
    let mut d = free_dash();
    let mut e = EditorState::new(0, None);
    e.mode = EditorMode::GraphPickSeriesIndex { card_idx: 0, op: SeriesIndexOp::SetLabel, selected: 0 };
    e.detail_key(Key::Down, &mut d, &facts());
    e.detail_key(Key::Down, &mut d, &facts());
    assert!(matches!(e.mode, EditorMode::GraphPickSeriesIndex { selected: 1, .. }));
    e.detail_key(Key::Enter, &mut d, &facts());
    assert!(matches!(e.mode, EditorMode::GraphEditSeriesLabel { series_idx: 1, .. }));
    typed(&mut e, &mut d, "Outside", &facts());
    e.detail_key(Key::Enter, &mut d, &facts());
    assert_eq!(series_of(&d, 0)[1], ("sensor.b".to_string(), Some("Outside".to_string()), None));
    e.mode = EditorMode::GraphPickSeriesIndex { card_idx: 0, op: SeriesIndexOp::Remove, selected: 0 };
    e.detail_key(Key::Enter, &mut d, &facts());
    assert_eq!(series_of(&d, 0), vec![("sensor.b".to_string(), Some("Outside".to_string()), None)]);
}

#[test]
fn severity_flow_collects_three_thresholds() {
    let mut d = free_dash();
    let mut e = EditorState::new(0, None);
    e.mode = EditorMode::EditSeverityGreen {
        card_idx: 1,
        buf: "50".to_string(),
        accum: SeverityAccum { green: RawF64(0), yellow: RawF64(0) },
    };
    let nan = KeyFacts { color_ok: true, number: None, next_text: String::new() };
    match e.detail_key(Key::Enter, &mut d, &nan) {
        DetailResult::Failed(m) => assert_eq!(m, "invalid number — enter a numeric value"),
        other => panic!("unexpected {:?}", other),
    }
    let step = |bits: u64, next: &str| KeyFacts { color_ok: true, number: Some(RawF64(bits)), next_text: next.to_string() };
    e.detail_key(Key::Enter, &mut d, &step(1, "75"));
    match &e.mode {
        EditorMode::EditSeverityYellow { buf, accum, .. } => {
            assert_eq!(buf, "75");
            assert_eq!(accum.green, RawF64(1));
        }
        other => panic!("unexpected {:?}", other),
    }
    e.detail_key(Key::Enter, &mut d, &step(2, ""));
    e.detail_key(Key::Enter, &mut d, &step(3, ""));
    match &d.card(1).unwrap().kind {
        CardKind::Gauge { severity, .. } => {
            assert_eq!(*severity, Some(Severity { green: RawF64(1), yellow: RawF64(2), red: RawF64(3) }))
        }
        _ => panic!("not a gauge"),
    }
}

#[test]
fn filter_query_form_adds_filtered_list() {
    let mut d = free_dash();
    let mut e = EditorState::new(0, None);
    e.mode = EditorMode::EditingFilterQuery {
        instance: "home".to_string(),
        query_buffer: String::new(),
        title_buffer: String::new(),
        hide_state: false,
        focus: ha_tui::editor::FilterFocus::Query,
    };
    match e.detail_key(Key::F(2), &mut d, &facts()) {
        DetailResult::Failed(m) => assert_eq!(m, "query cannot be empty"),
        other => panic!("unexpected {:?}", other),
    }
    e.mode = EditorMode::EditingFilterQuery {
        instance: "home".to_string(),
        query_buffer: String::new(),
        title_buffer: String::new(),
        hide_state: false,
        focus: ha_tui::editor::FilterFocus::Query,
    };
    typed(&mut e, &mut d, "light.*", &facts());
    e.detail_key(Key::Tab, &mut d, &facts());
    typed(&mut e, &mut d, "Lights", &facts());
    e.detail_key(Key::Tab, &mut d, &facts());
    e.detail_key(Key::Char(' '), &mut d, &facts());
    assert!(matches!(e.detail_key(Key::F(2), &mut d, &facts()), DetailResult::Done));
    assert_eq!(d.card_count(), 5);
    match &d.card(4).unwrap().kind {
        CardKind::FilteredEntityList { query, title, hide_state, hide_when_empty, overrides, .. } => {
            assert_eq!(query, "light.*");
            assert_eq!(title.as_deref(), Some("Lights"));
            assert!(*hide_state);
            assert!(!*hide_when_empty);
            assert!(overrides.is_empty());
        }
        other => panic!("unexpected {:?}", other),
    }
}

#[test]
fn entity_list_override_promotes_and_demotes() {
    let mut d = free_dash();
    let mut e = EditorState::new(0, None);
    let items = vec![(0usize, "light.kitchen".to_string()), (1usize, "switch.fan".to_string())];
    e.mode = EditorMode::PickEntityListItemToOverride { card_idx: 2, items, selected: 0 };
    e.detail_key(Key::Char('j'), &mut d, &facts());
    e.detail_key(Key::Enter, &mut d, &facts());
    match &e.mode {
        EditorMode::EditEntityListItemOverride { item_idx, name_buf, hide_state, focus_entity_id, entity_id, .. } => {
            assert_eq!(*item_idx, 1);
            assert_eq!(name_buf, "Fan");
            assert!(*hide_state);
            assert!(!*focus_entity_id);
            assert!(entity_id.is_none());
        }
        other => panic!("unexpected {:?}", other),
    }
    for _ in 0..3 {
        e.detail_key(Key::Backspace, &mut d, &facts());
    }
    e.detail_key(Key::Tab, &mut d, &facts());
    e.detail_key(Key::Enter, &mut d, &facts());
    match &d.card(2).unwrap().kind {
        CardKind::EntityList { entities, .. } => assert!(matches!(&entities[1], EntityListItem::Bare(id) if id == "switch.fan")),
        _ => panic!("not a list"),
    }
}

#[test]
fn filtered_override_keeps_keys_sorted() {
    let mut d = free_dash();
    let mut e = EditorState::new(0, None);
    e.mode = EditorMode::EditEntityListItemOverride {
        card_idx: 3,
        item_idx: 0,
        entity_id: Some(String::new()),
        name_buf: String::new(),
        hide_state: false,
        focus_entity_id: true,
    };
    typed(&mut e, &mut d, " light.b ", &facts());
    e.detail_key(Key::Enter, &mut d, &facts());
    typed(&mut e, &mut d, "Bee", &facts());
    e.detail_key(Key::Enter, &mut d, &facts());
    let keys = |d: &Dashboard| match &d.card(3).unwrap().kind {
        CardKind::FilteredEntityList { overrides, .. } => overrides.iter().map(|(k, v)| (k.clone(), v.name.clone())).collect::<Vec<_>>(),
        _ => panic!("not filtered"),
    };
    assert_eq!(
        keys(&d),
        vec![
            ("light.a".to_string(), Some("A".to_string())),
            ("light.b".to_string(), Some("Bee".to_string())),
            ("light.c".to_string(), Some("C".to_string())),
        ]
    );
    d.edit_card(3, CardEdit::EntryOverride { item: 0, entity: Some("light.a".to_string()), name: None, hide: false });
    assert_eq!(keys(&d).len(), 2);
    assert_eq!(keys(&d)[0].0, "light.b");
}

#[test]
fn row_height_reading() {
    assert_eq!(row_height_from("auto"), Some(RowHeight::Auto));
    assert_eq!(row_height_from("12"), Some(RowHeight::Fixed(12)));
    assert_eq!(row_height_from("0"), Some(RowHeight::Fixed(1)));
    assert_eq!(row_height_from("+3"), Some(RowHeight::Fixed(3)));
    assert_eq!(row_height_from("70000"), None);
    assert_eq!(row_height_from("tall"), None);
}

#[test]
fn new_row_flow_adds_row() {
    let mut d = grid_dash();
    let mut e = EditorState::new(0, None);
    e.mode = EditorMode::PickingNewRowHeight { buf: String::new() };
    typed(&mut e, &mut d, "AU-TO", &facts());
    e.detail_key(Key::Enter, &mut d, &facts());
    match &e.mode {
        EditorMode::PickingNewRowColumnCount { height, buf } => {
            assert_eq!(*height, RowHeight::Auto);
            assert!(buf.is_empty());
        }
        other => panic!("unexpected {:?}", other),
    }
    typed(&mut e, &mut d, "3x", &facts());
    e.detail_key(Key::Enter, &mut d, &facts());
    match &d.layout {
        DashboardLayout::Grid { rows } => {
            assert_eq!(rows.len(), 3);
            assert_eq!(rows[2].columns.len(), 3);
            assert_eq!(rows[2].height, RowHeight::Auto);
        }
        _ => panic!("not a grid"),
    }
    assert!(e.dirty);
}

#[test]
fn bad_row_height_reports_error() {
    let mut d = grid_dash();
    let mut e = EditorState::new(0, None);
    e.mode = EditorMode::EditingRowHeight { row_idx: 0, buf: "big".to_string() };
    match e.detail_key(Key::Enter, &mut d, &facts()) {
        DetailResult::Failed(m) => assert_eq!(m, "enter a number or \"auto\""),
        other => panic!("unexpected {:?}", other),
    }
    assert!(matches!(e.mode, EditorMode::Browse));
}

#[test]
fn confirm_remove_column_drops_selection() {
    let mut d = grid_dash();
    let mut e = EditorState::new(0, None);
    e.selected_card = Some(2);
    e.grid_focus = Some(GridFocus::Column { row: 0, col: 1 });
    e.mode = EditorMode::ConfirmRemoveColumn { row_idx: 0, col_idx: 1 };
    e.detail_key(Key::Char('y'), &mut d, &facts());
    assert_eq!(d.card_count(), 2);
    assert_eq!(e.selected_card, None);
    assert_eq!(e.grid_focus, None);
}

#[test]
fn menu_key_picks_action() {
    let mut d = free_dash();
    let mut e = EditorState::new(0, None);
    e.selected_card = Some(0);
    e.open_menu(&d);
    e.detail_key(Key::Down, &mut d, &facts());
    let r = e.detail_key(Key::Enter, &mut d, &facts());
    assert!(matches!(e.mode, EditorMode::Browse));
    match r {
        DetailResult::Menu(a, MenuContext::Card(0)) => assert_ne!(a, MenuAction::DeleteCard),
        other => panic!("unexpected {:?}", other),
    }
}

fn runtimes() -> Vec<InstanceRuntime> {
    let st = |id: &str, f: &str| EntityState {
        entity_id: id.to_string(),
        state: "on".to_string(),
        attributes: AttrValue::Object(vec![("friendly_name".to_string(), AttrValue::Text(f.to_string()))], String::new()),
        last_changed: None,
        last_updated: None,
    };
    let mut rt = InstanceRuntime::new("home".to_string(), "ws://h".to_string());
    rt.set_initial_states(vec![st("light.kitchen", "Kitchen"), st("switch.fan", "Fan"), st("sensor.c", "C")]);
    vec![rt]
}

#[test]
fn menu_actions_open_prefilled_steps() {
    let mut d = free_dash();
    let rts = runtimes();
    let mut e = EditorState::new(0, None);
    assert!(matches!(e.dispatch_menu_action(MenuAction::RenameCard, MenuContext::Card(0), &mut d, &rts, String::new()), MenuOutcome::Done));
    assert!(matches!(&e.mode, EditorMode::RenamingCard { card_idx: 0, buffer } if buffer == "Temps"));
    assert_eq!(e.selected_card, Some(0));
    e.dispatch_menu_action(MenuAction::EditGraphWindow, MenuContext::Card(0), &mut d, &rts, String::new());
    assert!(matches!(&e.mode, EditorMode::GraphEditWindow { buf, .. } if buf == "6h"));
    e.dispatch_menu_action(MenuAction::ClockEditFormat, MenuContext::Card(0), &mut d, &rts, String::new());
    assert!(matches!(&e.mode, EditorMode::ClockEditFormat { buf, .. } if buf == "%H:%M:%S"));
    e.dispatch_menu_action(MenuAction::ResizeGrid, MenuContext::Dashboard, &mut d, &rts, String::new());
    assert!(matches!(&e.mode, EditorMode::ResizingGrid { cols_buffer, rows_buffer, focus_rows: false } if cols_buffer == "12" && rows_buffer == "8"));
    match e.dispatch_menu_action(MenuAction::AddRow, MenuContext::Card(0), &mut d, &rts, String::new()) {
        MenuOutcome::Failed(m) => assert_eq!(m, "menu action not valid in this context"),
        other => panic!("unexpected {:?}", other),
    }
}

#[test]
fn menu_change_entity_lists_friendly_names() {
    let mut d = free_dash();
    let rts = runtimes();
    let mut e = EditorState::new(0, None);
    e.dispatch_menu_action(MenuAction::ChangeEntity, MenuContext::Card(2), &mut d, &rts, String::new());
    match &e.mode {
        EditorMode::PickingMulti { instance, picked, .. } => {
            assert_eq!(instance, "home");
            assert_eq!(picked, &vec![("light.kitchen".to_string(), "Kitchen".to_string()), ("switch.fan".to_string(), "Fan".to_string())]);
        }
        other => panic!("unexpected {:?}", other),
    }
    assert_eq!(e.edit_target, Some(2));
    e.mode = EditorMode::Browse;
    e.dispatch_menu_action(MenuAction::ChangeEntity, MenuContext::Card(1), &mut d, &rts, String::new());
    assert!(matches!(&e.mode, EditorMode::PickingEntity { instance, .. } if instance == "home"));
}

#[test]
fn menu_toggles_and_cycles() {
    let mut d = free_dash();
    let rts = runtimes();
    let mut e = EditorState::new(0, None);
    e.dispatch_menu_action(MenuAction::ToggleGaugeNeedle, MenuContext::Card(0), &mut d, &rts, String::new());
    assert!(!e.dirty, "a graph has no needle");
    e.dispatch_menu_action(MenuAction::ToggleGaugeNeedle, MenuContext::Card(1), &mut d, &rts, String::new());
    assert!(e.dirty);
    assert!(matches!(d.card(1).unwrap().kind, CardKind::Gauge { needle: true, .. }));
    for _ in 0..2 {
        e.dispatch_menu_action(MenuAction::CycleGraphType, MenuContext::Card(0), &mut d, &rts, String::new());
    }
    assert!(matches!(d.card(0).unwrap().kind, CardKind::Graph { graph_type: GraphType::Pie, .. }));
    assert_eq!(e.undo_stack.len(), 4);
}

#[test]
fn menu_row_move_keeps_selection_on_card() {
    let mut d = grid_dash();
    let rts = runtimes();
    let mut e = EditorState::new(0, None);
    e.selected_card = Some(2);
    e.dispatch_menu_action(MenuAction::MoveColumnLeft, MenuContext::GridColumn(0, 1), &mut d, &rts, String::new());
    assert_eq!(e.selected_card, Some(0));
    assert_eq!(e.grid_focus, Some(GridFocus::Card { row: 0, col: 0, pos_in_col: 0 }));
    e.dispatch_menu_action(MenuAction::MoveRowDown, MenuContext::Row(0), &mut d, &rts, String::new());
    assert_eq!(d.card(0).unwrap().id, CardId(3));
    assert_eq!(e.selected_card, Some(0));
    assert_eq!(e.grid_focus, Some(GridFocus::Card { row: 1, col: 0, pos_in_col: 0 }));
}

#[test]
fn graph_flow_builds_bar_graph() {
    let mut d = free_dash();
    let rts = runtimes();
    let mut e = EditorState::new(0, None);
    e.mode = EditorMode::GraphPickType;
    e.graph_key(Key::Char('2'), &mut d, &rts);
    assert!(matches!(&e.mode, EditorMode::GraphAddEntities { instance, graph_type: GraphType::Bar, .. } if instance == "home"));
    e.graph_key(Key::Char('s'), &mut d, &rts);
    e.graph_key(Key::Enter, &mut d, &rts);
    e.graph_key(Key::Char('n'), &mut d, &rts);
    assert!(matches!(e.mode, EditorMode::GraphPickOrientationAdd { current: BarOrientation::Vertical, title_stage: false, .. }));
    e.graph_key(Key::Char('j'), &mut d, &rts);
    e.graph_key(Key::Enter, &mut d, &rts);
    e.graph_key(Key::Char('k'), &mut d, &rts);
    e.graph_key(Key::Enter, &mut d, &rts);
    assert_eq!(d.card_count(), 5);
    match &d.card(4).unwrap().kind {
        CardKind::Graph { entities, graph_type, orientation, window, title, .. } => {
            assert_eq!(entities.len(), 1);
            assert_eq!(entities[0].entity, "sensor.c");
            assert_eq!(*graph_type, GraphType::Bar);
            assert_eq!(*orientation, BarOrientation::Horizontal);
            assert_eq!(window, "1h");
            assert_eq!(title.as_deref(), Some("k"));
        }
        other => panic!("unexpected {:?}", other),
    }
}

#[test]
fn graph_flow_without_instances_fails() {
    let mut d = free_dash();
    let mut e = EditorState::new(0, None);
    e.mode = EditorMode::GraphPickType;
    match e.graph_key(Key::Char('1'), &mut d, &Vec::new()) {
        DetailResult::Failed(m) => assert_eq!(m, "no instances connected"),
        other => panic!("unexpected {:?}", other),
    }
    assert!(matches!(e.mode, EditorMode::Browse));
}

#[test]
fn add_one_series_appends() {
    let mut d = free_dash();
    let rts = runtimes();
    let mut e = EditorState::new(0, None);
    e.mode = EditorMode::GraphAddOneSeries { card_idx: 0, query: String::new(), selected: 0 };
    e.graph_key(Key::Char('f'), &mut d, &rts);
    e.graph_key(Key::Char('a'), &mut d, &rts);
    e.graph_key(Key::Enter, &mut d, &rts);
    assert_eq!(series_of(&d, 0).last().unwrap().0, "switch.fan");
    assert_eq!(series_of(&d, 0).len(), 3);
}

#[test]
fn browse_keys() {
    let mut d = free_dash();
    let mut e = EditorState::new(0, None);
    assert!(matches!(e.browse_key(Key::Esc, &mut d), BrowseResult::Exit));
    e.browse_key(Key::Char('l'), &mut d);
    e.browse_key(Key::Char(' '), &mut d);
    assert_eq!(e.selected_card, Some(0));
    e.browse_key(Key::Char('L'), &mut d);
    assert_eq!(d.card(0).unwrap().pos.unwrap().w, 4);
    e.browse_key(Key::Char('J'), &mut d);
    assert_eq!(d.card(0).unwrap().pos.unwrap().h, 3);
    assert!(matches!(e.browse_key(Key::Esc, &mut d), BrowseResult::Done));
    assert!(matches!(e.mode, EditorMode::ConfirmExit));
    e.mode = EditorMode::Browse;
    e.browse_key(Key::Char('u'), &mut d);
    assert_eq!(d.card(0).unwrap().pos.unwrap().h, 2);
    assert!(matches!(e.browse_key(Key::Char('s'), &mut d), BrowseResult::Save));
    e.browse_key(Key::Char('a'), &mut d);
    assert!(matches!(e.mode, EditorMode::PickingType { selected: 0 }));
    assert!(matches!(e.browse_key(Key::Char('x'), &mut d), BrowseResult::NotMine));
}

#[test]
fn browse_esc_steps_back_from_row_focus() {
    let mut d = grid_dash();
    let mut e = EditorState::new(0, None);
    e.selected_card = Some(1);
    e.grid_focus = Some(GridFocus::Row { row: 0 });
    e.browse_key(Key::Esc, &mut d);
    assert_eq!(e.grid_focus, Some(GridFocus::Card { row: 0, col: 0, pos_in_col: 1 }));
}

#[test]
fn transfer_copy_and_move() {
    let mut ds = vec![free_dash(), grid_dash()];
    let mut e = EditorState::new(0, None);
    let msg = transfer_card(&mut ds, &mut e, TransferOp::Copy, 1, 1, None, None);
    assert!(msg.is_none());
    assert!(matches!(e.mode, EditorMode::PickingTargetGridRow { target_dash: 1, .. }));
    e.mode = EditorMode::Browse;
    transfer_card(&mut ds, &mut e, TransferOp::Copy, 1, 1, Some(1), Some(0));
    assert_eq!(ds[0].card_count(), 4);
    assert_eq!(ds[1].card_count(), 4);
    let copied = ds[1].card(3).unwrap();
    assert_eq!(copied.id, CardId(4));
    assert!(copied.pos.is_none());
    e.selected_card = Some(0);
    let msg = transfer_card(&mut ds, &mut e, TransferOp::Move, 0, 0, None, None);
    assert!(msg.is_none());
    assert_eq!(ds[0].card_count(), 4);
    assert_eq!(e.selected_card, None);
    assert_eq!(ds[0].card(3).unwrap().pos, Some(Pos { col: 0, row: 0, w: 3, h: 2 }));
}

#[test]
fn transfer_to_full_canvas_warns() {
    let full = Dashboard {
        name: "full".to_string(),
        layout: DashboardLayout::Free {
            grid: Grid { cols: 3, rows: 2 },
            cards: vec![card(9, Some(Pos { col: 0, row: 0, w: 3, h: 2 }), gauge())],
        },
    };
    let mut ds = vec![free_dash(), full];
    let mut e = EditorState::new(0, None);
    match transfer_card(&mut ds, &mut e, TransferOp::Copy, 1, 1, None, None) {
        Some(m) => assert_eq!(m, "Card placed at (0,0) — may overlap existing cards"),
        None => panic!("expected a warning"),
    }
    assert_eq!(ds[1].card(1).unwrap().pos, Some(Pos { col: 0, row: 0, w: 3, h: 2 }));
    assert_eq!(ds[1].card(1).unwrap().id, CardId(10));
}

#[test]
fn new_dashboard_then_cancel_or_grid() {
    let mut ds = vec![free_dash()];
    let (mut e, msg) = new_dashboard(&mut ds, None);
    assert_eq!(msg, "new dashboard #2 — pick layout type");
    assert_eq!(ds[1].name, "Dashboard 2");
    assert_eq!(e.dash_idx, 1);
    assert!(e.dirty);
    e.workspace_key(Key::Char('2'), &mut ds);
    match e.workspace_key(Key::Enter, &mut ds) {
        WorkspaceResult::Status(m) => assert_eq!(m, "dashboard created — press 'a' to add cards, 's' to save"),
        other => panic!("unexpected {:?}", other),
    }
    assert!(matches!(&ds[1].layout, DashboardLayout::Grid { rows } if rows.is_empty()));
    assert_eq!(e.grid_focus, Some(GridFocus::Column { row: 0, col: 0 }));
    let (mut e2, _) = new_dashboard(&mut ds, None);
    assert!(matches!(e2.workspace_key(Key::Esc, &mut ds), WorkspaceResult::Closed { show: 1 }));
    assert_eq!(ds.len(), 2);
}

#[test]
fn delete_dashboard_confirmation() {
    let mut ds = vec![free_dash(), grid_dash()];
    let mut e = EditorState::new(0, None);
    e.mode = EditorMode::ConfirmDeleteDashboard;
    assert!(matches!(e.workspace_key(Key::Char('n'), &mut ds), WorkspaceResult::Done));
    assert_eq!(ds.len(), 2);
    e.mode = EditorMode::ConfirmDeleteDashboard;
    assert!(matches!(e.workspace_key(Key::Char('y'), &mut ds), WorkspaceResult::Deleted { show: 0 }));
    assert_eq!(ds.len(), 1);
    assert_eq!(ds[0].name, "grid");
}

#[test]
fn stats_metric_menu_preselects() {
    let mut d = Dashboard {
        name: "s".to_string(),
        layout: DashboardLayout::Free {
            grid: Grid { cols: 12, rows: 8 },
            cards: vec![card(
                1,
                Some(Pos { col: 0, row: 0, w: 3, h: 2 }),
                CardKind::Statistics {
                    instance: "home".to_string(),
                    entity: "sensor.c".to_string(),
                    window: "24h".to_string(),
                    metric: StatsMetric::Max,
                    unit: None,
                    title: None,
                },
            )],
        },
    };
    let mut e = EditorState::new(0, None);
    e.dispatch_menu_action(MenuAction::StatsEditMetric, MenuContext::Card(0), &mut d, &Vec::new(), String::new());
    assert!(matches!(e.mode, EditorMode::StatsEditMetric { card_idx: 0, selected: 2 }));
}

#[test]
fn entering_the_editor_focuses_a_grid_on_its_first_column() {
    let ds = vec![
        Dashboard { name: "f".to_string(), layout: DashboardLayout::Free { grid: Grid { cols: 12, rows: 8 }, cards: vec![] } },
        Dashboard { name: "g".to_string(), layout: DashboardLayout::Grid { rows: vec![] } },
    ];
    let e = enter_editor(&Screen::Dashboard { idx: 0, selected_card: 0, sub_index: 0 }, &ds, None).unwrap();
    assert_eq!(e.dash_idx, 0);
    assert_eq!(e.grid_focus, None);
    let g = enter_editor(&Screen::Dashboard { idx: 1, selected_card: 0, sub_index: 0 }, &ds, None).unwrap();
    assert_eq!(g.grid_focus, Some(GridFocus::Column { row: 0, col: 0 }));
    assert!(matches!(g.mode, EditorMode::Browse));
    assert!(!g.dirty);
    assert!(enter_editor(&Screen::Dashboard { idx: 2, selected_card: 0, sub_index: 0 }, &ds, None).is_none());
    assert!(enter_editor(&Screen::Editor, &ds, None).is_none());
}
