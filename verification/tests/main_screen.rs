use ha_tui::actions::HaCommand;
use ha_tui::app_keys::{route_key, scroll_grid_column, Route};
use ha_tui::dash_nav::{dispatch_default, media_key, row_count, selected_entity, DefaultDispatch};
use ha_tui::dashboard::{
    Card, CardId, CardKind, CardSize, Dashboard, DashboardLayout, EntityListItem, Grid, GridColumn, GridRow, Pos, RowHeight,
};
use ha_tui::ha::{AttrValue, EntityState, InstanceRuntime};
use ha_tui::layout::{find_scroll, ColScroll};
use ha_tui::screens::Screen;
use ha_tui::wizard::Key;

fn card(id: u64, pos: Option<Pos>, kind: CardKind) -> Card {
    Card { id: CardId(id), pos, height: None, kind, color: None, size: CardSize::Normal }
}

fn text(id: u64, pos: Option<Pos>) -> Card {
    card(id, pos, CardKind::Text { markdown: "x".to_string(), title: None })
}

fn entity(id: u64, eid: &str) -> Card {
    card(
        id,
        Some(Pos { col: 0, row: 4, w: 2, h: 2 }),
        CardKind::Entity { instance: "home".to_string(), entity: eid.to_string(), title: None, ticker: false },
    )
}

fn free(cards: Vec<Card>) -> Dashboard {
    Dashboard { name: "f".to_string(), layout: DashboardLayout::Free { grid: Grid { cols: 12, rows: 8 }, cards } }
}

fn grid() -> Dashboard {
    Dashboard {
        name: "g".to_string(),
        layout: DashboardLayout::Grid {
            rows: vec![
                GridRow {
                    height: RowHeight::Auto,
                    fill_height: None,
                    columns: vec![
                        GridColumn { fill_height: None, cards: vec![text(1, None), text(2, None)] },
                        GridColumn { fill_height: None, cards: vec![text(3, None)] },
                    ],
                },
                GridRow { height: RowHeight::Fixed(5), fill_height: None, columns: vec![GridColumn { fill_height: None, cards: vec![text(4, None)] }] },
            ],
        },
    }
}

fn state(id: &str, st: &str, attrs: Vec<(&str, AttrValue)>) -> EntityState {
    EntityState {
        entity_id: id.to_string(),
        state: st.to_string(),
        attributes: AttrValue::Object(attrs.into_iter().map(|(k, v)| (k.to_string(), v)).collect(), "{}".to_string()),
        last_changed: None,
        last_updated: None,
    }
}

fn runtimes() -> Vec<InstanceRuntime> {
    let mut rt = InstanceRuntime::new("home".to_string(), "ws://h".to_string());
    rt.set_initial_states(vec![
        state("light.kitchen", "on", vec![]),
        state("input_number.temp", "21.5", vec![("friendly_name", AttrValue::Text("Target".to_string()))]),
        state("media_player.tv", "playing", vec![("is_volume_muted", AttrValue::Other("true".to_string()))]),
        state("lock.door", "locked", vec![]),
    ]);
    let mut other = InstanceRuntime::new("cabin".to_string(), "ws://c".to_string());
    other.set_initial_states(vec![state("switch.heater", "off", vec![])]);
    vec![rt, other]
}

fn at(sel: usize) -> Screen {
    Screen::Dashboard { idx: 0, selected_card: sel, sub_index: 0 }
}

fn selected(s: &Screen) -> (usize, usize) {
    match s {
        Screen::Dashboard { selected_card, sub_index, .. } => (*selected_card, *sub_index),
        Screen::Editor => panic!("not a dashboard"),
    }
}

#[test]
fn free_selection_clamps_at_both_ends() {
    let ds = vec![free(vec![text(1, Some(Pos { col: 0, row: 0, w: 2, h: 2 })), text(2, Some(Pos { col: 3, row: 0, w: 2, h: 2 }))])];
    let mut s = at(0);
    s.move_selection(&ds, &runtimes(), -1);
    assert_eq!(selected(&s), (0, 0));
    s.move_selection(&ds, &runtimes(), 10);
    assert_eq!(selected(&s), (1, 0));
    assert_eq!(row_count(&s, &ds), 2);
}

#[test]
fn grid_selection_moves_within_the_column_and_stops() {
    let ds = vec![grid()];
    let mut s = at(0);
    s.move_selection(&ds, &runtimes(), 1);
    assert_eq!(selected(&s), (1, 0));
    s.move_selection(&ds, &runtimes(), 1);
    assert_eq!(selected(&s), (1, 0));
    s.move_selection(&ds, &runtimes(), -1);
    assert_eq!(selected(&s), (0, 0));
}

#[test]
fn grid_sideways_goes_to_the_next_column_then_row() {
    let ds = vec![grid()];
    let mut s = at(0);
    s.move_card_selection(&ds, 1);
    assert_eq!(selected(&s), (2, 0));
    s.move_card_selection(&ds, 1);
    assert_eq!(selected(&s), (3, 0));
    s.move_card_selection(&ds, 1);
    assert_eq!(selected(&s), (3, 0));
    s.move_card_selection(&ds, -1);
    assert_eq!(selected(&s), (2, 0));
}

#[test]
fn free_sideways_wraps_around() {
    let ds = vec![free(vec![text(1, Some(Pos { col: 0, row: 0, w: 2, h: 2 })), text(2, Some(Pos { col: 3, row: 0, w: 2, h: 2 })), text(3, Some(Pos { col: 6, row: 0, w: 2, h: 2 }))])];
    let mut s = at(0);
    s.move_card_selection(&ds, -1);
    assert_eq!(selected(&s), (2, 0));
    s.move_card_selection(&ds, 1);
    assert_eq!(selected(&s), (0, 0));
}

#[test]
fn end_selects_the_last_card() {
    let ds = vec![grid()];
    let mut s = at(0);
    s.set_selection(&ds, usize::MAX);
    assert_eq!(selected(&s), (3, 0));
    s.set_selection(&ds, 1);
    assert_eq!(selected(&s), (1, 0));
}

#[test]
fn list_card_moves_its_row_selection() {
    let list = card(
        1,
        Some(Pos { col: 0, row: 0, w: 4, h: 4 }),
        CardKind::EntityList {
            instance: "home".to_string(),
            entities: vec![EntityListItem::Bare("light.kitchen".to_string()), EntityListItem::Bare("lock.door".to_string())],
            title: None,
        },
    );
    let ds = vec![free(vec![list, text(2, Some(Pos { col: 5, row: 0, w: 2, h: 2 }))])];
    let rts = runtimes();
    let mut s = at(0);
    s.move_selection(&ds, &rts, 1);
    assert_eq!(selected(&s), (0, 1));
    s.move_selection(&ds, &rts, 5);
    assert_eq!(selected(&s), (0, 1));
    assert_eq!(selected_entity(&s, &ds, &rts), Some(("home".to_string(), "lock.door".to_string())));
    s.move_selection(&ds, &rts, -3);
    assert_eq!(selected_entity(&s, &ds, &rts), Some(("home".to_string(), "light.kitchen".to_string())));
}

#[test]
fn selected_entity_of_an_entity_card_and_of_text() {
    let ds = vec![free(vec![entity(1, "light.kitchen"), text(2, Some(Pos { col: 5, row: 0, w: 2, h: 2 }))])];
    let rts = runtimes();
    assert_eq!(selected_entity(&at(0), &ds, &rts), Some(("home".to_string(), "light.kitchen".to_string())));
    assert_eq!(selected_entity(&at(1), &ds, &rts), None);
    assert_eq!(selected_entity(&Screen::Editor, &ds, &rts), None);
}

#[test]
fn enter_toggles_a_light() {
    match dispatch_default("home", &"light.kitchen".to_string(), &runtimes()) {
        DefaultDispatch::Send(HaCommand::CallService { domain, service, entity_id }) => {
            assert_eq!(domain, "light");
            assert_eq!(service, "toggle");
            assert_eq!(entity_id, "light.kitchen");
        }
        other => panic!("unexpected {other:?}"),
    }
}

#[test]
fn enter_unlocks_a_locked_lock() {
    match dispatch_default("home", &"lock.door".to_string(), &runtimes()) {
        DefaultDispatch::Send(HaCommand::CallService { service, .. }) => assert_eq!(service, "unlock"),
        other => panic!("unexpected {other:?}"),
    }
}

#[test]
fn enter_on_an_input_opens_its_editor() {
    match dispatch_default("home", &"input_number.temp".to_string(), &runtimes()) {
        DefaultDispatch::OpenInput { friendly_name, value } => {
            assert_eq!(friendly_name, "Target");
            assert_eq!(value, "21.5");
        }
        other => panic!("unexpected {other:?}"),
    }
}

#[test]
fn enter_reports_what_it_cannot_do() {
    match dispatch_default("home", &"input_text.missing".to_string(), &runtimes()) {
        DefaultDispatch::Failed(m) => assert_eq!(m, "no state for input_text.missing"),
        other => panic!("unexpected {other:?}"),
    }
    match dispatch_default("home", &"sensor.temp".to_string(), &runtimes()) {
        DefaultDispatch::Failed(m) => assert_eq!(m, "no default action for sensor.temp"),
        other => panic!("unexpected {other:?}"),
    }
}

#[test]
fn media_keys_call_player_services() {
    let player = card(
        1,
        Some(Pos { col: 0, row: 0, w: 4, h: 4 }),
        CardKind::MediaPlayer { instance: "home".to_string(), entity: "media_player.tv".to_string(), title: None },
    );
    let ds = vec![free(vec![player, text(2, Some(Pos { col: 5, row: 0, w: 2, h: 2 }))])];
    let rts = runtimes();
    match media_key(&at(0), &ds, &rts, 'n') {
        Some((inst, HaCommand::CallService { domain, service, entity_id })) => {
            assert_eq!(inst, "home");
            assert_eq!(domain, "media_player");
            assert_eq!(service, "media_next_track");
            assert_eq!(entity_id, "media_player.tv");
        }
        other => panic!("unexpected {other:?}"),
    }
    match media_key(&at(0), &ds, &rts, 'm') {
        Some((_, HaCommand::SetVolumeMuted { entity_id, muted })) => {
            assert_eq!(entity_id, "media_player.tv");
            assert!(!muted);
        }
        other => panic!("unexpected {other:?}"),
    }
    assert!(media_key(&at(0), &ds, &rts, 'x').is_none());
    assert!(media_key(&at(1), &ds, &rts, 'n').is_none());
}

#[test]
fn keys_route_by_what_is_open() {
    assert_eq!(route_key(Key::Char('x'), true, false, false, false, 1), Route::DismissHelp);
    assert_eq!(route_key(Key::Char('?'), false, false, false, false, 1), Route::ShowHelp);
    assert_eq!(route_key(Key::Char('?'), false, true, false, false, 1), Route::Overlay);
    assert_eq!(route_key(Key::Char('j'), false, false, true, false, 1), Route::Editor);
    assert_eq!(route_key(Key::Char('j'), false, false, false, true, 1), Route::Media);
    assert_eq!(route_key(Key::Down, false, false, false, true, 1), Route::MoveSelection(1));
    assert_eq!(route_key(Key::Esc, false, false, false, false, 1), Route::Quit);
    assert_eq!(route_key(Key::Char('2'), false, false, false, false, 3), Route::ShowDashboard(1));
    assert_eq!(route_key(Key::Char('4'), false, false, false, false, 3), Route::Nothing);
    assert_eq!(route_key(Key::Char('D'), false, false, false, false, 3), Route::Details);
    assert_eq!(route_key(Key::PageDown, false, false, false, false, 3), Route::ScrollOrMove(true));
    assert_eq!(route_key(Key::End, false, false, false, false, 3), Route::SelectEnd(true));
}

#[test]
fn scrolling_a_grid_column_records_its_offset() {
    let d = grid();
    let mut scrolls: Vec<ColScroll> = Vec::new();
    assert!(scroll_grid_column(&mut scrolls, &d, 2, 1, 40));
    assert_eq!(find_scroll(&scrolls, 0, 1), 20);
    assert_eq!(find_scroll(&scrolls, 0, 0), 0);
    assert!(scroll_grid_column(&mut scrolls, &d, 2, -1, 40));
    assert_eq!(find_scroll(&scrolls, 0, 1), 0);
    assert!(scroll_grid_column(&mut scrolls, &d, 3, -1, 1));
    assert_eq!(find_scroll(&scrolls, 1, 0), 0);
    assert!(!scroll_grid_column(&mut scrolls, &d, 9, 1, 40));
    let f = free(vec![text(1, Some(Pos { col: 0, row: 0, w: 2, h: 2 }))]);
    assert!(!scroll_grid_column(&mut scrolls, &f, 0, 1, 40));
}
