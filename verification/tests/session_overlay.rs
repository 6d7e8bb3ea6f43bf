use ha_tui::actions::HaCommand;
use ha_tui::ha::{AttrValue, EntityState, ForecastKind, ImageFetchKind, InstanceRuntime};
use ha_tui::overlay::{entity_details_key, entity_search_key, instance_list_key, SearchOutcome};
use ha_tui::session::{Outgoing, ResultRoute, Session};
use ha_tui::wizard::Key;

#[test]
fn session_starts_with_states_and_subscription_ids() {
    let (s, get_id, sub_id) = Session::start();
    assert_eq!(get_id, 2);
    assert_eq!(sub_id, 3);
    assert_eq!(s.counter, 3);
    assert_eq!(s.states_id, 2);
    assert!(s.pending_history.is_empty());
}

#[test]
fn commands_take_consecutive_ids() {
    let (mut s, _, _) = Session::start();
    let out = s.command(HaCommand::CallService {
        domain: "light".to_string(),
        service: "toggle".to_string(),
        entity_id: "light.a".to_string(),
    });
    match out {
        Outgoing::CallService { id, domain, service, entity_id } => {
            assert_eq!(id, 4);
            assert_eq!(domain, "light");
            assert_eq!(service, "toggle");
            assert_eq!(entity_id, "light.a");
        }
        other => panic!("unexpected {other:?}"),
    }
    match s.command(HaCommand::FetchImageBytes { entity: "camera.x".to_string(), kind: ImageFetchKind::Camera }) {
        Outgoing::Image { entity, .. } => assert_eq!(entity, "camera.x"),
        other => panic!("unexpected {other:?}"),
    }
    assert_eq!(s.counter, 4);
    match s.command(HaCommand::SetVolumeMuted { entity_id: "media_player.tv".to_string(), muted: true }) {
        Outgoing::SetVolumeMuted { id, muted, .. } => {
            assert_eq!(id, 5);
            assert!(muted);
        }
        other => panic!("unexpected {other:?}"),
    }
}

#[test]
fn history_result_comes_back_once() {
    let (mut s, _, _) = Session::start();
    let id = match s.command(HaCommand::FetchHistory { entity_id: "sensor.t".to_string(), hours: 24 }) {
        Outgoing::History { id, hours, .. } => {
            assert_eq!(hours, 24);
            id
        }
        other => panic!("unexpected {other:?}"),
    };
    match s.result(id, true) {
        ResultRoute::History(e) => assert_eq!(e, "sensor.t"),
        other => panic!("unexpected {other:?}"),
    }
    assert!(matches!(s.result(id, true), ResultRoute::Ignore));
}

#[test]
fn forecast_result_and_errors() {
    let (mut s, get_id, _) = Session::start();
    let id = match s.command(HaCommand::GetWeatherForecast { entity: "weather.home".to_string(), kind: ForecastKind::Hourly }) {
        Outgoing::Weather { id, .. } => id,
        other => panic!("unexpected {other:?}"),
    };
    assert!(matches!(s.result(get_id, true), ResultRoute::InitialStates));
    assert!(matches!(s.result(id, false), ResultRoute::Error));
    assert!(matches!(s.result(id, true), ResultRoute::Ignore));
    let id2 = match s.command(HaCommand::GetWeatherForecast { entity: "weather.home".to_string(), kind: ForecastKind::Daily }) {
        Outgoing::Weather { id, .. } => id,
        other => panic!("unexpected {other:?}"),
    };
    match s.result(id2, true) {
        ResultRoute::Weather(e, k) => {
            assert_eq!(e, "weather.home");
            assert!(matches!(k, ForecastKind::Daily));
        }
        other => panic!("unexpected {other:?}"),
    }
}

fn st(id: &str) -> EntityState {
    EntityState {
        entity_id: id.to_string(),
        state: "on".to_string(),
        attributes: AttrValue::Object(Vec::new(), "{}".to_string()),
        last_changed: None,
        last_updated: None,
    }
}

fn runtimes() -> Vec<InstanceRuntime> {
    let mut a = InstanceRuntime::new("home".to_string(), "ws://h".to_string());
    a.set_initial_states(vec![st("switch.fan"), st("light.kitchen"), st("light.bed")]);
    let mut b = InstanceRuntime::new("cabin".to_string(), "ws://c".to_string());
    b.set_initial_states(vec![st("light.porch")]);
    vec![a, b]
}

#[test]
fn search_typing_and_picking() {
    let rts = runtimes();
    let mut q = String::new();
    let mut sel = 0usize;
    let mut filter: Option<String> = None;
    for c in "light".chars() {
        assert!(matches!(entity_search_key(&mut q, &mut sel, &mut filter, Key::Char(c), &rts), SearchOutcome::Stay));
    }
    assert_eq!(q, "light");
    entity_search_key(&mut q, &mut sel, &mut filter, Key::Down, &rts);
    entity_search_key(&mut q, &mut sel, &mut filter, Key::Down, &rts);
    assert_eq!(sel, 2);
    entity_search_key(&mut q, &mut sel, &mut filter, Key::Down, &rts);
    assert_eq!(sel, 2);
    match entity_search_key(&mut q, &mut sel, &mut filter, Key::Enter, &rts) {
        SearchOutcome::Pick { alias, entity_id } => {
            assert_eq!(alias, "cabin");
            assert_eq!(entity_id, "light.porch");
        }
        other => panic!("unexpected {other:?}"),
    }
    entity_search_key(&mut q, &mut sel, &mut filter, Key::Backspace, &rts);
    assert_eq!(q, "ligh");
    assert_eq!(sel, 0);
}

#[test]
fn search_filter_cycles_through_instances() {
    let rts = runtimes();
    let mut q = String::new();
    let mut sel = 3usize;
    let mut filter: Option<String> = None;
    entity_search_key(&mut q, &mut sel, &mut filter, Key::Char('f'), &rts);
    assert_eq!(filter.as_deref(), Some("home"));
    assert_eq!(sel, 0);
    assert_eq!(q, "");
    entity_search_key(&mut q, &mut sel, &mut filter, Key::Char('f'), &rts);
    assert_eq!(filter.as_deref(), Some("cabin"));
    match entity_search_key(&mut q, &mut sel, &mut filter, Key::Enter, &rts) {
        SearchOutcome::Pick { alias, entity_id } => {
            assert_eq!(alias, "cabin");
            assert_eq!(entity_id, "light.porch");
        }
        other => panic!("unexpected {other:?}"),
    }
    entity_search_key(&mut q, &mut sel, &mut filter, Key::Char('f'), &rts);
    assert_eq!(filter, None);
}

#[test]
fn search_pages_stay_inside_the_rows() {
    let rts = runtimes();
    let mut q = String::new();
    let mut sel = 0usize;
    let mut filter: Option<String> = None;
    entity_search_key(&mut q, &mut sel, &mut filter, Key::PageDown, &rts);
    assert_eq!(sel, 3);
    entity_search_key(&mut q, &mut sel, &mut filter, Key::PageUp, &rts);
    assert_eq!(sel, 0);
    q.push_str("zzz");
    assert!(matches!(entity_search_key(&mut q, &mut sel, &mut filter, Key::Enter, &rts), SearchOutcome::Stay));
}

#[test]
fn instance_list_moves_and_closes() {
    let mut sel = 0usize;
    assert!(!instance_list_key(&mut sel, 2, Key::Char('j')));
    assert_eq!(sel, 1);
    assert!(!instance_list_key(&mut sel, 2, Key::Down));
    assert_eq!(sel, 1);
    assert!(!instance_list_key(&mut sel, 2, Key::Char('k')));
    assert_eq!(sel, 0);
    assert!(!instance_list_key(&mut sel, 2, Key::Up));
    assert_eq!(sel, 0);
    assert!(instance_list_key(&mut sel, 2, Key::Enter));
}

#[test]
fn details_scroll_saturates() {
    let mut scroll = 0u16;
    assert!(!entity_details_key(&mut scroll, Key::Up));
    assert_eq!(scroll, 0);
    entity_details_key(&mut scroll, Key::PageDown);
    entity_details_key(&mut scroll, Key::Char('j'));
    assert_eq!(scroll, 11);
    entity_details_key(&mut scroll, Key::PageUp);
    assert_eq!(scroll, 1);
    let mut top = u16::MAX;
    entity_details_key(&mut top, Key::PageDown);
    assert_eq!(top, u16::MAX);
    assert!(entity_details_key(&mut scroll, Key::Char('q')));
    assert!(entity_details_key(&mut scroll, Key::Char('D')));
}
