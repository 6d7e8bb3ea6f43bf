use ha_tui::dashboard::{
    BarOrientation, Card, CardId, CardKind, CardSize, Dashboard, DashboardLayout, GraphSeries, GraphType, Grid,
    ImageSource, StatsMetric,
};
use ha_tui::ha::ImageFetchKind;
use ha_tui::actions::HaCommand;
use ha_tui::refresh::{
    camera_refresh_timers, history_requests_for, image_entities_for, image_fetch_done, image_fetch_kind_for,
    image_fetch_request, parse_window_hours, weather_entities_for, weather_refresh_pairs,
};

fn card(kind: CardKind) -> Card {
    Card { id: CardId(1), kind, pos: None, height: None, color: None, size: CardSize::Normal }
}

fn weather(inst: &str, e: &str) -> Card {
    card(CardKind::Weather { instance: inst.to_string(), entity: e.to_string(), show_forecast: true, forecast_days: 5, title: None })
}

fn image(inst: &str, source: ImageSource, refresh: Option<u32>) -> Card {
    card(CardKind::Image { instance: inst.to_string(), source, refresh_seconds: refresh, title: None })
}

fn dash(cards: Vec<Card>) -> Dashboard {
    Dashboard { name: "d".to_string(), layout: DashboardLayout::Free { grid: Grid { cols: 12, rows: 8 }, cards } }
}

fn series(e: &str) -> GraphSeries {
    GraphSeries { entity: e.to_string(), label: None, color: None }
}

fn dashboards() -> Vec<Dashboard> {
    vec![
        dash(vec![
            weather("home", "weather.home"),
            image("home", ImageSource::Camera { entity: "camera.door".to_string() }, Some(10)),
            card(CardKind::Graph {
                instance: "home".to_string(),
                entity: None,
                entities: vec![series("sensor.a"), series("sensor.b")],
                graph_type: GraphType::Line,
                window: "2d".to_string(),
                orientation: BarOrientation::Vertical,
                title: None,
            }),
        ]),
        dash(vec![
            weather("home", "weather.home"),
            weather("cabin", "weather.cabin"),
            image("home", ImageSource::ImageEntity { entity: "image.map".to_string() }, None),
            card(CardKind::Statistics {
                instance: "home".to_string(),
                entity: "sensor.c".to_string(),
                window: "90m".to_string(),
                metric: StatsMetric::Avg,
                unit: None,
                title: None,
            }),
        ]),
    ]
}

#[test]
fn window_hours() {
    assert_eq!(parse_window_hours("1h"), 1);
    assert_eq!(parse_window_hours("24h"), 24);
    assert_eq!(parse_window_hours(" 7d "), 168);
    assert_eq!(parse_window_hours("30m"), 1);
    assert_eq!(parse_window_hours("150m"), 2);
    assert_eq!(parse_window_hours("xm"), 1);
    assert_eq!(parse_window_hours("zh"), 1);
    assert_eq!(parse_window_hours("+3h"), 3);
    assert_eq!(parse_window_hours("5"), 1);
    assert_eq!(parse_window_hours(""), 1);
}

#[test]
fn weather_pairs_unique_first_seen() {
    let pairs = weather_refresh_pairs(&dashboards());
    assert_eq!(
        pairs,
        vec![
            ("home".to_string(), "weather.home".to_string()),
            ("cabin".to_string(), "weather.cabin".to_string())
        ]
    );
}

#[test]
fn weather_entities_per_instance() {
    assert_eq!(weather_entities_for(&dashboards(), "home"), vec!["weather.home".to_string(), "weather.home".to_string()]);
}

#[test]
fn camera_timers_listed() {
    assert_eq!(camera_refresh_timers(&dashboards()), vec![("home".to_string(), "camera.door".to_string(), 10)]);
}

#[test]
fn image_entities_and_kinds() {
    let ds = dashboards();
    assert_eq!(image_entities_for(&ds, "home"), vec!["camera.door".to_string(), "image.map".to_string()]);
    assert_eq!(image_fetch_kind_for(&ds, "home", "camera.door"), Some(ImageFetchKind::Camera));
    assert_eq!(image_fetch_kind_for(&ds, "home", "image.map"), Some(ImageFetchKind::Image));
    assert_eq!(image_fetch_kind_for(&ds, "cabin", "image.map"), None);
}

#[test]
fn history_requests_use_window_hours() {
    let r = history_requests_for(&dashboards(), "home");
    assert_eq!(
        r,
        vec![("sensor.a".to_string(), 48), ("sensor.b".to_string(), 48), ("sensor.c".to_string(), 1)]
    );
    assert!(history_requests_for(&dashboards(), "cabin").is_empty());
}

#[test]
fn image_fetch_goes_out_once_until_done() {
    let ds = dashboards();
    let mut inflight: Vec<(String, String)> = Vec::new();
    match image_fetch_request(&mut inflight, &ds, "home", "camera.door") {
        Some(HaCommand::FetchImageBytes { entity, kind }) => {
            assert_eq!(entity, "camera.door");
            assert!(matches!(kind, ImageFetchKind::Camera));
        }
        other => panic!("unexpected {other:?}"),
    }
    assert_eq!(inflight, vec![("home".to_string(), "camera.door".to_string())]);
    assert!(image_fetch_request(&mut inflight, &ds, "home", "camera.door").is_none());
    assert!(image_fetch_request(&mut inflight, &ds, "home", "camera.none").is_none());
    assert_eq!(inflight.len(), 1);
    image_fetch_done(&mut inflight, "home", "camera.door");
    assert!(inflight.is_empty());
    assert!(image_fetch_request(&mut inflight, &ds, "home", "camera.door").is_some());
}
