use ha_tui::ha::{AttrValue, EntityState, InstanceRuntime};
use ha_tui::screens::{build_rows, entity_domain, InstanceFormField, InstanceFormMode, InstanceFormState, Screen};

fn state(id: &str) -> EntityState {
    EntityState {
        entity_id: id.to_string(),
        state: "on".to_string(),
        attributes: AttrValue::Object(Vec::new(), "{}".to_string()),
        last_changed: None,
        last_updated: None,
    }
}

fn runtime(alias: &str, ids: &[&str]) -> InstanceRuntime {
    let mut rt = InstanceRuntime::new(alias.to_string(), "ws://x".to_string());
    rt.set_initial_states(ids.iter().map(|i| state(i)).collect());
    rt
}

#[test]
fn domain_of_entity() {
    assert_eq!(entity_domain(&"light.kitchen".to_string()), "light");
    assert_eq!(entity_domain(&"sun".to_string()), "sun");
    assert_eq!(entity_domain(&"a.b.c".to_string()), "a");
}

#[test]
fn rows_merge_instances_sorted() {
    let rts = vec![runtime("home", &["switch.z", "light.a"]), runtime("cabin", &["light.b"])];
    let rows = build_rows(&rts, None, "");
    let got: Vec<(&str, &str)> = rows.iter().map(|r| (r.instance.as_str(), r.state.entity_id.as_str())).collect();
    assert_eq!(got, vec![("home", "light.a"), ("cabin", "light.b"), ("home", "switch.z")]);
}

#[test]
fn rows_filtered_by_instance_and_search() {
    let rts = vec![runtime("home", &["switch.z", "light.a"]), runtime("cabin", &["light.b"])];
    let home = "home".to_string();
    let rows = build_rows(&rts, Some(&home), "light");
    let got: Vec<&str> = rows.iter().map(|r| r.state.entity_id.as_str()).collect();
    assert_eq!(got, vec!["light.a"]);
}

#[test]
fn form_fields_cycle() {
    let mut f = InstanceFormField::Alias;
    for _ in 0..4 {
        f = f.next();
    }
    assert_eq!(f, InstanceFormField::Alias);
    assert_eq!(InstanceFormField::Alias.prev(), InstanceFormField::Color);
    assert_eq!(InstanceFormField::Token.next().prev(), InstanceFormField::Token);
}

#[test]
fn default_screen_is_first_dashboard() {
    assert_eq!(Screen::default(), Screen::Dashboard { idx: 0, selected_card: 0, sub_index: 0 });
}

#[test]
fn add_form_starts_empty_on_the_alias() {
    let f = InstanceFormState::new_add();
    assert!(matches!(f.mode, InstanceFormMode::New));
    assert_eq!(f.alias_buf.value(), "");
    assert_eq!(f.url_buf.cursor(), 0);
    assert_eq!(f.focus, InstanceFormField::Alias);
    assert!(f.error.is_none());
    assert!(!f.first_run);
    assert!(InstanceFormState::new_first_run().first_run);
}

#[test]
fn edit_form_is_filled_but_the_token() {
    let f = InstanceFormState::new_edit("home", "ws://ha.local:8123", Some("cyan"));
    match &f.mode {
        InstanceFormMode::Edit { original_alias } => assert_eq!(original_alias, "home"),
        InstanceFormMode::New => panic!("expected edit mode"),
    }
    assert_eq!(f.alias_buf.value(), "home");
    assert_eq!(f.alias_buf.cursor(), 4);
    assert_eq!(f.url_buf.value(), "ws://ha.local:8123");
    assert_eq!(f.token_buf.value(), "");
    assert_eq!(f.color_buf.value(), "cyan");
    let g = InstanceFormState::new_edit("é", "u", None);
    assert_eq!(g.alias_buf.cursor(), 1);
    assert_eq!(g.color_buf.value(), "");
    assert!(!g.first_run);
}
