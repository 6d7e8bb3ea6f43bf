use ha_tui::config::{
    default_config_path, default_log_level, fill_template, split_template, token_source, validate, Config,
    InstanceConfig, TemplatePart, TokenSource,
};

fn inst(alias: &str, url: &str) -> InstanceConfig {
    InstanceConfig {
        alias: alias.to_string(),
        url: url.to_string(),
        token: Some("t".to_string()),
        token_file: None,
        color: None,
    }
}

fn cfg(instances: Vec<InstanceConfig>) -> Config {
    Config { instances, log_level: default_log_level(), dashboards_path: None }
}

#[test]
fn rejects_duplicate_aliases() {
    let c = cfg(vec![inst("home", "ws://a/api/websocket"), inst("home", "ws://b/api/websocket")]);
    assert!(validate(&c).is_err());
}

#[test]
fn expands_env_in_token() {
    let t = split_template("${HA_TEST_TOK}");
    assert!(!t.unterminated);
    let names: Vec<&str> = t
        .parts
        .iter()
        .filter_map(|p| match p {
            TemplatePart::Var(v) => Some(v.as_str()),
            TemplatePart::Text(_) => None,
        })
        .collect();
    assert_eq!(names, vec!["HA_TEST_TOK"]);
    let token = fill_template(&t.parts, &vec!["secret123".to_string()]);
    assert_eq!(token, "secret123");
}

#[test]
fn duplicate_alias_message_names_it() {
    let c = cfg(vec![inst("home", "ws://a/x"), inst("work", "wss://b/x"), inst("home", "ws://c/x")]);
    assert_eq!(validate(&c).unwrap_err(), "duplicate instance alias: home");
}

#[test]
fn empty_config_refused() {
    assert_eq!(validate(&cfg(vec![])).unwrap_err(), "config has no instances");
}

#[test]
fn non_websocket_url_refused() {
    let c = cfg(vec![inst("home", "http://a/api/websocket")]);
    assert_eq!(validate(&c).unwrap_err(), "instance home url must start with ws:// or wss://");
}

#[test]
fn valid_config_accepted() {
    let c = cfg(vec![inst("home", "ws://a/api/websocket"), inst("cabin", "wss://b/api/websocket")]);
    assert!(validate(&c).is_ok());
}

#[test]
fn first_problem_wins() {
    let c = cfg(vec![inst("home", "ftp://a"), inst("home", "ws://b")]);
    assert_eq!(validate(&c).unwrap_err(), "instance home url must start with ws:// or wss://");
}

#[test]
fn template_with_text_around_vars() {
    let t = split_template("Bearer ${A}-${B}!");
    assert!(!t.unterminated);
    assert_eq!(t.parts.len(), 5);
    let out = fill_template(&t.parts, &vec!["x".to_string(), "yz".to_string()]);
    assert_eq!(out, "Bearer x-yz!");
}

#[test]
fn unterminated_template_flagged() {
    let t = split_template("abc${OPEN");
    assert!(t.unterminated);
    assert_eq!(t.parts.len(), 1);
    assert_eq!(fill_template(&t.parts, &vec![]), "abc");
}

#[test]
fn plain_token_is_one_text_part() {
    let t = split_template("plain");
    assert!(!t.unterminated);
    assert_eq!(fill_template(&t.parts, &vec![]), "plain");
}

#[test]
fn token_source_prefers_inline() {
    let mut i = inst("home", "ws://a");
    i.token_file = Some(std::path::PathBuf::from("/tmp/tok"));
    assert!(matches!(token_source(&i), Ok(TokenSource::Inline("t"))));
    i.token = None;
    assert!(matches!(token_source(&i), Ok(TokenSource::File(_))));
    i.token_file = None;
    assert_eq!(token_source(&i).unwrap_err(), "instance home has neither token nor token_file");
}

#[test]
fn instance_colors_keep_first_position_last_color() {
    let mut a = inst("home", "ws://a");
    a.color = Some("red".to_string());
    let b = inst("cabin", "ws://b");
    let mut c = inst("home", "ws://c");
    c.color = Some("blue".to_string());
    let m = cfg(vec![a, b, c]).instance_colors();
    let entries: Vec<(String, Option<String>)> = m.into_iter().collect();
    assert_eq!(
        entries,
        vec![("home".to_string(), Some("blue".to_string())), ("cabin".to_string(), None)]
    );
}

#[test]
fn default_config_path_joins_file_name() {
    let p = default_config_path(Some("/etc/ha-tui".to_string())).unwrap();
    assert_eq!(p, "/etc/ha-tui/config.yaml");
    assert_eq!(default_config_path(Some(String::new())).unwrap(), "config.yaml");
    let q = std::path::PathBuf::from(default_config_path(Some("/home/u/.config/ha-tui".to_string())).unwrap());
    assert_eq!(q.file_name().unwrap(), "config.yaml");
    assert_eq!(q.parent().unwrap(), std::path::Path::new("/home/u/.config/ha-tui"));
    assert!(default_config_path(None).is_none());
}

#[test]
fn default_log_level_is_info() {
    assert_eq!(default_log_level(), "info");
}
