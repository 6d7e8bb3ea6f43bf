use ha_tui::rest::https_base_from_ws;
use url::Url;

fn base(s: &str) -> Url {
    Url::parse(&https_base_from_ws(s).unwrap()).unwrap()
}

#[test]
fn ws_to_https() {
    let u = base("wss://ha.example/api/websocket");
    assert_eq!(u.scheme(), "https");
    assert_eq!(u.host_str(), Some("ha.example"));
}

#[test]
fn ws_plaintext() {
    let u = base("ws://ha.local:8123/api/websocket");
    assert_eq!(u.scheme(), "http");
}

#[test]
fn ws_invalid_scheme() {
    assert!(https_base_from_ws("ftp://ha.example/api/websocket").is_err());
}

#[test]
fn base_path_is_root() {
    let u = base("ws://ha.local:8123/api/websocket");
    assert_eq!(u.path(), "/");
    assert_eq!(u.port(), Some(8123));
    assert_eq!(u.as_str(), "http://ha.local:8123/");
}

#[test]
fn default_port_of_the_new_scheme_is_dropped() {
    assert_eq!(https_base_from_ws("ws://h:443/x?q=1").unwrap(), "http://h:443/?q=1");
    assert_eq!(https_base_from_ws("wss://h:443/x").unwrap(), "https://h/");
}

#[test]
fn unexpected_scheme_message() {
    assert_eq!(https_base_from_ws("ftp://ha.example/x").unwrap_err(), "unexpected scheme: ftp");
}

#[test]
fn unparsable_url_reports_parse_error() {
    assert_eq!(https_base_from_ws("not a url").unwrap_err(), "relative URL without a base");
}
