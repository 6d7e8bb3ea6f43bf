use ha_tui::ha::AttrValue;
use ha_tui::query::{glob_match, EntityQuery, Op};

fn obj(entries: Vec<(&str, AttrValue)>, text: &str) -> AttrValue {
    AttrValue::Object(entries.into_iter().map(|(k, v)| (k.to_string(), v)).collect(), text.to_string())
}

#[test]
fn glob_basic() {
    assert!(glob_match("sensor.hbg_*", "sensor.hbg_temp"));
    assert!(!glob_match("sensor.hbg_*", "switch.kitchen"));
    assert!(glob_match("light.?ed", "light.bed"));
    assert!(!glob_match("light.?ed", "light.bed1"));
}

#[test]
fn parse_full_query() {
    let q = EntityQuery::parse(r#"sensor.hbg_*[state=on][attr.location="HBG - Helsingborg"]"#).unwrap();
    assert_eq!(q.glob, "sensor.hbg_*");
    assert_eq!(q.filters.len(), 2);
}

#[test]
fn matches_state() {
    let q = EntityQuery::parse("light.*[state=on]").unwrap();
    let attrs = obj(vec![], "{}");
    assert!(q.matches("light.kitchen", "on", &attrs));
    assert!(!q.matches("light.kitchen", "off", &attrs));
    assert!(!q.matches("switch.x", "on", &attrs));
}

#[test]
fn matches_attr() {
    let q = EntityQuery::parse(r#"sensor.*[attr.location="HBG - Helsingborg"]"#).unwrap();
    let attrs = obj(
        vec![("location", AttrValue::Text("HBG - Helsingborg".to_string()))],
        r#"{"location":"HBG - Helsingborg"}"#,
    );
    assert!(q.matches("sensor.x", "anything", &attrs));
    let attrs2 = obj(vec![("location", AttrValue::Text("Other".to_string()))], r#"{"location":"Other"}"#);
    assert!(!q.matches("sensor.x", "anything", &attrs2));
}

#[test]
fn contains_op() {
    let q = EntityQuery::parse(r#"sensor.*[attr.location~="HBG"]"#).unwrap();
    let attrs = obj(
        vec![("location", AttrValue::Text("HBG - Helsingborg".to_string()))],
        r#"{"location":"HBG - Helsingborg"}"#,
    );
    assert!(q.matches("sensor.x", "v", &attrs));
    let attrs2 = obj(vec![("location", AttrValue::Text("Other".to_string()))], r#"{"location":"Other"}"#);
    assert!(!q.matches("sensor.x", "v", &attrs2));
}

#[test]
fn parse_errors_name_their_cause() {
    assert_eq!(EntityQuery::parse("   ").unwrap_err(), "empty glob");
    assert_eq!(EntityQuery::parse("[state=on]").unwrap_err(), "empty glob");
    assert_eq!(EntityQuery::parse("a.*[state=on").unwrap_err(), "unterminated [...] block");
    assert_eq!(EntityQuery::parse("a.*[state]").unwrap_err(), "filter `state` has no operator");
    assert_eq!(EntityQuery::parse("a.*[color=red]").unwrap_err(), "unknown filter field `color`");
}

#[test]
fn operators_are_tried_longest_first() {
    let q = EntityQuery::parse("a.*[ attr.x ~! 'no' ][state!=off][state~=o]").unwrap();
    assert_eq!(q.filters[0].op, Op::NotContains);
    assert_eq!(q.filters[0].value, "no");
    assert_eq!(q.filters[1].op, Op::Ne);
    assert_eq!(q.filters[2].op, Op::Contains);
}

#[test]
fn nested_attribute_path_and_json_text() {
    let inner = obj(vec![("temp", AttrValue::Other("21.5".to_string()))], r#"{"temp":21.5}"#);
    let attrs = obj(vec![("forecast", inner)], r#"{"forecast":{"temp":21.5}}"#);
    let q = EntityQuery::parse("sensor.*[attr.forecast.temp=21.5]").unwrap();
    assert!(q.matches("sensor.a", "x", &attrs));
    let q2 = EntityQuery::parse("sensor.*[attr.missing=]").unwrap();
    assert!(q2.matches("sensor.a", "x", &attrs));
}

#[test]
fn glob_star_matches_empty_and_question_needs_a_byte() {
    assert!(glob_match("*", ""));
    assert!(!glob_match("?", ""));
    assert!(glob_match("a*b*c", "aXbYc"));
    assert!(!glob_match("abc", "ab"));
}

#[test]
fn op_eval_table() {
    assert!(Op::Eq.eval("on", "on"));
    assert!(Op::Ne.eval("on", "off"));
    assert!(Op::Contains.eval("hello", ""));
    assert!(!Op::NotContains.eval("hello", "ell"));
}

#[test]
fn glob_question_mark_takes_one_character() {
    assert!(glob_match("?", "é"));
    assert!(glob_match("light.?", "light.ü"));
    assert!(!glob_match("?", "éé"));
    assert!(glob_match("*", "ä.ö"));
    assert!(glob_match("sensor.k?k", "sensor.kök"));
}
