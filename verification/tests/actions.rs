use ha_tui::actions::{default_action, media_service_for_key, HaCommand};
use ha_tui::ha::{AttrValue, EntityState};

fn make_state(state_str: &str) -> EntityState {
    EntityState {
        entity_id: "test.entity".to_string(),
        state: state_str.to_string(),
        attributes: AttrValue::Object(Vec::new(), "{}".to_string()),
        last_changed: None,
        last_updated: None,
    }
}

#[test]
fn light_toggles() {
    let cmd = default_action(&"light.kitchen".to_string(), None).unwrap();
    let HaCommand::CallService { domain, service, .. } = cmd else {
        panic!("expected CallService");
    };
    assert_eq!(domain, "light");
    assert_eq!(service, "toggle");
}

#[test]
fn script_turns_on() {
    let cmd = default_action(&"script.morning".to_string(), None).unwrap();
    let HaCommand::CallService { service, .. } = cmd else {
        panic!("expected CallService");
    };
    assert_eq!(service, "turn_on");
}

#[test]
fn unknown_domain_no_action() {
    assert!(default_action(&"sensor.temp".to_string(), None).is_none());
}

#[test]
fn button_presses() {
    let cmd = default_action(&"button.doorbell".to_string(), None).unwrap();
    let HaCommand::CallService { domain, service, .. } = cmd else {
        panic!("expected CallService");
    };
    assert_eq!(domain, "button");
    assert_eq!(service, "press");
}

#[test]
fn input_button_presses() {
    let cmd = default_action(&"input_button.foo".to_string(), None).unwrap();
    let HaCommand::CallService { service, .. } = cmd else {
        panic!("expected CallService");
    };
    assert_eq!(service, "press");
}

#[test]
fn lock_when_locked_unlocks() {
    let s = make_state("locked");
    let cmd = default_action(&"lock.front_door".to_string(), Some(&s)).unwrap();
    let HaCommand::CallService { service, .. } = cmd else {
        panic!("expected CallService");
    };
    assert_eq!(service, "unlock");
}

#[test]
fn lock_when_unlocked_locks() {
    let s = make_state("unlocked");
    let cmd = default_action(&"lock.front_door".to_string(), Some(&s)).unwrap();
    let HaCommand::CallService { service, .. } = cmd else {
        panic!("expected CallService");
    };
    assert_eq!(service, "lock");
}

#[test]
fn lock_when_state_none_unlocks() {
    let cmd = default_action(&"lock.front_door".to_string(), None).unwrap();
    let HaCommand::CallService { service, .. } = cmd else {
        panic!("expected CallService");
    };
    assert_eq!(service, "unlock");
}

#[test]
fn existing_light_toggle_still_works() {
    let cmd = default_action(&"light.kitchen".to_string(), None).unwrap();
    let HaCommand::CallService { service, .. } = cmd else {
        panic!("expected CallService");
    };
    assert_eq!(service, "toggle");
}

#[test]
fn call_targets_the_entity() {
    let cmd = default_action(&"cover.garage".to_string(), None).unwrap();
    let HaCommand::CallService { domain, service, entity_id } = cmd else {
        panic!("expected CallService");
    };
    assert_eq!(domain, "cover");
    assert_eq!(service, "toggle");
    assert_eq!(entity_id, "cover.garage");
}

#[test]
fn id_without_domain_has_no_action() {
    assert!(default_action(&"light".to_string(), None).is_none());
}

#[test]
fn scene_turns_on() {
    let HaCommand::CallService { service, .. } = default_action(&"scene.evening".to_string(), None).unwrap() else {
        panic!("expected CallService");
    };
    assert_eq!(service, "turn_on");
}

#[test]
fn media_keys_map_to_services() {
    assert_eq!(media_service_for_key(' '), Some("media_play_pause"));
    assert_eq!(media_service_for_key('n'), Some("media_next_track"));
    assert_eq!(media_service_for_key('p'), Some("media_previous_track"));
    assert_eq!(media_service_for_key('+'), Some("volume_up"));
    assert_eq!(media_service_for_key('-'), Some("volume_down"));
    assert_eq!(media_service_for_key('m'), Some("volume_mute"));
    assert_eq!(media_service_for_key('x'), None);
}
