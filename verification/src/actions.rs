//! Domain-aware default actions and media-key services.
use vstd::prelude::*;

use crate::dashboard::{Alias, EntityId};
use crate::ha::{EntityState, ForecastKind, ImageFetchKind};
use crate::strings::{find_char, find_char_in, slice, str_eq, to_owned_string};

verus! {

/// A command for one Home Assistant instance.
#[derive(Debug)]
#[allow(inconsistent_fields)]
pub enum HaCommand {
    /// Call `domain.service` targeting one entity, with no service data.
    CallService { domain: String, service: String, entity_id: EntityId },
    /// Call `media_player.volume_mute` on one entity with `is_volume_muted`.
    SetVolumeMuted { entity_id: EntityId, muted: bool },
    /// Backfill history for one entity over the past `hours` hours.
    FetchHistory { entity_id: EntityId, hours: u32 },
    /// Fetch image bytes from the REST API (image or camera proxy).
    FetchImageBytes { entity: EntityId, kind: ImageFetchKind },
    /// Request a weather forecast.
    GetWeatherForecast { entity: EntityId, kind: ForecastKind },
}

#[derive(Debug)]
pub struct PendingAction {
    pub instance: Alias,
    pub entity_id: EntityId,
    pub command: HaCommand,
}

/// The part of an entity id before its first `.`.
pub open spec fn domain_of(id: Seq<char>) -> Option<Seq<char>> {
    match find_char(id, '.') {
        Some(i) => Some(id.take(i)),
        None => None,
    }
}

/// The service Enter triggers for an entity of `domain` in `state`, if any.
/// Locks: locked → unlock; any other known state → lock; no state at all → unlock.
pub open spec fn default_service(domain: Seq<char>, state: Option<Seq<char>>) -> Option<Seq<char>> {
    if domain == "light"@ || domain == "switch"@ || domain == "input_boolean"@ || domain == "fan"@
        || domain == "siren"@ || domain == "cover"@ {
        Some("toggle"@)
    } else if domain == "script"@ || domain == "automation"@ || domain == "scene"@ {
        Some("turn_on"@)
    } else if domain == "button"@ || domain == "input_button"@ {
        Some("press"@)
    } else if domain == "lock"@ {
        match state {
            Some(s) => if s == "locked"@ {
                Some("unlock"@)
            } else {
                Some("lock"@)
            },
            None => Some("unlock"@),
        }
    } else {
        None
    }
}

pub open spec fn default_action_spec(id: Seq<char>, state: Option<Seq<char>>) -> Option<(Seq<char>, Seq<char>)> {
    match domain_of(id) {
        None => None,
        Some(d) => match default_service(d, state) {
            Some(svc) => Some((d, svc)),
            None => None,
        },
    }
}

fn default_service_exec(domain: &str, state: Option<&EntityState>) -> (r: Option<&'static str>)
    ensures
        match (r, default_service(domain@, match state { Some(s) => Some(s.state@), None => None })) {
            (Some(a), Some(b)) => a@ == b,
            (None, None) => true,
            _ => false,
        },
{
    if str_eq(domain, "light") || str_eq(domain, "switch") || str_eq(domain, "input_boolean")
        || str_eq(domain, "fan") || str_eq(domain, "siren") || str_eq(domain, "cover") {
        Some("toggle")
    } else if str_eq(domain, "script") || str_eq(domain, "automation") || str_eq(domain, "scene") {
        Some("turn_on")
    } else if str_eq(domain, "button") || str_eq(domain, "input_button") {
        Some("press")
    } else if str_eq(domain, "lock") {
        match state {
            Some(s) => if str_eq(s.state.as_str(), "locked") {
                Some("unlock")
            } else {
                Some("lock")
            },
            None => Some("unlock"),
        }
    } else {
        None
    }
}

/// Domain-aware default action when Enter is pressed on an entity.
pub fn default_action(entity_id: &EntityId, state: Option<&EntityState>) -> (r: Option<HaCommand>)
    ensures
        match (r, default_action_spec(entity_id@, match state { Some(s) => Some(s.state@), None => None })) {
            (Some(HaCommand::CallService { domain, service, entity_id: target }), Some((d, svc))) =>
                domain@ == d && service@ == svc && target@ == entity_id@,
            (None, None) => true,
            _ => false,
        },
{
    let dot = match find_char_in(entity_id.as_str(), '.') {
        Some(i) => i,
        None => {
            return None;
        },
    };
    proof {
        crate::strings::lemma_find_char_bound(entity_id@, '.');
    }
    let domain = slice(entity_id.as_str(), 0, dot);
    assert(domain@ =~= entity_id@.take(dot as int));
    match default_service_exec(domain, state) {
        Some(svc) => Some(
            HaCommand::CallService {
                domain: to_owned_string(domain),
                service: to_owned_string(svc),
                entity_id: entity_id.clone(),
            },
        ),
        None => None,
    }
}

pub open spec fn media_service_spec(k: char) -> Option<Seq<char>> {
    if k == ' ' {
        Some("media_play_pause"@)
    } else if k == 'n' {
        Some("media_next_track"@)
    } else if k == 'p' {
        Some("media_previous_track"@)
    } else if k == '+' {
        Some("volume_up"@)
    } else if k == '-' {
        Some("volume_down"@)
    } else if k == 'm' {
        Some("volume_mute"@)
    } else {
        None
    }
}

/// The media-player service a key press triggers.
pub fn media_service_for_key(k: char) -> (r: Option<&'static str>)
    ensures
        match (r, media_service_spec(k)) {
            (Some(a), Some(b)) => a@ == b,
            (None, None) => true,
            _ => false,
        },
{
    match k {
        ' ' => Some("media_play_pause"),
        'n' => Some("media_next_track"),
        'p' => Some("media_previous_track"),
        '+' => Some("volume_up"),
        '-' => Some("volume_down"),
        'm' => Some("volume_mute"),
        _ => None,
    }
}

/// A command for the local media player.
#[derive(Clone, Copy, PartialEq, Eq, Structural, Debug)]
pub enum LocalCommand {
    PlayPause,
    Next,
    Prev,
    VolumeUp,
    VolumeDown,
    Mute,
}

/// Enter on a light, switch, input boolean, fan, siren or cover toggles it:
/// the action calls `toggle` on the entity's own domain, whatever its state.
pub proof fn law_toggle_domains(id: Seq<char>, state: Option<Seq<char>>, d: Seq<char>)
    requires
        domain_of(id) == Some(d),
        d == "light"@ || d == "switch"@ || d == "input_boolean"@ || d == "fan"@ || d == "siren"@ || d == "cover"@,
    ensures
        default_action_spec(id, state) == Some((d, "toggle"@)),
{
}

/// The other default actions: scripts, automations and scenes are turned on,
/// buttons pressed; a lock is unlocked when locked (or of unknown state) and
/// locked otherwise; an id without a domain, or of any other domain, has
/// none.
pub proof fn law_other_default_actions(id: Seq<char>, state: Option<Seq<char>>, d: Seq<char>)
    ensures
        domain_of(id) == Some(d) && (d == "script"@ || d == "automation"@ || d == "scene"@) ==> default_action_spec(
            id,
            state,
        ) == Some((d, "turn_on"@)),
        domain_of(id) == Some(d) && (d == "button"@ || d == "input_button"@) ==> default_action_spec(id, state) == Some(
            (d, "press"@),
        ),
        domain_of(id) == Some("lock"@) ==> default_action_spec(id, state) == Some(
            ("lock"@, if state == Some("locked"@) || state is None { "unlock"@ } else { "lock"@ }),
        ),
        domain_of(id) is None ==> default_action_spec(id, state) is None,
        domain_of(id) == Some(d) && !(d == "light"@ || d == "switch"@ || d == "input_boolean"@ || d == "fan"@ || d
            == "siren"@ || d == "cover"@ || d == "script"@ || d == "automation"@ || d == "scene"@ || d == "button"@ || d
            == "input_button"@ || d == "lock"@) ==> default_action_spec(id, state) is None,
{
    reveal_strlit("light");
    reveal_strlit("switch");
    reveal_strlit("input_boolean");
    reveal_strlit("fan");
    reveal_strlit("siren");
    reveal_strlit("cover");
    reveal_strlit("script");
    reveal_strlit("automation");
    reveal_strlit("scene");
    reveal_strlit("button");
    reveal_strlit("input_button");
    reveal_strlit("lock");
    reveal_strlit("locked");
    if d == "script"@ {
        assert("script"@.len() != "light"@.len());
        assert("script"@[1] != "switch"@[1]);
        assert("script"@.len() != "input_boolean"@.len());
        assert("script"@.len() != "fan"@.len());
        assert("script"@.len() != "siren"@.len());
        assert("script"@.len() != "cover"@.len());
    }
    if d == "automation"@ {
        assert("automation"@.len() != "light"@.len());
        assert("automation"@.len() != "switch"@.len());
        assert("automation"@.len() != "input_boolean"@.len());
        assert("automation"@.len() != "fan"@.len());
        assert("automation"@.len() != "siren"@.len());
        assert("automation"@.len() != "cover"@.len());
    }
    if d == "scene"@ {
        assert("scene"@[0] != "light"@[0]);
        assert("scene"@.len() != "switch"@.len());
        assert("scene"@.len() != "input_boolean"@.len());
        assert("scene"@.len() != "fan"@.len());
        assert("scene"@[1] != "siren"@[1]);
        assert("scene"@[0] != "cover"@[0]);
    }
    if d == "button"@ {
        assert("button"@.len() != "light"@.len());
        assert("button"@[0] != "switch"@[0]);
        assert("button"@.len() != "input_boolean"@.len());
        assert("button"@.len() != "fan"@.len());
        assert("button"@.len() != "siren"@.len());
        assert("button"@.len() != "cover"@.len());
        assert("button"@[0] != "script"@[0]);
        assert("button"@.len() != "automation"@.len());
        assert("button"@.len() != "scene"@.len());
    }
    if d == "input_button"@ {
        assert("input_button"@.len() != "light"@.len());
        assert("input_button"@.len() != "switch"@.len());
        assert("input_button"@.len() != "input_boolean"@.len());
        assert("input_button"@.len() != "fan"@.len());
        assert("input_button"@.len() != "siren"@.len());
        assert("input_button"@.len() != "cover"@.len());
        assert("input_button"@.len() != "script"@.len());
        assert("input_button"@.len() != "automation"@.len());
        assert("input_button"@.len() != "scene"@.len());
    }
    if domain_of(id) == Some("lock"@) {
        assert("lock"@.len() != "light"@.len());
        assert("lock"@.len() != "switch"@.len());
        assert("lock"@.len() != "input_boolean"@.len());
        assert("lock"@.len() != "fan"@.len());
        assert("lock"@.len() != "siren"@.len());
        assert("lock"@.len() != "cover"@.len());
        assert("lock"@.len() != "script"@.len());
        assert("lock"@.len() != "automation"@.len());
        assert("lock"@.len() != "scene"@.len());
        assert("lock"@.len() != "button"@.len());
        assert("lock"@.len() != "input_button"@.len());
        assert("locked"@.len() != 0);
    }
}

} // verus!
