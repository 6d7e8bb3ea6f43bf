//! The bookkeeping of one connection to a Home Assistant instance: request
//! ids, the requests still waiting for their result, and what a result or a
//! command becomes.
use vstd::prelude::*;
use std::collections::HashMap;

use crate::actions::HaCommand;
use crate::dashboard::EntityId;
use crate::ha::{ForecastKind, ImageFetchKind};

verus! {

broadcast use vstd::std_specs::hash::group_hash_axioms;

/// One open connection's request bookkeeping.
pub struct Session {
    /// The last request id handed out.
    pub counter: u64,
    /// The id of the request for every state.
    pub states_id: u64,
    /// History requests waiting for their result, by id.
    pub pending_history: HashMap<u64, EntityId>,
    /// Forecast requests waiting for their result, by id.
    pub pending_weather: HashMap<u64, (EntityId, ForecastKind)>,
}

/// What a command sends.
#[derive(Debug)]
pub enum Outgoing {
    CallService { id: u64, domain: String, service: String, entity_id: EntityId },
    SetVolumeMuted { id: u64, entity_id: EntityId, muted: bool },
    /// A history request for the past `hours` hours.
    History { id: u64, entity_id: EntityId, hours: u32 },
    /// An image fetch over the REST API (no request id).
    Image { entity: EntityId, kind: ImageFetchKind },
    /// A forecast request.
    Weather { id: u64, entity: EntityId, kind: ForecastKind },
}

/// What a result message is.
#[derive(Debug)]
pub enum ResultRoute {
    /// The states asked for when the connection opened.
    InitialStates,
    /// The history of this entity.
    History(EntityId),
    /// The forecast of this entity.
    Weather(EntityId, ForecastKind),
    /// A request failed.
    Error,
    /// Nothing waits for it.
    Ignore,
}

impl Session {
    /// A session just authenticated: the request for every state takes id 2
    /// and the event subscription id 3.
    pub fn start() -> (r: (Session, u64, u64))
        ensures
            r.0.counter == 3,
            r.0.states_id == 2,
            r.1 == 2,
            r.2 == 3,
            r.0.pending_history@ == Map::<u64, EntityId>::empty(),
            r.0.pending_weather@ == Map::<u64, (EntityId, ForecastKind)>::empty(),
    {
        let mut s = Session { counter: 1, states_id: 0, pending_history: HashMap::new(), pending_weather: HashMap::new() };
        let get_id = s.next_id();
        let sub_id = s.next_id();
        s.states_id = get_id;
        (s, get_id, sub_id)
    }

    /// The next request id.
    pub fn next_id(&mut self) -> (r: u64)
        requires
            old(self).counter < u64::MAX,
        ensures
            r == old(self).counter + 1,
            *final(self) == (Session { counter: r, ..*old(self) }),
    {
        self.counter = self.counter + 1;
        self.counter
    }

    /// What command `cmd` sends: each request but an image fetch takes the
    /// next id, and history and forecast requests wait for their result
    /// under it.
    pub fn command(&mut self, cmd: HaCommand) -> (r: Outgoing)
        requires
            old(self).counter < u64::MAX,
        ensures
            final(self).states_id == old(self).states_id,
            match cmd {
                HaCommand::FetchImageBytes { entity, kind } => *final(self) == *old(self) && r == (Outgoing::Image { entity, kind }),
                _ => final(self).counter == old(self).counter + 1,
            },
            match cmd {
                HaCommand::CallService { domain, service, entity_id } => r == (Outgoing::CallService {
                    id: final(self).counter,
                    domain,
                    service,
                    entity_id,
                }) && final(self).pending_history@ == old(self).pending_history@ && final(self).pending_weather@ == old(
                    self,
                ).pending_weather@,
                HaCommand::SetVolumeMuted { entity_id, muted } => r == (Outgoing::SetVolumeMuted {
                    id: final(self).counter,
                    entity_id,
                    muted,
                }) && final(self).pending_history@ == old(self).pending_history@ && final(self).pending_weather@ == old(
                    self,
                ).pending_weather@,
                HaCommand::FetchHistory { entity_id, hours } => r == (Outgoing::History { id: final(self).counter, entity_id, hours })
                    && final(self).pending_history@ == old(self).pending_history@.insert(final(self).counter, entity_id)
                    && final(self).pending_weather@ == old(self).pending_weather@,
                HaCommand::GetWeatherForecast { entity, kind } => r == (Outgoing::Weather { id: final(self).counter, entity, kind })
                    && final(self).pending_weather@ == old(self).pending_weather@.insert(final(self).counter, (entity, kind))
                    && final(self).pending_history@ == old(self).pending_history@,
                HaCommand::FetchImageBytes { .. } => true,
            },
    {
        match cmd {
            HaCommand::CallService { domain, service, entity_id } => {
                let id = self.next_id();
                Outgoing::CallService { id, domain, service, entity_id }
            },
            HaCommand::SetVolumeMuted { entity_id, muted } => {
                let id = self.next_id();
                Outgoing::SetVolumeMuted { id, entity_id, muted }
            },
            HaCommand::FetchHistory { entity_id, hours } => {
                let id = self.next_id();
                self.pending_history.insert(id, entity_id.clone());
                Outgoing::History { id, entity_id, hours }
            },
            HaCommand::FetchImageBytes { entity, kind } => Outgoing::Image { entity, kind },
            HaCommand::GetWeatherForecast { entity, kind } => {
                let id = self.next_id();
                self.pending_weather.insert(id, (entity.clone(), kind));
                Outgoing::Weather { id, entity, kind }
            },
        }
    }

    /// What a result with request id `id` is: the initial states when it
    /// answers that request successfully; a waiting history or forecast
    /// request's answer (which then no longer waits); an error, which drops
    /// whatever waited under that id; otherwise nothing.
    pub fn result(&mut self, id: u64, success: bool) -> (r: ResultRoute)
        ensures
            final(self).counter == old(self).counter,
            final(self).states_id == old(self).states_id,
            if success && id == old(self).states_id {
                r is InitialStates && *final(self) == *old(self)
            } else if success && old(self).pending_history@.contains_key(id) {
                (r matches ResultRoute::History(e) && e == old(self).pending_history@[id]) && final(self).pending_history@ == old(
                    self,
                ).pending_history@.remove(id) && final(self).pending_weather@ == old(self).pending_weather@
            } else if success && old(self).pending_weather@.contains_key(id) {
                (r matches ResultRoute::Weather(e, k) && (e, k) == old(self).pending_weather@[id]) && final(self).pending_weather@
                    == old(self).pending_weather@.remove(id) && final(self).pending_history@ == old(self).pending_history@
            } else if !success {
                r is Error && final(self).pending_history@ == old(self).pending_history@.remove(id) && final(self).pending_weather@
                    == old(self).pending_weather@.remove(id)
            } else {
                r is Ignore && final(self).pending_history@ == old(self).pending_history@ && final(self).pending_weather@ == old(
                    self,
                ).pending_weather@
            },
    {
        if success && id == self.states_id {
            return ResultRoute::InitialStates;
        }
        if success {
            match self.pending_history.remove(&id) {
                Some(e) => return ResultRoute::History(e),
                None => {},
            }
            match self.pending_weather.remove(&id) {
                Some((e, k)) => return ResultRoute::Weather(e, k),
                None => {},
            }
            ResultRoute::Ignore
        } else {
            self.pending_history.remove(&id);
            self.pending_weather.remove(&id);
            ResultRoute::Error
        }
    }
}

} // verus!
