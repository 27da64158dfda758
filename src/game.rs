use vstd::prelude::*;
use rand::Rng;
use crate::catalog::{ControlMeasureCatalog, ControlMeasureLevel, ControlMeasureParams, EventCatalog, EventParams, lemma_level_negatable};
use crate::error::{GameError, Missing, Invalid};
use crate::news::{ControlMeasureAction, EventAction, Read, control_message, control_text, event_message, event_text};
use crate::params::{PARAM_SCALE, ParamLimits, Tunables, TOTAL_DAYS, apply_delta, backfire_delta, backfired, delta_result};
use crate::state::{PlayerState, Regions, SimulatorParams, Status, find_region, region_index, lemma_region_index_same_ids};
use crate::measures::ActiveControlMeasures;

verus! {

/// What an accepted event's reward loses for each time it was postponed.
pub const EVENT_POSTPONE_PENALTY: i64 = 100;

/// A request to apply or remove a level of a control measure in a region.
/// `params` is the region's state as the player sees it, compartments as
/// head counts.
pub struct ControlMeasure {
    pub level: i32,
    pub cur_date: i32,
    pub name: String,
    pub params: SimulatorParams,
    pub region: u32,
    pub action: ControlMeasureAction,
}

/// A request about the player's current event.
pub struct Event {
    pub cur_date: i32,
    pub id: i32,
    pub params: SimulatorParams,
    pub action: EventAction,
}

/// A request to store the state the player has reached in a region.
pub struct Save {
    pub cur_date: i32,
    pub region: u32,
    pub params: SimulatorParams,
}

/// A request to start, or resume, a region.
pub struct Start {
    pub region: i32,
}

/// The starting snapshot of each region of a level.
pub struct StartParams {
    pub params: Vec<(i32, SimulatorParams)>,
}

/// A run of the epidemic model to be made: from `initial` at day 0 for
/// `days` days. `date` is the game day it starts from.
#[derive(Clone, Copy, Debug, PartialEq, Eq, Structural)]
pub struct SimulatorResponse {
    pub date: i32,
    pub region: i32,
    pub initial: SimulatorParams,
    pub days: i64,
}

/// The outcome of a control measure or an accepted event.
pub struct ActionResponse {
    pub simulation_data: SimulatorResponse,
    pub description: String,
    pub is_success: bool,
}

/// A response to the player, tagged by kind.
pub enum WSResponse {
    /// The level's seed data.
    Seed(String),
    /// A region started or resumed, with the run to show.
    Start(SimulatorResponse),
    /// The outcome of a control measure.
    Control(ActionResponse),
    /// The outcome of an accepted event.
    Event(ActionResponse),
    /// The event now current.
    EventParams(EventParams),
    /// Why a request failed.
    Error(String),
    /// A plain message about an event; it travels under the name `Ok`.
    Notice(String),
    /// A notice that something was stored.
    Info(String),
}

pub open spec fn days_left(cur_date: i32) -> i64 {
    (TOTAL_DAYS - cur_date) as i64
}

pub open spec fn zero_tunables() -> Tunables {
    Tunables { ideal_reproduction_number: 0, compliance_factor: 0, recovery_rate: 0, infection_rate: 0 }
}

impl ControlMeasure {
    /// The catalog entry of the requested measure.
    pub open spec fn measure(&self, catalog: ControlMeasureCatalog) -> ControlMeasureParams {
        catalog.spec_measure(self.name@).unwrap()
    }

    /// Index of the requested region among the player's.
    pub open spec fn region_at(&self, state: PlayerState) -> int {
        region_index(state.regions@, self.region as int).unwrap()
    }

    /// The measures in force in the requested region.
    pub open spec fn active(&self, state: PlayerState) -> Map<Seq<char>, i32> {
        state.regions@[self.region_at(state)].active_control_measures@
    }

    /// The change the measure now in force makes, zero if none is.
    pub open spec fn existing(&self, state: PlayerState, catalog: ControlMeasureCatalog) -> Tunables {
        if self.active(state).contains_key(self.name@) {
            self.measure(catalog).spec_level(self.active(state)[self.name@]).unwrap().params_delta
        } else {
            zero_tunables()
        }
    }

    /// The requested level of the measure.
    pub open spec fn level_of(&self, catalog: ControlMeasureCatalog) -> ControlMeasureLevel {
        self.measure(catalog).spec_level(self.level).unwrap()
    }

    /// The change the measure makes once the request is carried out.
    pub open spec fn target(&self, catalog: ControlMeasureCatalog, failed: bool) -> Tunables {
        match self.action {
            ControlMeasureAction::Apply => if failed {
                backfired(self.level_of(catalog).params_delta)
            } else {
                self.level_of(catalog).params_delta
            },
            ControlMeasureAction::Remove => zero_tunables(),
        }
    }

    /// What the player pays.
    pub open spec fn cost(&self, catalog: ControlMeasureCatalog, failed: bool) -> int {
        if self.action == ControlMeasureAction::Apply && !failed {
            self.level_of(catalog).cost as int
        } else {
            0
        }
    }

    /// The region's tunable parameters once the request is carried out.
    pub open spec fn changed(
        &self,
        state: PlayerState,
        catalog: ControlMeasureCatalog,
        failed: bool,
        limits: ParamLimits,
    ) -> Tunables {
        delta_result(
            self.existing(state, catalog),
            self.target(catalog, failed),
            self.params.tunables_of(),
            limits,
        )
    }

    /// The measures in force once a request that did not backfire is
    /// carried out. A level whose change is zero is not kept.
    pub open spec fn active_after(&self, state: PlayerState, catalog: ControlMeasureCatalog) -> Map<
        Seq<char>,
        i32,
    > {
        match self.action {
            ControlMeasureAction::Apply => if self.level_of(catalog).params_delta.is_zero() {
                self.active(state).remove(self.name@)
            } else {
                self.active(state).insert(self.name@, self.level)
            },
            ControlMeasureAction::Remove => self.active(state).remove(self.name@),
        }
    }

    /// The error the request meets, if any, in the order the checks are made.
    pub open spec fn error(&self, state: PlayerState, catalog: ControlMeasureCatalog) -> Option<GameError> {
        if state.status is None {
            Some(GameError::NotFound(Missing::Status))
        } else if catalog.spec_measure(self.name@) is None {
            Some(GameError::NotFound(Missing::ControlMeasure))
        } else if region_index(state.regions@, self.region as int) is None {
            Some(GameError::NotFound(Missing::Region))
        } else if self.active(state).contains_key(self.name@) && self.measure(catalog).spec_level(
            self.active(state)[self.name@],
        ) is None {
            Some(GameError::NotFound(Missing::Level))
        } else {
            match self.action {
                ControlMeasureAction::Apply => if self.active(state).contains_key(self.name@)
                    && self.active(state)[self.name@] == self.level {
                    Some(GameError::AlreadyApplied)
                } else if self.measure(catalog).spec_level(self.level) is None {
                    Some(GameError::NotFound(Missing::Level))
                } else if (state.money as int) < self.level_of(catalog).cost as int {
                    Some(GameError::InsufficientFunds)
                } else {
                    None
                },
                ControlMeasureAction::Remove => if self.existing(state, catalog).is_zero() {
                    Some(GameError::NotApplied)
                } else {
                    None
                },
            }
        }
    }

    /// What carrying out the request did: `before` and `after` are the
    /// player's state on either side, `failed` whether the measure backfired.
    pub open spec fn outcome(
        &self,
        before: PlayerState,
        after: PlayerState,
        catalog: ControlMeasureCatalog,
        news: Option<Read>,
        failed: bool,
        limits: ParamLimits,
        r: Result<ActionResponse, GameError>,
    ) -> bool {
        &&& (r is Err <==> self.error(before, catalog) is Some)
        &&& (r matches Err(e) ==> e == self.error(before, catalog).unwrap() && after == before)
        &&& (r matches Ok(resp) ==> {
            let ri = self.region_at(before);
            let st = before.status.unwrap();
            let changed = self.changed(before, catalog, failed, limits);
            &&& after.money == before.money - self.cost(catalog, failed)
            &&& after.is_randomized == before.is_randomized
            &&& after.status == Some(
                Status { current_event: st.current_event, postponed: st.postponed, cur_date: self.cur_date },
            )
            &&& after.regions@.len() == before.regions@.len()
            &&& forall|j: int|
                0 <= j < before.regions@.len() && j != ri ==> after.regions@[j] == before.regions@[j]
            &&& after.regions@[ri].region_id == before.regions@[ri].region_id
            &&& after.regions@[ri].simulation_params == self.params.spec_from_counts(changed)
            &&& after.regions@[ri].active_control_measures@ == (if failed {
                self.active(before)
            } else {
                self.active_after(before, catalog)
            })
            &&& resp.is_success == !failed
            &&& resp.description@ == control_text(news, self.action)
            &&& resp.simulation_data == (SimulatorResponse {
                date: self.cur_date,
                region: before.regions@[ri].region_id,
                initial: self.params.spec_from_counts(changed),
                days: days_left(self.cur_date),
            })
        })
    }

    /// Carries out the request, given whether the measure backfires.
    ///
    /// On success the player's date becomes the request's and the player pays
    /// the level's cost (nothing on removal or when it backfires). The region
    /// stores the request's state with the changed parameters, which take the
    /// backfired change when the measure backfires. Unless it backfires, the
    /// measure is recorded, updated or dropped; when it does, the measures in
    /// force are left as they were. On any error nothing changes.
    pub fn transition(
        &self,
        state: &mut PlayerState,
        catalog: &ControlMeasureCatalog,
        news: &Option<Read>,
        failed: bool,
        limits: &ParamLimits,
    ) -> (r: Result<ActionResponse, GameError>)
        requires
            catalog.wf(),
        ensures
            self.outcome(*old(state), *final(state), *catalog, *news, failed, *limits, r),
    {
        let status = match state.status {
            None => return Err(GameError::NotFound(Missing::Status)),
            Some(s) => s,
        };
        let mi = match catalog.index_of(&self.name) {
            None => return Err(GameError::NotFound(Missing::ControlMeasure)),
            Some(i) => i,
        };
        let measure = &catalog.measures[mi].1;
        assert(measure.wf());
        let ri = match find_region(&state.regions, self.region as i64) {
            None => return Err(GameError::NotFound(Missing::Region)),
            Some(i) => i,
        };
        let active_level = state.regions[ri].active_control_measures.get(&self.name);
        let existing = match active_level {
            Some(lv) => match measure.level(lv) {
                Some(l) => l.params_delta,
                None => return Err(GameError::NotFound(Missing::Level)),
            },
            None => Tunables::zero(),
        };
        let mut drop_entry = true;
        let (target, cost) = match self.action {
            ControlMeasureAction::Apply => {
                if let Some(lv) = active_level {
                    if lv == self.level {
                        return Err(GameError::AlreadyApplied);
                    }
                }
                let l = match measure.level(self.level) {
                    None => return Err(GameError::NotFound(Missing::Level)),
                    Some(l) => l,
                };
                if (state.money as i64) < (l.cost as i64) {
                    return Err(GameError::InsufficientFunds);
                }
                proof {
                    lemma_level_negatable(measure, self.level);
                }
                drop_entry = l.params_delta.check_zero();
                if failed {
                    (backfire_delta(&l.params_delta), 0u32)
                } else {
                    (l.params_delta, l.cost)
                }
            },
            ControlMeasureAction::Remove => {
                if existing.check_zero() {
                    return Err(GameError::NotApplied);
                }
                (Tunables::zero(), 0u32)
            },
        };
        let received = self.params.tunables();
        let changed = apply_delta(&existing, &target, &received, limits);
        let new_params = self.params.from_counts(&changed);
        let region_id = state.regions[ri].region_id;
        state.status = Some(
            Status { current_event: status.current_event, postponed: status.postponed, cur_date: self.cur_date },
        );
        let ghost before = state.regions@;
        let mut region = state.regions.remove(ri);
        region.simulation_params = new_params;
        if !failed {
            if drop_entry {
                region.active_control_measures.remove(&self.name);
            } else {
                region.active_control_measures.set(&self.name, self.level);
            }
        }
        state.regions.insert(ri, region);
        proof {
            assert forall|j: int| 0 <= j < before.len() && j != ri implies state.regions@[j] == before[j] by {
                assert(state.regions@[j] == before[j]);
            }
        }
        state.money = (state.money as i64 - cost as i64) as i32;
        let description = control_message(news, self.action);
        Ok(
            ActionResponse {
                simulation_data: SimulatorResponse {
                    date: self.cur_date,
                    region: region_id,
                    initial: new_params,
                    days: TOTAL_DAYS as i64 - self.cur_date as i64,
                },
                description,
                is_success: !failed,
            },
        )
    }

    /// Carries out the request. A player in randomized mode draws whether
    /// the measure backfires, with the measure's mess-up chance; otherwise it
    /// never does.
    pub fn handle(
        &self,
        state: &mut PlayerState,
        catalog: &ControlMeasureCatalog,
        news: &Option<Read>,
        limits: &ParamLimits,
    ) -> (r: Result<ActionResponse, GameError>)
        requires
            catalog.wf(),
        ensures
            self.outcome(
                *old(state),
                *final(state),
                *catalog,
                *news,
                r matches Ok(resp) && !resp.is_success,
                *limits,
                r,
            ),
            r matches Ok(resp) && !resp.is_success ==> old(state).is_randomized,
    {
        let mut failed = false;
        if state.is_randomized {
            if let Some(mi) = catalog.index_of(&self.name) {
                let draw = draw_chance();
                failed = draw <= catalog.measures[mi].1.mess_up_chance;
            }
        }
        self.transition(state, catalog, news, failed, limits)
    }
}

impl EventParams {
    /// A copy of the event.
    pub fn duplicate(&self) -> (r: EventParams)
        ensures
            r == *self,
    {
        EventParams {
            id: self.id,
            name: self.name.clone(),
            description: self.description.clone(),
            params_delta: self.params_delta,
            region: self.region,
            reward: self.reward,
        }
    }
}

/// The reward for accepting an event worth `reward` after postponing it
/// `postponed` times.
pub open spec fn event_reward(reward: i32, postponed: i32) -> int {
    reward - postponed * EVENT_POSTPONE_PENALTY
}

pub fn reward_after_postponing(reward: i32, postponed: i32) -> (r: i64)
    ensures
        r == event_reward(reward, postponed),
{
    reward as i64 - postponed as i64 * EVENT_POSTPONE_PENALTY
}

impl Event {
    /// The id of the event the request is about: for a request for the
    /// current event, the first event if none was requested yet.
    pub open spec fn event_id(&self, st: Status) -> i32 {
        if self.action == EventAction::Request {
            if st.current_event == 0 {
                1
            } else {
                st.current_event
            }
        } else {
            self.id
        }
    }

    pub open spec fn entry(&self, catalog: EventCatalog, st: Status) -> EventParams {
        catalog.events@[catalog.spec_index(self.event_id(st)).unwrap()]
    }

    /// Index of the event's region among the player's.
    pub open spec fn region_at(&self, state: PlayerState, catalog: EventCatalog) -> int {
        region_index(state.regions@, self.entry(catalog, state.status.unwrap()).region as int).unwrap()
    }

    /// The region's tunable parameters once the event is accepted.
    pub open spec fn changed(&self, catalog: EventCatalog, st: Status, limits: ParamLimits) -> Tunables {
        delta_result(zero_tunables(), self.entry(catalog, st).params_delta, self.params.tunables_of(), limits)
    }

    /// The error the request meets, if any, in the order the checks are made.
    pub open spec fn error(&self, state: PlayerState, catalog: EventCatalog) -> Option<GameError> {
        if state.status is None {
            Some(GameError::NotFound(Missing::Status))
        } else {
            let st = state.status.unwrap();
            match self.action {
                EventAction::Request => if catalog.spec_index(self.event_id(st)) is None {
                    Some(GameError::NotFound(Missing::Event))
                } else {
                    None
                },
                EventAction::Accept => if catalog.spec_index(self.id) is None {
                    Some(GameError::NotFound(Missing::Event))
                } else if st.current_event != self.id {
                    Some(GameError::InvalidRequest(Invalid::EventNotRequested))
                } else if region_index(state.regions@, self.entry(catalog, st).region as int) is None {
                    Some(GameError::NotFound(Missing::Region))
                } else if !(i32::MIN <= state.money + event_reward(self.entry(catalog, st).reward, st.postponed) <= i32::MAX)
                    || st.current_event == i32::MAX {
                    Some(GameError::PersistenceFailure)
                } else {
                    None
                },
                EventAction::Decline => if st.current_event == i32::MAX {
                    Some(GameError::PersistenceFailure)
                } else {
                    None
                },
                EventAction::Postpone => if st.postponed == i32::MAX {
                    Some(GameError::PersistenceFailure)
                } else {
                    None
                },
            }
        }
    }

    /// What carrying out the request did, `before` and `after` being the
    /// player's state on either side.
    pub open spec fn outcome(
        &self,
        before: PlayerState,
        after: PlayerState,
        catalog: EventCatalog,
        news: Option<Read>,
        limits: ParamLimits,
        r: Result<WSResponse, GameError>,
    ) -> bool {
        &&& (r is Err <==> self.error(before, catalog) is Some)
        &&& (r matches Err(e) ==> e == self.error(before, catalog).unwrap() && after == before)
        &&& (r is Ok ==> {
            let st = before.status.unwrap();
            &&& after.is_randomized == before.is_randomized
            &&& match self.action {
                EventAction::Request => {
                    &&& after.money == before.money
                    &&& after.regions@ == before.regions@
                    &&& after.status == Some(Status {
                        current_event: self.event_id(st),
                        postponed: if st.current_event == 0 { 0 } else { st.postponed },
                        cur_date: self.cur_date,
                    })
                    &&& r == Ok::<WSResponse, GameError>(WSResponse::EventParams(self.entry(catalog, st)))
                },
                EventAction::Accept => {
                    let ri = self.region_at(before, catalog);
                    let changed = self.changed(catalog, st, limits);
                    &&& after.money == before.money + event_reward(self.entry(catalog, st).reward, st.postponed)
                    &&& after.status == Some(Status {
                        current_event: (st.current_event + 1) as i32,
                        postponed: 0,
                        cur_date: self.cur_date,
                    })
                    &&& after.regions@.len() == before.regions@.len()
                    &&& forall|j: int|
                        0 <= j < before.regions@.len() && j != ri ==> after.regions@[j] == before.regions@[j]
                    &&& after.regions@[ri].region_id == before.regions@[ri].region_id
                    &&& after.regions@[ri].simulation_params == self.params.spec_from_counts(changed)
                    &&& after.regions@[ri].active_control_measures@ == before.regions@[ri].active_control_measures@
                    &&& r matches Ok(WSResponse::Event(resp)) && {
                        &&& resp.is_success
                        &&& resp.description@ == event_text(news, EventAction::Accept)
                        &&& resp.simulation_data == (SimulatorResponse {
                            date: self.cur_date,
                            region: before.regions@[ri].region_id,
                            initial: self.params.spec_from_counts(changed),
                            days: days_left(self.cur_date),
                        })
                    }
                },
                EventAction::Decline => {
                    &&& after.money == before.money
                    &&& after.regions@ == before.regions@
                    &&& after.status == Some(Status {
                        current_event: (st.current_event + 1) as i32,
                        postponed: 0,
                        cur_date: self.cur_date,
                    })
                    &&& r matches Ok(WSResponse::Notice(m)) && m@ == event_text(news, EventAction::Decline)
                },
                EventAction::Postpone => {
                    &&& after.money == before.money
                    &&& after.regions@ == before.regions@
                    &&& after.status == Some(Status {
                        current_event: st.current_event,
                        postponed: (st.postponed + 1) as i32,
                        cur_date: self.cur_date,
                    })
                    &&& r matches Ok(WSResponse::Notice(m)) && m@ == event_text(news, EventAction::Postpone)
                },
            }
        })
    }

    /// Carries out the request on the player's current event.
    ///
    /// A request makes the first event current if none was, and returns the
    /// current event. Accepting the current event applies its change to its
    /// region, credits its reward less the postponement penalty, and moves on
    /// to the next event; declining moves on without either; postponing
    /// counts one more postponement. The date becomes the request's. On any
    /// error nothing changes.
    pub fn handle(
        &self,
        state: &mut PlayerState,
        catalog: &EventCatalog,
        news: &Option<Read>,
        limits: &ParamLimits,
    ) -> (r: Result<WSResponse, GameError>)
        ensures
            self.outcome(*old(state), *final(state), *catalog, *news, *limits, r),
    {
        let st = match state.status {
            None => return Err(GameError::NotFound(Missing::Status)),
            Some(s) => s,
        };
        match self.action {
            EventAction::Request => {
                let id = if st.current_event == 0 {
                    1
                } else {
                    st.current_event
                };
                let ei = match catalog.index_of(id) {
                    None => return Err(GameError::NotFound(Missing::Event)),
                    Some(i) => i,
                };
                let entry = catalog.events[ei].duplicate();
                state.status = Some(
                    Status {
                        current_event: id,
                        postponed: if st.current_event == 0 {
                            0
                        } else {
                            st.postponed
                        },
                        cur_date: self.cur_date,
                    },
                );
                Ok(WSResponse::EventParams(entry))
            },
            EventAction::Accept => {
                let ei = match catalog.index_of(self.id) {
                    None => return Err(GameError::NotFound(Missing::Event)),
                    Some(i) => i,
                };
                if st.current_event != self.id {
                    return Err(GameError::InvalidRequest(Invalid::EventNotRequested));
                }
                let entry = &catalog.events[ei];
                let ri = match find_region(&state.regions, entry.region as i64) {
                    None => return Err(GameError::NotFound(Missing::Region)),
                    Some(i) => i,
                };
                let reward = reward_after_postponing(entry.reward, st.postponed);
                let money = state.money as i64 + reward;
                if money < i32::MIN as i64 || money > i32::MAX as i64 || st.current_event == i32::MAX {
                    return Err(GameError::PersistenceFailure);
                }
                let zero = Tunables::zero();
                let received = self.params.tunables();
                let changed = apply_delta(&zero, &entry.params_delta, &received, limits);
                let new_params = self.params.from_counts(&changed);
                let region_id = state.regions[ri].region_id;
                let ghost before = state.regions@;
                let mut region = state.regions.remove(ri);
                region.simulation_params = new_params;
                state.regions.insert(ri, region);
                proof {
                    assert forall|j: int| 0 <= j < before.len() && j != ri implies state.regions@[j]
                        == before[j] by {
                        assert(state.regions@[j] == before[j]);
                    }
                }
                state.money = money as i32;
                state.status = Some(
                    Status { current_event: st.current_event + 1, postponed: 0, cur_date: self.cur_date },
                );
                let description = event_message(news, EventAction::Accept);
                Ok(
                    WSResponse::Event(
                        ActionResponse {
                            simulation_data: SimulatorResponse {
                                date: self.cur_date,
                                region: region_id,
                                initial: new_params,
                                days: TOTAL_DAYS as i64 - self.cur_date as i64,
                            },
                            description,
                            is_success: true,
                        },
                    ),
                )
            },
            EventAction::Decline => {
                if st.current_event == i32::MAX {
                    return Err(GameError::PersistenceFailure);
                }
                state.status = Some(
                    Status { current_event: st.current_event + 1, postponed: 0, cur_date: self.cur_date },
                );
                Ok(WSResponse::Notice(event_message(news, EventAction::Decline)))
            },
            EventAction::Postpone => {
                if st.postponed == i32::MAX {
                    return Err(GameError::PersistenceFailure);
                }
                state.status = Some(
                    Status {
                        current_event: st.current_event,
                        postponed: st.postponed + 1,
                        cur_date: self.cur_date,
                    },
                );
                Ok(WSResponse::Notice(event_message(news, EventAction::Postpone)))
            },
        }
    }
}

/// The first starting snapshot, from index `from` on, for region `region`.
pub open spec fn seed_from(seeds: Seq<(i32, SimulatorParams)>, region: i32, from: int) -> Option<SimulatorParams>
    decreases seeds.len() - from,
{
    if from < 0 || from >= seeds.len() {
        None
    } else if seeds[from].0 == region {
        Some(seeds[from].1)
    } else {
        seed_from(seeds, region, from + 1)
    }
}

impl StartParams {
    pub open spec fn spec_seed(&self, region: i32) -> Option<SimulatorParams> {
        seed_from(self.params@, region, 0)
    }

    /// The starting snapshot of `region`, if the level has one.
    pub fn seed(&self, region: i32) -> (r: Option<SimulatorParams>)
        ensures
            r == self.spec_seed(region),
    {
        let mut i: usize = 0;
        while i < self.params.len()
            invariant
                i <= self.params@.len(),
                seed_from(self.params@, region, 0) == seed_from(self.params@, region, i as int),
            decreases self.params@.len() - i,
        {
            if self.params[i].0 == region {
                return Some(self.params[i].1);
            }
            i = i + 1;
        }
        None
    }
}

impl Start {
    pub open spec fn error(&self, state: PlayerState, seeds: StartParams) -> Option<GameError> {
        if region_index(state.regions@, self.region as int) is None && seeds.spec_seed(self.region) is None {
            Some(GameError::NotFound(Missing::Region))
        } else {
            None
        }
    }

    /// Starts the region for the player, or resumes it.
    ///
    /// A player without event progress gets a fresh one. A region started
    /// before is run again from its stored snapshot for the days left after
    /// the player's date; a new one is stored with the level's starting
    /// snapshot, no control measures, and is run for the whole level.
    pub fn handle(&self, state: &mut PlayerState, seeds: &StartParams) -> (r: Result<WSResponse, GameError>)
        ensures
            r is Err <==> self.error(*old(state), *seeds) is Some,
            r matches Err(e) ==> e == self.error(*old(state), *seeds).unwrap() && *final(state) == *old(state),
            r is Ok ==> {
                let st = match old(state).status {
                    Some(s) => s,
                    None => Status { current_event: 0, postponed: 0, cur_date: 0 },
                };
                &&& final(state).money == old(state).money
                &&& final(state).is_randomized == old(state).is_randomized
                &&& final(state).status == Some(st)
                &&& match region_index(old(state).regions@, self.region as int) {
                    Some(ri) => {
                        &&& final(state).regions@ == old(state).regions@
                        &&& r == Ok::<WSResponse, GameError>(WSResponse::Start(SimulatorResponse {
                            date: st.cur_date,
                            region: self.region,
                            initial: old(state).regions@[ri].simulation_params,
                            days: days_left(st.cur_date),
                        }))
                    },
                    None => {
                        let n = old(state).regions@.len();
                        &&& final(state).regions@.len() == n + 1
                        &&& final(state).regions@.subrange(0, n as int) == old(state).regions@
                        &&& final(state).regions@[n as int].region_id == self.region
                        &&& final(state).regions@[n as int].simulation_params == seeds.spec_seed(self.region).unwrap()
                        &&& final(state).regions@[n as int].active_control_measures@ == Map::<Seq<char>, i32>::empty()
                        &&& r == Ok::<WSResponse, GameError>(WSResponse::Start(SimulatorResponse {
                            date: 0,
                            region: self.region,
                            initial: seeds.spec_seed(self.region).unwrap(),
                            days: TOTAL_DAYS as i64,
                        }))
                    },
                }
            },
    {
        let st = match state.status {
            Some(s) => s,
            None => Status::initial(),
        };
        match find_region(&state.regions, self.region as i64) {
            Some(ri) => {
                let initial = state.regions[ri].simulation_params;
                state.status = Some(st);
                Ok(
                    WSResponse::Start(
                        SimulatorResponse {
                            date: st.cur_date,
                            region: self.region,
                            initial,
                            days: TOTAL_DAYS as i64 - st.cur_date as i64,
                        },
                    ),
                )
            },
            None => {
                let seed = match seeds.seed(self.region) {
                    None => return Err(GameError::NotFound(Missing::Region)),
                    Some(p) => p,
                };
                let ghost before = state.regions@;
                state.regions.push(
                    Regions {
                        region_id: self.region,
                        simulation_params: seed,
                        active_control_measures: ActiveControlMeasures::new(),
                    },
                );
                assert(state.regions@.subrange(0, before.len() as int) =~= before);
                state.status = Some(st);
                Ok(
                    WSResponse::Start(
                        SimulatorResponse { date: 0, region: self.region, initial: seed, days: TOTAL_DAYS as i64 },
                    ),
                )
            },
        }
    }
}

impl Save {
    pub open spec fn error(&self, state: PlayerState) -> Option<GameError> {
        if state.status is None {
            Some(GameError::NotFound(Missing::Status))
        } else if region_index(state.regions@, self.region as int) is None {
            Some(GameError::NotFound(Missing::Region))
        } else {
            None
        }
    }

    /// What storing did, `before` and `after` being the player's state on
    /// either side.
    pub open spec fn outcome(&self, before: PlayerState, after: PlayerState, r: Result<WSResponse, GameError>) -> bool {
        &&& (r is Err <==> self.error(before) is Some)
        &&& (r matches Err(e) ==> e == self.error(before).unwrap() && after == before)
        &&& (r is Ok ==> {
            let ri = region_index(before.regions@, self.region as int).unwrap();
            let st = before.status.unwrap();
            &&& after.money == before.money
            &&& after.is_randomized == before.is_randomized
            &&& after.status == Some(
                Status { current_event: st.current_event, postponed: st.postponed, cur_date: self.cur_date },
            )
            &&& after.regions@.len() == before.regions@.len()
            &&& forall|j: int|
                0 <= j < before.regions@.len() && j != ri ==> after.regions@[j] == before.regions@[j]
            &&& after.regions@[ri].region_id == before.regions@[ri].region_id
            &&& after.regions@[ri].simulation_params == self.params.spec_from_counts(self.params.tunables_of())
            &&& after.regions@[ri].active_control_measures@ == before.regions@[ri].active_control_measures@
            &&& r matches Ok(WSResponse::Info(m)) && m@ == "Saving"@
        })
    }

    /// Stores the player's date and the region's state as given, its
    /// compartments taken per person; nothing is simulated.
    pub fn handle(&self, state: &mut PlayerState) -> (r: Result<WSResponse, GameError>)
        ensures
            self.outcome(*old(state), *final(state), r),
    {
        let st = match state.status {
            None => return Err(GameError::NotFound(Missing::Status)),
            Some(s) => s,
        };
        let ri = match find_region(&state.regions, self.region as i64) {
            None => return Err(GameError::NotFound(Missing::Region)),
            Some(i) => i,
        };
        let t = self.params.tunables();
        let new_params = self.params.from_counts(&t);
        let ghost before = state.regions@;
        let mut region = state.regions.remove(ri);
        region.simulation_params = new_params;
        state.regions.insert(ri, region);
        proof {
            assert forall|j: int| 0 <= j < before.len() && j != ri implies state.regions@[j] == before[j] by {
                assert(state.regions@[j] == before[j]);
            }
        }
        state.status = Some(Status { current_event: st.current_event, postponed: st.postponed, cur_date: self.cur_date });
        Ok(WSResponse::Info("Saving".to_owned()))
    }
}

/// Removing a control measure that is not in force in the region fails with
/// `NotApplied`, and the player's state is left as it was.
pub proof fn lemma_remove_unapplied(
    req: ControlMeasure,
    before: PlayerState,
    after: PlayerState,
    catalog: ControlMeasureCatalog,
    news: Option<Read>,
    failed: bool,
    limits: ParamLimits,
    r: Result<ActionResponse, GameError>,
)
    requires
        req.action == ControlMeasureAction::Remove,
        before.status is Some,
        catalog.spec_measure(req.name@) is Some,
        region_index(before.regions@, req.region as int) is Some,
        !req.active(before).contains_key(req.name@),
        req.outcome(before, after, catalog, news, failed, limits, r),
    ensures
        r == Err::<ActionResponse, GameError>(GameError::NotApplied),
        after == before,
{
}

/// Applying a level of a control measure that costs more than the player
/// has fails with `InsufficientFunds`, and the player's money, parameters
/// and measures are left as they were.
pub proof fn lemma_apply_unaffordable(
    req: ControlMeasure,
    before: PlayerState,
    after: PlayerState,
    catalog: ControlMeasureCatalog,
    news: Option<Read>,
    failed: bool,
    limits: ParamLimits,
    r: Result<ActionResponse, GameError>,
)
    requires
        req.action == ControlMeasureAction::Apply,
        before.status is Some,
        catalog.spec_measure(req.name@) is Some,
        region_index(before.regions@, req.region as int) is Some,
        req.active(before).contains_key(req.name@) ==> req.active(before)[req.name@] != req.level
            && req.measure(catalog).spec_level(req.active(before)[req.name@]) is Some,
        req.measure(catalog).spec_level(req.level) is Some,
        (before.money as int) < req.level_of(catalog).cost as int,
        req.outcome(before, after, catalog, news, failed, limits, r),
    ensures
        r == Err::<ActionResponse, GameError>(GameError::InsufficientFunds),
        after == before,
{
}

/// A control measure that a request leaves recorded in force is recorded at
/// the requested level, and that level changes the parameters: no measure
/// is kept at a level whose change is zero.
pub proof fn lemma_recorded_level_changes_parameters(
    req: ControlMeasure,
    before: PlayerState,
    after: PlayerState,
    catalog: ControlMeasureCatalog,
    news: Option<Read>,
    limits: ParamLimits,
    r: Result<ActionResponse, GameError>,
)
    requires
        req.outcome(before, after, catalog, news, false, limits, r),
        r is Ok,
        after.regions@[req.region_at(before)].active_control_measures@.contains_key(req.name@),
    ensures
        req.action == ControlMeasureAction::Apply,
        after.regions@[req.region_at(before)].active_control_measures@[req.name@] == req.level,
        !req.level_of(catalog).params_delta.is_zero(),
{
}

/// Storing the same state twice leaves the player as storing it once did:
/// the second store succeeds and changes no date, money, parameters or
/// measures.
pub proof fn lemma_save_idempotent(
    req: Save,
    s0: PlayerState,
    s1: PlayerState,
    s2: PlayerState,
    r1: Result<WSResponse, GameError>,
    r2: Result<WSResponse, GameError>,
)
    requires
        req.outcome(s0, s1, r1),
        req.outcome(s1, s2, r2),
        r1 is Ok,
    ensures
        r2 is Ok,
        s2.money == s1.money,
        s2.is_randomized == s1.is_randomized,
        s2.status == s1.status,
        s2.regions@.len() == s1.regions@.len(),
        forall|j: int|
            0 <= j < s1.regions@.len() ==> (#[trigger] s2.regions@[j]).region_id == s1.regions@[j].region_id
                && s2.regions@[j].simulation_params == s1.regions@[j].simulation_params
                && s2.regions@[j].active_control_measures@ == s1.regions@[j].active_control_measures@,
{
    let ri = region_index(s0.regions@, req.region as int).unwrap();
    assert forall|j: int| 0 <= j < s0.regions@.len() implies (#[trigger] s1.regions@[j]).region_id
        == s0.regions@[j].region_id by {
        if j != ri {
            assert(s1.regions@[j] == s0.regions@[j]);
        }
    }
    lemma_region_index_same_ids(s0.regions@, s1.regions@, req.region as int, 0);
}

/// Applying a level of a control measure whose change is zero, then removing
/// that measure in the same region: the measure is not recorded after the
/// first request, and the removal fails with `NotApplied`, changing nothing.
pub proof fn lemma_zero_change_apply_then_remove(
    apply: ControlMeasure,
    remove: ControlMeasure,
    s0: PlayerState,
    s1: PlayerState,
    s2: PlayerState,
    catalog: ControlMeasureCatalog,
    news: Option<Read>,
    limits: ParamLimits,
    r1: Result<ActionResponse, GameError>,
    r2: Result<ActionResponse, GameError>,
)
    requires
        apply.action == ControlMeasureAction::Apply,
        remove.action == ControlMeasureAction::Remove,
        remove.name@ == apply.name@,
        remove.region == apply.region,
        apply.outcome(s0, s1, catalog, news, false, limits, r1),
        r1 is Ok,
        apply.level_of(catalog).params_delta.is_zero(),
        remove.outcome(s1, s2, catalog, news, false, limits, r2),
    ensures
        !s1.regions@[apply.region_at(s0)].active_control_measures@.contains_key(apply.name@),
        r2 == Err::<ActionResponse, GameError>(GameError::NotApplied),
        s2 == s1,
{
    let ri = apply.region_at(s0);
    assert forall|j: int| 0 <= j < s0.regions@.len() implies (#[trigger] s1.regions@[j]).region_id
        == s0.regions@[j].region_id by {
        if j != ri {
            assert(s1.regions@[j] == s0.regions@[j]);
        }
    }
    lemma_region_index_same_ids(s0.regions@, s1.regions@, apply.region as int, 0);
    assert(remove.region_at(s1) == ri);
}

/// Relies on rand's `Rng::gen_range` over an inclusive range, from the thread
/// generator: the value drawn lies in the range.
#[verifier::external_body]
fn draw_chance() -> (r: i64)
    ensures
        0 <= r <= PARAM_SCALE,
{
    rand::thread_rng().gen_range(0..=PARAM_SCALE)
}

} // verus!
