use outbreak::catalog::{ControlMeasureCatalog, ControlMeasureLevel, ControlMeasureParams, EventCatalog, EventParams};
use outbreak::error::{GameError, Invalid, Missing};
use outbreak::game::{
    ControlMeasure, Event, Save, SimulatorResponse, Start, StartParams, WSResponse, EVENT_POSTPONE_PENALTY,
    reward_after_postponing,
};
use outbreak::measures::ActiveControlMeasures;
use outbreak::news::{ControlMeasureAction, ControlNews, EventAction, EventNews, Read};
use outbreak::params::{ParamLimits, Tunables};
use outbreak::state::{PlayerState, Regions, SimulatorParams, Status};

fn t(a: i64, b: i64, c: i64, d: i64) -> Tunables {
    Tunables { ideal_reproduction_number: a, compliance_factor: b, recovery_rate: c, infection_rate: d }
}

fn counts() -> SimulatorParams {
    SimulatorParams {
        susceptible: 4_000_000_000_000,
        exposed: 500_000_000_000,
        infectious: 300_000_000_000,
        removed: 200_000_000_000,
        current_reproduction_number: 1_600_000_000,
        ideal_reproduction_number: 2_000_000_000,
        compliance_factor: 500_000_000,
        recovery_rate: 55_500_000,
        infection_rate: 192_307_692,
    }
}

fn stored() -> SimulatorParams {
    SimulatorParams {
        susceptible: 999_999_000,
        exposed: 0,
        infectious: 1_000,
        removed: 0,
        current_reproduction_number: 1_600_000_000,
        ideal_reproduction_number: 2_000_000_000,
        compliance_factor: 500_000_000,
        recovery_rate: 55_500_000,
        infection_rate: 192_307_692,
    }
}

fn player(money: i32) -> PlayerState {
    PlayerState {
        money,
        is_randomized: false,
        status: Some(Status { current_event: 0, postponed: 0, cur_date: 0 }),
        regions: vec![Regions {
            region_id: 1,
            simulation_params: stored(),
            active_control_measures: ActiveControlMeasures::new(),
        }],
    }
}

fn catalog() -> ControlMeasureCatalog {
    ControlMeasureCatalog {
        measures: vec![
            (
                "lockdown".to_string(),
                ControlMeasureParams {
                    description: "Close everything".to_string(),
                    levels: vec![
                        (1, ControlMeasureLevel { params_delta: t(-400_000_000, 200_000_000, 0, 0), cost: 50 }),
                        (2, ControlMeasureLevel { params_delta: t(-600_000_000, 300_000_000, 0, 0), cost: 900 }),
                    ],
                    mess_up_chance: 0,
                },
            ),
            (
                "posters".to_string(),
                ControlMeasureParams {
                    description: "Put up posters".to_string(),
                    levels: vec![(1, ControlMeasureLevel { params_delta: t(0, 0, 0, 0), cost: 50 })],
                    mess_up_chance: 0,
                },
            ),
        ],
    }
}

fn news() -> Option<Read> {
    Some(Read::ControlNews(ControlNews { apply: "Applied".to_string(), remove: "Removed".to_string() }))
}

fn request(name: &str, level: i32, action: ControlMeasureAction) -> ControlMeasure {
    ControlMeasure { level, cur_date: 10, name: name.to_string(), params: counts(), region: 1, action }
}

fn expected_initial(tunables: Tunables) -> SimulatorParams {
    SimulatorParams {
        susceptible: 800_000_000,
        exposed: 100_000_000,
        infectious: 60_000_000,
        removed: 40_000_000,
        current_reproduction_number: 1_600_000_000,
        ideal_reproduction_number: tunables.ideal_reproduction_number,
        compliance_factor: tunables.compliance_factor,
        recovery_rate: tunables.recovery_rate,
        infection_rate: tunables.infection_rate,
    }
}

#[test]
fn apply_control_measure_debits_and_records() {
    let mut s = player(500);
    let l = ParamLimits::standard();
    let r = request("lockdown", 1, ControlMeasureAction::Apply).transition(&mut s, &catalog(), &news(), false, &l).unwrap();
    assert!(r.is_success);
    assert_eq!(r.description, "Applied");
    let changed = t(1_600_000_000, 700_000_000, 55_500_000, 192_307_692);
    assert_eq!(r.simulation_data, SimulatorResponse { date: 10, region: 1, initial: expected_initial(changed), days: 690 });
    assert_eq!(s.money, 450);
    assert_eq!(s.status, Some(Status { current_event: 0, postponed: 0, cur_date: 10 }));
    assert_eq!(s.regions[0].simulation_params, expected_initial(changed));
    assert_eq!(s.regions[0].active_control_measures.get(&"lockdown".to_string()), Some(1));
}

#[test]
fn changing_level_replaces_the_earlier_change() {
    let mut s = player(2000);
    let l = ParamLimits::standard();
    request("lockdown", 1, ControlMeasureAction::Apply).transition(&mut s, &catalog(), &news(), false, &l).unwrap();
    let mut req = request("lockdown", 2, ControlMeasureAction::Apply);
    req.params.ideal_reproduction_number = 1_600_000_000;
    req.params.compliance_factor = 700_000_000;
    let r = req.transition(&mut s, &catalog(), &news(), false, &l).unwrap();
    assert_eq!(r.simulation_data.initial.ideal_reproduction_number, 1_400_000_000);
    assert_eq!(r.simulation_data.initial.compliance_factor, 800_000_000);
    assert_eq!(s.money, 2000 - 50 - 900);
    assert_eq!(s.regions[0].active_control_measures.get(&"lockdown".to_string()), Some(2));
}

#[test]
fn reapplying_same_level_is_refused() {
    let mut s = player(500);
    let l = ParamLimits::standard();
    request("lockdown", 1, ControlMeasureAction::Apply).transition(&mut s, &catalog(), &news(), false, &l).unwrap();
    let r = request("lockdown", 1, ControlMeasureAction::Apply).transition(&mut s, &catalog(), &news(), false, &l);
    assert_eq!(r.err(), Some(GameError::AlreadyApplied));
    assert_eq!(s.money, 450);
}

#[test]
fn unaffordable_measure_changes_nothing() {
    let mut s = player(100);
    let l = ParamLimits::standard();
    let r = request("lockdown", 2, ControlMeasureAction::Apply).transition(&mut s, &catalog(), &news(), false, &l);
    assert_eq!(r.err(), Some(GameError::InsufficientFunds));
    assert_eq!(s.money, 100);
    assert_eq!(s.status, Some(Status { current_event: 0, postponed: 0, cur_date: 0 }));
    assert_eq!(s.regions[0].simulation_params, stored());
    assert_eq!(s.regions[0].active_control_measures.entries(), vec![]);
}

#[test]
fn removing_unapplied_measure_changes_nothing() {
    let mut s = player(500);
    let l = ParamLimits::standard();
    let r = request("lockdown", 1, ControlMeasureAction::Remove).transition(&mut s, &catalog(), &news(), false, &l);
    assert_eq!(r.err(), Some(GameError::NotApplied));
    assert_eq!(s.money, 500);
    assert_eq!(s.status, Some(Status { current_event: 0, postponed: 0, cur_date: 0 }));
    assert_eq!(s.regions[0].simulation_params, stored());
}

#[test]
fn remove_restores_parameters() {
    let mut s = player(500);
    let l = ParamLimits::standard();
    request("lockdown", 1, ControlMeasureAction::Apply).transition(&mut s, &catalog(), &news(), false, &l).unwrap();
    let mut req = request("lockdown", 1, ControlMeasureAction::Remove);
    req.params.ideal_reproduction_number = 1_600_000_000;
    req.params.compliance_factor = 700_000_000;
    let r = req.transition(&mut s, &catalog(), &news(), false, &l).unwrap();
    assert_eq!(r.description, "Removed");
    assert_eq!(r.simulation_data.initial.ideal_reproduction_number, 2_000_000_000);
    assert_eq!(r.simulation_data.initial.compliance_factor, 500_000_000);
    assert_eq!(s.money, 450);
    assert_eq!(s.regions[0].active_control_measures.get(&"lockdown".to_string()), None);
}

#[test]
fn zero_change_measure_apply_then_remove() {
    let mut s = player(500);
    let l = ParamLimits::standard();
    let applied = request("posters", 1, ControlMeasureAction::Apply).transition(&mut s, &catalog(), &news(), false, &l);
    assert!(applied.is_ok());
    assert_eq!(s.money, 450);
    let first = request("posters", 1, ControlMeasureAction::Remove).transition(&mut s, &catalog(), &news(), false, &l);
    assert_eq!(first.err(), Some(GameError::NotApplied));
    assert_eq!(s.regions[0].active_control_measures.get(&"posters".to_string()), None);
    let second = request("posters", 1, ControlMeasureAction::Remove).transition(&mut s, &catalog(), &news(), false, &l);
    assert_eq!(second.err(), Some(GameError::NotApplied));
}

#[test]
fn backfired_measure_is_free_and_stores_backfired_parameters() {
    let mut s = player(500);
    let l = ParamLimits::standard();
    let r = request("lockdown", 1, ControlMeasureAction::Apply).transition(&mut s, &catalog(), &news(), true, &l).unwrap();
    assert!(!r.is_success);
    assert_eq!(r.simulation_data.initial.tunables(), t(2_400_000_000, 300_000_000, 55_500_000, 192_307_692));
    assert_eq!(s.money, 500);
    assert_eq!(s.status.unwrap().cur_date, 10);
    assert_eq!(s.regions[0].simulation_params, expected_initial(t(2_400_000_000, 300_000_000, 55_500_000, 192_307_692)));
    assert_eq!(s.regions[0].active_control_measures.get(&"lockdown".to_string()), None);
}

#[test]
fn control_measure_lookup_errors() {
    let l = ParamLimits::standard();
    let mut s = player(500);
    let r = request("curfew", 1, ControlMeasureAction::Apply).transition(&mut s, &catalog(), &news(), false, &l);
    assert_eq!(r.err(), Some(GameError::NotFound(Missing::ControlMeasure)));
    let r = request("lockdown", 7, ControlMeasureAction::Apply).transition(&mut s, &catalog(), &news(), false, &l);
    assert_eq!(r.err(), Some(GameError::NotFound(Missing::Level)));
    let mut far = request("lockdown", 1, ControlMeasureAction::Apply);
    far.region = 9;
    assert_eq!(far.transition(&mut s, &catalog(), &news(), false, &l).err(), Some(GameError::NotFound(Missing::Region)));
    let mut fresh = player(500);
    fresh.status = None;
    let r = request("lockdown", 1, ControlMeasureAction::Apply).transition(&mut fresh, &catalog(), &news(), false, &l);
    assert_eq!(r.err(), Some(GameError::NotFound(Missing::Status)));
}

#[test]
fn handle_without_randomness_never_backfires() {
    let mut s = player(500);
    let l = ParamLimits::standard();
    let r = request("lockdown", 1, ControlMeasureAction::Apply).handle(&mut s, &catalog(), &None, &l).unwrap();
    assert!(r.is_success);
    assert_eq!(r.description, "Invalid control measure");
    assert_eq!(s.money, 450);
}

#[test]
fn randomized_handle_with_certain_mess_up_backfires() {
    let mut s = player(500);
    s.is_randomized = true;
    let mut c = catalog();
    c.measures[0].1.mess_up_chance = 1_000_000_000;
    assert!(c.is_well_formed());
    let l = ParamLimits::standard();
    let r = request("lockdown", 1, ControlMeasureAction::Apply).handle(&mut s, &c, &news(), &l).unwrap();
    assert!(!r.is_success);
    assert_eq!(s.money, 500);
}

fn events() -> EventCatalog {
    EventCatalog {
        events: vec![
            EventParams {
                id: 1,
                name: "Festival".to_string(),
                description: "A festival is planned".to_string(),
                params_delta: t(300_000_000, 0, 0, 0),
                region: 1,
                reward: 300,
            },
            EventParams {
                id: 2,
                name: "Vaccine".to_string(),
                description: "A vaccine trial".to_string(),
                params_delta: t(0, 0, -10_000_000, 0),
                region: 1,
                reward: -50,
            },
        ],
    }
}

fn event_news() -> Option<Read> {
    Some(Read::EventNews(EventNews {
        announcement: "News".to_string(),
        accept: "Accepted".to_string(),
        reject: "Declined".to_string(),
        postpone: "Later".to_string(),
    }))
}

fn event(id: i32, action: EventAction) -> Event {
    Event { cur_date: 20, id, params: counts(), action }
}

#[test]
fn first_request_starts_event_one() {
    let mut s = player(500);
    let l = ParamLimits::standard();
    let r = event(0, EventAction::Request).handle(&mut s, &events(), &event_news(), &l).unwrap();
    match r {
        WSResponse::EventParams(p) => {
            assert_eq!(p.id, 1);
            assert_eq!(p.name, "Festival");
            assert_eq!(p.reward, 300);
        },
        _ => panic!("expected the event"),
    }
    assert_eq!(s.status, Some(Status { current_event: 1, postponed: 0, cur_date: 20 }));
}

#[test]
fn accept_after_two_postponements_credits_one_hundred() {
    let mut s = player(500);
    s.status = Some(Status { current_event: 1, postponed: 2, cur_date: 5 });
    let l = ParamLimits::standard();
    let r = event(1, EventAction::Accept).handle(&mut s, &events(), &event_news(), &l).unwrap();
    assert_eq!(s.money, 600);
    assert_eq!(reward_after_postponing(300, 2), 100);
    assert_eq!(EVENT_POSTPONE_PENALTY, 100);
    assert_eq!(s.status, Some(Status { current_event: 2, postponed: 0, cur_date: 20 }));
    let changed = t(2_300_000_000, 500_000_000, 55_500_000, 192_307_692);
    assert_eq!(s.regions[0].simulation_params, expected_initial(changed));
    match r {
        WSResponse::Event(a) => {
            assert!(a.is_success);
            assert_eq!(a.description, "Accepted");
            assert_eq!(a.simulation_data, SimulatorResponse { date: 20, region: 1, initial: expected_initial(changed), days: 680 });
        },
        _ => panic!("expected an event outcome"),
    }
}

#[test]
fn accepting_unrequested_event_is_refused() {
    let mut s = player(500);
    s.status = Some(Status { current_event: 1, postponed: 0, cur_date: 5 });
    let l = ParamLimits::standard();
    let r = event(2, EventAction::Accept).handle(&mut s, &events(), &event_news(), &l);
    assert_eq!(r.err(), Some(GameError::InvalidRequest(Invalid::EventNotRequested)));
    assert_eq!(s.money, 500);
    let r = event(9, EventAction::Accept).handle(&mut s, &events(), &event_news(), &l);
    assert_eq!(r.err(), Some(GameError::NotFound(Missing::Event)));
}

#[test]
fn decline_and_postpone() {
    let mut s = player(500);
    s.status = Some(Status { current_event: 1, postponed: 0, cur_date: 5 });
    let l = ParamLimits::standard();
    match event(1, EventAction::Postpone).handle(&mut s, &events(), &event_news(), &l).unwrap() {
        WSResponse::Notice(m) => assert_eq!(m, "Later"),
        _ => panic!("expected a notice"),
    }
    assert_eq!(s.status, Some(Status { current_event: 1, postponed: 1, cur_date: 20 }));
    match event(1, EventAction::Decline).handle(&mut s, &events(), &None, &l).unwrap() {
        WSResponse::Notice(m) => assert_eq!(m, "Invalid Event"),
        _ => panic!("expected a notice"),
    }
    assert_eq!(s.status, Some(Status { current_event: 2, postponed: 0, cur_date: 20 }));
    s.status = Some(Status { current_event: 2, postponed: i32::MAX, cur_date: 5 });
    let r = event(2, EventAction::Postpone).handle(&mut s, &events(), &None, &l);
    assert_eq!(r.err(), Some(GameError::PersistenceFailure));
}

#[test]
fn start_seeds_a_new_region_then_resumes_it() {
    let mut s = PlayerState { money: 500, is_randomized: false, status: None, regions: vec![] };
    let seeds = StartParams { params: vec![(4, stored())] };
    let r = Start { region: 4 }.handle(&mut s, &seeds).unwrap();
    match r {
        WSResponse::Start(sim) => assert_eq!(sim, SimulatorResponse { date: 0, region: 4, initial: stored(), days: 700 }),
        _ => panic!("expected a start"),
    }
    assert_eq!(s.status, Some(Status { current_event: 0, postponed: 0, cur_date: 0 }));
    assert_eq!(s.regions.len(), 1);
    assert_eq!(s.regions[0].region_id, 4);
    s.status = Some(Status { current_event: 0, postponed: 0, cur_date: 100 });
    match (Start { region: 4 }).handle(&mut s, &seeds).unwrap() {
        WSResponse::Start(sim) => assert_eq!(sim, SimulatorResponse { date: 100, region: 4, initial: stored(), days: 600 }),
        _ => panic!("expected a start"),
    }
    assert_eq!(s.regions.len(), 1);
    let r = Start { region: 5 }.handle(&mut s, &seeds);
    assert_eq!(r.err(), Some(GameError::NotFound(Missing::Region)));
}

#[test]
fn save_stores_state_verbatim() {
    let mut s = player(500);
    let r = Save { cur_date: 42, region: 1, params: counts() }.handle(&mut s).unwrap();
    match r {
        WSResponse::Info(m) => assert_eq!(m, "Saving"),
        _ => panic!("expected info"),
    }
    assert_eq!(s.status, Some(Status { current_event: 0, postponed: 0, cur_date: 42 }));
    assert_eq!(s.regions[0].simulation_params, expected_initial(counts().tunables()));
    let again = Save { cur_date: 42, region: 1, params: counts() }.handle(&mut s);
    assert!(again.is_ok());
    assert_eq!(s.regions[0].simulation_params, expected_initial(counts().tunables()));
    let r = Save { cur_date: 42, region: 2, params: counts() }.handle(&mut s);
    assert_eq!(r.err(), Some(GameError::NotFound(Missing::Region)));
}
