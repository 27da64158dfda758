use outbreak::measures::{get_acm_map_from_db_res, ActiveControlMeasures};
use outbreak::params::{apply_delta, backfire_delta, ParamLimits, Range, Tunables, PARAM_SCALE};
use outbreak::state::SimulatorParams;

fn t(a: i64, b: i64, c: i64, d: i64) -> Tunables {
    Tunables { ideal_reproduction_number: a, compliance_factor: b, recovery_rate: c, infection_rate: d }
}

#[test]
fn standard_limits_match_the_game() {
    let l = ParamLimits::standard();
    assert_eq!(l.ideal_reproduction_number, Range { min: 1_200_000_000, max: 3_000_000_000 });
    assert_eq!(l.compliance_factor, Range { min: 0, max: 800_000_000 });
    assert_eq!(l.recovery_rate, Range { min: 50_000_000, max: 100_000_000 });
    assert_eq!(l.infection_rate, Range { min: 50_000_000, max: 300_000_000 });
    assert_eq!(PARAM_SCALE, 1_000_000_000);
}

#[test]
fn apply_delta_moves_by_net_change() {
    let l = ParamLimits::standard();
    let existing = t(-100_000_000, 0, 0, 0);
    let target = t(-400_000_000, 200_000_000, 10_000_000, 0);
    let received = t(2_000_000_000, 500_000_000, 55_500_000, 192_307_692);
    let r = apply_delta(&existing, &target, &received, &l);
    assert_eq!(r, t(1_700_000_000, 700_000_000, 65_500_000, 192_307_692));
}

#[test]
fn apply_delta_clamps_each_component() {
    let l = ParamLimits::standard();
    let zero = t(0, 0, 0, 0);
    let target = t(5_000_000_000, -2_000_000_000, i64::MAX, i64::MIN);
    let received = t(2_000_000_000, 500_000_000, i64::MAX, i64::MIN);
    let r = apply_delta(&zero, &target, &received, &l);
    assert_eq!(r, t(3_000_000_000, 0, 100_000_000, 50_000_000));
    let low = apply_delta(&target, &zero, &received, &l);
    assert_eq!(low, t(1_200_000_000, 800_000_000, 50_000_000, 50_000_000));
}

#[test]
fn apply_delta_repeats_exactly() {
    let l = ParamLimits::standard();
    let existing = t(1, 2, 3, 4);
    let target = t(-300_000_000, 100_000_000, 20_000_000, -20_000_000);
    let received = t(1_600_000_000, 400_000_000, 60_000_000, 100_000_000);
    let first = apply_delta(&existing, &target, &received, &l);
    let second = apply_delta(&existing, &target, &received, &l);
    assert_eq!(first, second);
    assert_eq!(first, t(1_299_999_999, 499_999_998, 79_999_997, 79_999_996));
}

#[test]
fn backfire_reverses_the_change() {
    let d = t(-400_000_000, 200_000_000, 10_000_000, -30_000_000);
    assert_eq!(backfire_delta(&d), t(400_000_000, -200_000_000, -10_000_000, 30_000_000));
    let e = t(400_000_000, -200_000_000, -10_000_000, 30_000_000);
    assert_eq!(backfire_delta(&e), t(-400_000_000, -200_000_000, -10_000_000, 30_000_000));
}

#[test]
fn zero_check() {
    assert!(Tunables::zero().check_zero());
    assert!(!t(0, 0, 1, 0).check_zero());
}

#[test]
fn counts_become_fractions() {
    let p = SimulatorParams {
        susceptible: 4_000_000_000_000,
        exposed: 500_000_000_000,
        infectious: 2_500,
        removed: -7_500,
        current_reproduction_number: 1_600_000_000,
        ideal_reproduction_number: 0,
        compliance_factor: 0,
        recovery_rate: 0,
        infection_rate: 0,
    };
    let r = p.from_counts(&t(1, 2, 3, 4));
    assert_eq!(r.susceptible, 800_000_000);
    assert_eq!(r.exposed, 100_000_000);
    assert_eq!(r.infectious, 0);
    assert_eq!(r.removed, -1);
    assert_eq!(r.current_reproduction_number, 1_600_000_000);
    assert_eq!(r.tunables(), t(1, 2, 3, 4));
}

#[test]
fn measures_set_get_remove() {
    let mut m = ActiveControlMeasures::new();
    let lockdown = "lockdown".to_string();
    let masks = "masks".to_string();
    assert_eq!(m.get(&lockdown), None);
    m.set(&lockdown, 1);
    m.set(&masks, 2);
    m.set(&lockdown, 3);
    assert_eq!(m.get(&lockdown), Some(3));
    assert_eq!(m.get(&masks), Some(2));
    assert_eq!(m.entries(), vec![(lockdown.clone(), 3), (masks.clone(), 2)]);
    m.remove(&lockdown);
    assert_eq!(m.get(&lockdown), None);
    m.remove(&lockdown);
    assert_eq!(m.entries(), vec![(masks.clone(), 2)]);
    let d = m.duplicate();
    assert_eq!(d.entries(), vec![(masks, 2)]);
}

#[test]
fn groups_measures_by_region() {
    let mut a = ActiveControlMeasures::new();
    a.set(&"masks".to_string(), 1);
    let mut b = ActiveControlMeasures::new();
    b.set(&"lockdown".to_string(), 2);
    let c = ActiveControlMeasures::new();
    let rows = vec![(3, a), (1, b), (3, c)];
    let g = get_acm_map_from_db_res(&rows);
    assert_eq!(g.len(), 2);
    assert_eq!(g[0].0, 3);
    assert_eq!(g[0].1.len(), 2);
    assert_eq!(g[0].1[0].entries(), vec![("masks".to_string(), 1)]);
    assert_eq!(g[0].1[1].entries(), vec![]);
    assert_eq!(g[1].0, 1);
    assert_eq!(g[1].1.len(), 1);
    assert_eq!(g[1].1[0].entries(), vec![("lockdown".to_string(), 2)]);
    assert!(get_acm_map_from_db_res(&vec![]).is_empty());
}
