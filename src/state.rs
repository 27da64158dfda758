use vstd::prelude::*;
use crate::measures::ActiveControlMeasures;
use crate::params::{POPULATION, Tunables};

verus! {

/// A snapshot of a region's epidemic, in fixed-point units: the compartment
/// sizes, the current reproduction number, and the four tunable parameters.
/// Stored snapshots hold the compartments as fractions of the population;
/// requests from the player hold them as head counts.
#[derive(Clone, Copy, Debug, PartialEq, Eq, Structural)]
pub struct SimulatorParams {
    pub susceptible: i64,
    pub exposed: i64,
    pub infectious: i64,
    pub removed: i64,
    pub current_reproduction_number: i64,
    pub ideal_reproduction_number: i64,
    pub compliance_factor: i64,
    pub recovery_rate: i64,
    pub infection_rate: i64,
}

/// `v / POPULATION`, rounded toward zero.
pub open spec fn per_capita(v: i64) -> i64 {
    if v >= 0 {
        (v as int / POPULATION as int) as i64
    } else {
        (-((-(v as int)) / POPULATION as int)) as i64
    }
}

fn per_capita_exec(v: i64) -> (r: i64)
    ensures
        r == per_capita(v),
{
    if v >= 0 {
        v / POPULATION
    } else {
        let m: i128 = -(v as i128);
        let q: i128 = m / (POPULATION as i128);
        (-q) as i64
    }
}

impl SimulatorParams {
    pub open spec fn tunables_of(&self) -> Tunables {
        Tunables {
            ideal_reproduction_number: self.ideal_reproduction_number,
            compliance_factor: self.compliance_factor,
            recovery_rate: self.recovery_rate,
            infection_rate: self.infection_rate,
        }
    }

    pub fn tunables(&self) -> (r: Tunables)
        ensures
            r == self.tunables_of(),
    {
        Tunables {
            ideal_reproduction_number: self.ideal_reproduction_number,
            compliance_factor: self.compliance_factor,
            recovery_rate: self.recovery_rate,
            infection_rate: self.infection_rate,
        }
    }

    /// The snapshot whose compartments are these head counts taken per
    /// person, with the same reproduction number and the tunables `t`.
    pub open spec fn spec_from_counts(&self, t: Tunables) -> SimulatorParams {
        SimulatorParams {
            susceptible: per_capita(self.susceptible),
            exposed: per_capita(self.exposed),
            infectious: per_capita(self.infectious),
            removed: per_capita(self.removed),
            current_reproduction_number: self.current_reproduction_number,
            ideal_reproduction_number: t.ideal_reproduction_number,
            compliance_factor: t.compliance_factor,
            recovery_rate: t.recovery_rate,
            infection_rate: t.infection_rate,
        }
    }

    pub fn from_counts(&self, t: &Tunables) -> (r: SimulatorParams)
        ensures
            r == self.spec_from_counts(*t),
    {
        SimulatorParams {
            susceptible: per_capita_exec(self.susceptible),
            exposed: per_capita_exec(self.exposed),
            infectious: per_capita_exec(self.infectious),
            removed: per_capita_exec(self.removed),
            current_reproduction_number: self.current_reproduction_number,
            ideal_reproduction_number: t.ideal_reproduction_number,
            compliance_factor: t.compliance_factor,
            recovery_rate: t.recovery_rate,
            infection_rate: t.infection_rate,
        }
    }
}

/// A player's progress through the events of a level. `current_event == 0`
/// means no event has been requested yet.
#[derive(Clone, Copy, Debug, PartialEq, Eq, Structural)]
pub struct Status {
    pub current_event: i32,
    pub postponed: i32,
    pub cur_date: i32,
}

impl Status {
    pub fn initial() -> (r: Status)
        ensures
            r == (Status { current_event: 0, postponed: 0, cur_date: 0 }),
    {
        Status { current_event: 0, postponed: 0, cur_date: 0 }
    }
}

/// A region a player has started, with its epidemic and the control
/// measures in force there.
pub struct Regions {
    pub region_id: i32,
    pub simulation_params: SimulatorParams,
    pub active_control_measures: ActiveControlMeasures,
}

/// What is stored for one player: money, mode, event progress (absent until
/// the first game starts), and the regions started.
pub struct PlayerState {
    pub money: i32,
    pub is_randomized: bool,
    pub status: Option<Status>,
    pub regions: Vec<Regions>,
}

/// Index of the first region, from index `from` on, whose id is `id`.
pub open spec fn region_index_from(regions: Seq<Regions>, id: int, from: int) -> Option<int>
    decreases regions.len() - from,
{
    if from < 0 || from >= regions.len() {
        None
    } else if regions[from].region_id == id {
        Some(from)
    } else {
        region_index_from(regions, id, from + 1)
    }
}

pub open spec fn region_index(regions: Seq<Regions>, id: int) -> Option<int> {
    region_index_from(regions, id, 0)
}

proof fn lemma_region_index_in_range(regions: Seq<Regions>, id: int, from: int)
    requires
        0 <= from,
    ensures
        region_index_from(regions, id, from) matches Some(i) ==> from <= i < regions.len()
            && regions[i].region_id == id,
    decreases regions.len() - from,
{
    if from < regions.len() && regions[from].region_id != id {
        lemma_region_index_in_range(regions, id, from + 1);
    }
}

/// Two lists of regions with the same ids, index by index, find a region at
/// the same index.
pub proof fn lemma_region_index_same_ids(a: Seq<Regions>, b: Seq<Regions>, id: int, from: int)
    requires
        a.len() == b.len(),
        forall|j: int| 0 <= j < a.len() ==> (#[trigger] b[j]).region_id == a[j].region_id,
    ensures
        region_index_from(a, id, from) == region_index_from(b, id, from),
    decreases a.len() - from,
{
    if 0 <= from < a.len() {
        assert(b[from].region_id == a[from].region_id);
        lemma_region_index_same_ids(a, b, id, from + 1);
    }
}

/// Index in `regions` of the region whose id is `id`, if there is one.
pub fn find_region(regions: &Vec<Regions>, id: i64) -> (r: Option<usize>)
    ensures
        match r {
            Some(i) => region_index(regions@, id as int) == Some(i as int) && i < regions@.len()
                && regions@[i as int].region_id == id,
            None => region_index(regions@, id as int) is None,
        },
{
    proof {
        lemma_region_index_in_range(regions@, id as int, 0);
    }
    let mut i: usize = 0;
    while i < regions.len()
        invariant
            i <= regions@.len(),
            region_index_from(regions@, id as int, 0) == region_index_from(regions@, id as int, i as int),
        decreases regions@.len() - i,
    {
        if regions[i].region_id as i64 == id {
            return Some(i);
        }
        i = i + 1;
    }
    None
}

} // verus!
