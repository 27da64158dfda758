use vstd::prelude::*;
use crate::params::Tunables;

verus! {

/// One level of a control measure: the change it makes to the tunable
/// parameters and what it costs.
#[derive(Clone, Copy, Debug, PartialEq, Eq, Structural)]
pub struct ControlMeasureLevel {
    pub params_delta: Tunables,
    pub cost: u32,
}

/// A control measure of the catalog, with its levels. `mess_up_chance` is the
/// probability, in units of `1 / PARAM_SCALE`, that applying it backfires.
pub struct ControlMeasureParams {
    pub description: String,
    pub levels: Vec<(i32, ControlMeasureLevel)>,
    pub mess_up_chance: i64,
}

/// The control measures of a game level, by name.
pub struct ControlMeasureCatalog {
    pub measures: Vec<(String, ControlMeasureParams)>,
}

/// An event of the catalog.
pub struct EventParams {
    pub id: i32,
    pub name: String,
    pub description: String,
    pub params_delta: Tunables,
    pub region: i32,
    pub reward: i32,
}

/// The events of a game level, by id.
pub struct EventCatalog {
    pub events: Vec<EventParams>,
}

/// The first entry of `levels`, from index `from` on, for `level`.
pub open spec fn level_from(levels: Seq<(i32, ControlMeasureLevel)>, level: i32, from: int) -> Option<
    ControlMeasureLevel,
>
    decreases levels.len() - from,
{
    if from < 0 || from >= levels.len() {
        None
    } else if levels[from].0 == level {
        Some(levels[from].1)
    } else {
        level_from(levels, level, from + 1)
    }
}

/// Index of the first measure, from index `from` on, named `name`.
pub open spec fn measure_index_from(
    measures: Seq<(String, ControlMeasureParams)>,
    name: Seq<char>,
    from: int,
) -> Option<int>
    decreases measures.len() - from,
{
    if from < 0 || from >= measures.len() {
        None
    } else if measures[from].0@ == name {
        Some(from)
    } else {
        measure_index_from(measures, name, from + 1)
    }
}

/// Index of the first event, from index `from` on, with id `id`.
pub open spec fn event_index_from(events: Seq<EventParams>, id: i32, from: int) -> Option<int>
    decreases events.len() - from,
{
    if from < 0 || from >= events.len() {
        None
    } else if events[from].id == id {
        Some(from)
    } else {
        event_index_from(events, id, from + 1)
    }
}

proof fn lemma_measure_index_in_range(measures: Seq<(String, ControlMeasureParams)>, name: Seq<char>, from: int)
    requires
        0 <= from,
    ensures
        measure_index_from(measures, name, from) matches Some(i) ==> from <= i < measures.len()
            && measures[i].0@ == name,
    decreases measures.len() - from,
{
    if from < measures.len() && measures[from].0@ != name {
        lemma_measure_index_in_range(measures, name, from + 1);
    }
}

proof fn lemma_event_index_in_range(events: Seq<EventParams>, id: i32, from: int)
    requires
        0 <= from,
    ensures
        event_index_from(events, id, from) matches Some(i) ==> from <= i < events.len()
            && events[i].id == id,
    decreases events.len() - from,
{
    if from < events.len() && events[from].id != id {
        lemma_event_index_in_range(events, id, from + 1);
    }
}

impl ControlMeasureParams {
    /// The level `level` of this measure, if the catalog has it.
    pub open spec fn spec_level(&self, level: i32) -> Option<ControlMeasureLevel> {
        level_from(self.levels@, level, 0)
    }

    pub fn level(&self, level: i32) -> (r: Option<ControlMeasureLevel>)
        ensures
            r == self.spec_level(level),
    {
        let mut i: usize = 0;
        while i < self.levels.len()
            invariant
                i <= self.levels@.len(),
                level_from(self.levels@, level, 0) == level_from(self.levels@, level, i as int),
            decreases self.levels@.len() - i,
        {
            if self.levels[i].0 == level {
                return Some(self.levels[i].1);
            }
            i = i + 1;
        }
        None
    }

    /// Every level's change can be reversed in sign.
    pub open spec fn wf(&self) -> bool {
        forall|i: int| 0 <= i < self.levels@.len() ==> (#[trigger] self.levels@[i]).1.params_delta.negatable()
    }
}

proof fn lemma_level_from_wf(p: &ControlMeasureParams, level: i32, from: int)
    requires
        p.wf(),
        0 <= from,
    ensures
        level_from(p.levels@, level, from) matches Some(l) ==> l.params_delta.negatable(),
    decreases p.levels@.len() - from,
{
    if from < p.levels@.len() && p.levels@[from].0 != level {
        lemma_level_from_wf(p, level, from + 1);
    }
}

pub proof fn lemma_level_negatable(p: &ControlMeasureParams, level: i32)
    requires
        p.wf(),
    ensures
        p.spec_level(level) matches Some(l) ==> l.params_delta.negatable(),
{
    lemma_level_from_wf(p, level, 0);
}

impl ControlMeasureCatalog {
    pub open spec fn spec_index(&self, name: Seq<char>) -> Option<int> {
        measure_index_from(self.measures@, name, 0)
    }

    /// The measure named `name`, if the catalog has it.
    pub open spec fn spec_measure(&self, name: Seq<char>) -> Option<ControlMeasureParams> {
        match self.spec_index(name) {
            Some(i) => Some(self.measures@[i].1),
            None => None,
        }
    }

    pub open spec fn wf(&self) -> bool {
        forall|i: int| 0 <= i < self.measures@.len() ==> (#[trigger] self.measures@[i]).1.wf()
    }

    /// Index in `measures` of the measure named `name`, if there is one.
    pub fn index_of(&self, name: &String) -> (r: Option<usize>)
        ensures
            match r {
                Some(i) => self.spec_index(name@) == Some(i as int) && i < self.measures@.len(),
                None => self.spec_index(name@) is None,
            },
    {
        proof {
            lemma_measure_index_in_range(self.measures@, name@, 0);
        }
        let mut i: usize = 0;
        while i < self.measures.len()
            invariant
                i <= self.measures@.len(),
                measure_index_from(self.measures@, name@, 0) == measure_index_from(
                    self.measures@,
                    name@,
                    i as int,
                ),
            decreases self.measures@.len() - i,
        {
            if self.measures[i].0 == *name {
                return Some(i);
            }
            i = i + 1;
        }
        None
    }

    pub fn is_well_formed(&self) -> (r: bool)
        ensures
            r == self.wf(),
    {
        let mut i: usize = 0;
        while i < self.measures.len()
            invariant
                i <= self.measures@.len(),
                forall|j: int| 0 <= j < i ==> (#[trigger] self.measures@[j]).1.wf(),
            decreases self.measures@.len() - i,
        {
            let levels = &self.measures[i].1.levels;
            let mut k: usize = 0;
            while k < levels.len()
                invariant
                    i < self.measures@.len(),
                    levels@ == self.measures@[i as int].1.levels@,
                    k <= levels@.len(),
                    forall|j: int| 0 <= j < k ==> (#[trigger] levels@[j]).1.params_delta.negatable(),
                decreases levels@.len() - k,
            {
                let d = levels[k].1.params_delta;
                if d.ideal_reproduction_number == i64::MIN || d.compliance_factor == i64::MIN
                    || d.recovery_rate == i64::MIN || d.infection_rate == i64::MIN {
                    return false;
                }
                k = k + 1;
            }
            i = i + 1;
        }
        true
    }
}

impl EventCatalog {
    pub open spec fn spec_index(&self, id: i32) -> Option<int> {
        event_index_from(self.events@, id, 0)
    }

    /// Index in `events` of the event with id `id`, if there is one.
    pub fn index_of(&self, id: i32) -> (r: Option<usize>)
        ensures
            match r {
                Some(i) => self.spec_index(id) == Some(i as int) && i < self.events@.len(),
                None => self.spec_index(id) is None,
            },
    {
        proof {
            lemma_event_index_in_range(self.events@, id, 0);
        }
        let mut i: usize = 0;
        while i < self.events.len()
            invariant
                i <= self.events@.len(),
                event_index_from(self.events@, id, 0) == event_index_from(self.events@, id, i as int),
            decreases self.events@.len() - i,
        {
            if self.events[i].id == id {
                return Some(i);
            }
            i = i + 1;
        }
        None
    }
}

} // verus!
