use vstd::prelude::*;

verus! {

/// Number of fixed-point units in one whole unit of a model parameter.
/// Every real-valued quantity of the model is held as an integer count of
/// `1 / PARAM_SCALE`.
pub const PARAM_SCALE: i64 = 1_000_000_000;

/// Number of people the compartment fractions are scaled by when they are
/// shown to, or received from, the player.
pub const POPULATION: i64 = 5000;

/// Length of a level, in days of game time.
pub const TOTAL_DAYS: i32 = 700;

/// `v` bounded below by `lo` and above by `hi`, the lower bound checked first.
pub open spec fn clamp(v: int, lo: int, hi: int) -> int {
    if v < lo {
        lo
    } else if v > hi {
        hi
    } else {
        v
    }
}

/// The four parameters a player can tune, or a change to them.
#[derive(Clone, Copy, Debug, PartialEq, Eq, Structural)]
pub struct Tunables {
    pub ideal_reproduction_number: i64,
    pub compliance_factor: i64,
    pub recovery_rate: i64,
    pub infection_rate: i64,
}

/// An inclusive range of fixed-point values.
#[derive(Clone, Copy, Debug, PartialEq, Eq, Structural)]
pub struct Range {
    pub min: i64,
    pub max: i64,
}

impl Range {
    pub open spec fn wf(&self) -> bool {
        self.min <= self.max
    }

    pub open spec fn contains(&self, v: int) -> bool {
        self.min <= v <= self.max
    }
}

/// Hard bounds on each tunable parameter.
#[derive(Clone, Copy, Debug, PartialEq, Eq, Structural)]
pub struct ParamLimits {
    pub ideal_reproduction_number: Range,
    pub compliance_factor: Range,
    pub recovery_rate: Range,
    pub infection_rate: Range,
}

impl ParamLimits {
    pub open spec fn wf(&self) -> bool {
        &&& self.ideal_reproduction_number.wf()
        &&& self.compliance_factor.wf()
        &&& self.recovery_rate.wf()
        &&& self.infection_rate.wf()
    }

    pub open spec fn contains(&self, t: Tunables) -> bool {
        &&& self.ideal_reproduction_number.contains(t.ideal_reproduction_number as int)
        &&& self.compliance_factor.contains(t.compliance_factor as int)
        &&& self.recovery_rate.contains(t.recovery_rate as int)
        &&& self.infection_rate.contains(t.infection_rate as int)
    }

    /// The limits the game runs with: reproduction number in [1.2, 3.0],
    /// compliance in [0, 0.8], recovery rate in [0.05, 0.1] and infection
    /// rate in [0.05, 0.3].
    pub fn standard() -> (r: ParamLimits)
        ensures
            r.wf(),
            r.ideal_reproduction_number == (Range { min: 1_200_000_000, max: 3_000_000_000 }),
            r.compliance_factor == (Range { min: 0, max: 800_000_000 }),
            r.recovery_rate == (Range { min: 50_000_000, max: 100_000_000 }),
            r.infection_rate == (Range { min: 50_000_000, max: 300_000_000 }),
    {
        ParamLimits {
            ideal_reproduction_number: Range { min: 1_200_000_000, max: 3_000_000_000 },
            compliance_factor: Range { min: 0, max: 800_000_000 },
            recovery_rate: Range { min: 50_000_000, max: 100_000_000 },
            infection_rate: Range { min: 50_000_000, max: 300_000_000 },
        }
    }
}

impl Tunables {
    pub fn zero() -> (r: Tunables)
        ensures
            r.is_zero(),
    {
        Tunables { ideal_reproduction_number: 0, compliance_factor: 0, recovery_rate: 0, infection_rate: 0 }
    }

    pub open spec fn is_zero(&self) -> bool {
        &&& self.ideal_reproduction_number == 0
        &&& self.compliance_factor == 0
        &&& self.recovery_rate == 0
        &&& self.infection_rate == 0
    }

    /// No component is `i64::MIN`, so each can be negated.
    pub open spec fn negatable(&self) -> bool {
        &&& self.ideal_reproduction_number > i64::MIN
        &&& self.compliance_factor > i64::MIN
        &&& self.recovery_rate > i64::MIN
        &&& self.infection_rate > i64::MIN
    }

    pub fn check_zero(&self) -> (r: bool)
        ensures
            r == self.is_zero(),
    {
        self.ideal_reproduction_number == 0 && self.compliance_factor == 0 && self.recovery_rate
            == 0 && self.infection_rate == 0
    }
}

/// One component of `apply_delta`.
pub open spec fn shifted(existing: i64, target: i64, received: i64, r: Range) -> int {
    clamp(received + (target - existing), r.min as int, r.max as int)
}

/// The parameters that result from replacing the change `existing` by the
/// change `target` on the values `received`, each bounded by `limits`.
pub open spec fn delta_result(
    existing: Tunables,
    target: Tunables,
    received: Tunables,
    limits: ParamLimits,
) -> Tunables {
    Tunables {
        ideal_reproduction_number: shifted(
            existing.ideal_reproduction_number,
            target.ideal_reproduction_number,
            received.ideal_reproduction_number,
            limits.ideal_reproduction_number,
        ) as i64,
        compliance_factor: shifted(
            existing.compliance_factor,
            target.compliance_factor,
            received.compliance_factor,
            limits.compliance_factor,
        ) as i64,
        recovery_rate: shifted(
            existing.recovery_rate,
            target.recovery_rate,
            received.recovery_rate,
            limits.recovery_rate,
        ) as i64,
        infection_rate: shifted(
            existing.infection_rate,
            target.infection_rate,
            received.infection_rate,
            limits.infection_rate,
        ) as i64,
    }
}

fn shift_one(existing: i64, target: i64, received: i64, r: Range) -> (v: i64)
    ensures
        v == shifted(existing, target, received, r),
{
    let sum: i128 = received as i128 + (target as i128 - existing as i128);
    if sum < r.min as i128 {
        r.min
    } else if sum > r.max as i128 {
        r.max
    } else {
        sum as i64
    }
}

/// Net parameter change: the values `received` move by `target - existing`,
/// and each is then bounded by its range in `limits`.
pub fn apply_delta(
    existing: &Tunables,
    target: &Tunables,
    received: &Tunables,
    limits: &ParamLimits,
) -> (r: Tunables)
    ensures
        r == delta_result(*existing, *target, *received, *limits),
{
    Tunables {
        ideal_reproduction_number: shift_one(
            existing.ideal_reproduction_number,
            target.ideal_reproduction_number,
            received.ideal_reproduction_number,
            limits.ideal_reproduction_number,
        ),
        compliance_factor: shift_one(
            existing.compliance_factor,
            target.compliance_factor,
            received.compliance_factor,
            limits.compliance_factor,
        ),
        recovery_rate: shift_one(
            existing.recovery_rate,
            target.recovery_rate,
            received.recovery_rate,
            limits.recovery_rate,
        ),
        infection_rate: shift_one(
            existing.infection_rate,
            target.infection_rate,
            received.infection_rate,
            limits.infection_rate,
        ),
    }
}

pub open spec fn abs(v: int) -> int {
    if v < 0 {
        -v
    } else {
        v
    }
}

/// The change a control measure has when it backfires: the reproduction
/// number moves the other way, compliance and recovery rate fall, and the
/// infection rate rises, each by the magnitude of the nominal change.
pub open spec fn backfired(d: Tunables) -> Tunables {
    Tunables {
        ideal_reproduction_number: (-d.ideal_reproduction_number) as i64,
        compliance_factor: (-abs(d.compliance_factor as int)) as i64,
        recovery_rate: (-abs(d.recovery_rate as int)) as i64,
        infection_rate: abs(d.infection_rate as int) as i64,
    }
}

fn abs_i64(v: i64) -> (r: i64)
    requires
        v > i64::MIN,
    ensures
        r == abs(v as int),
{
    if v < 0 {
        -v
    } else {
        v
    }
}

pub fn backfire_delta(d: &Tunables) -> (r: Tunables)
    requires
        d.negatable(),
    ensures
        r == backfired(*d),
{
    Tunables {
        ideal_reproduction_number: -d.ideal_reproduction_number,
        compliance_factor: -abs_i64(d.compliance_factor),
        recovery_rate: -abs_i64(d.recovery_rate),
        infection_rate: abs_i64(d.infection_rate),
    }
}

/// Applying the same pair of changes to the same values twice gives the
/// same parameters both times.
pub proof fn lemma_apply_delta_repeatable(
    existing: Tunables,
    target: Tunables,
    received: Tunables,
    limits: ParamLimits,
    first: Tunables,
    second: Tunables,
)
    requires
        first == delta_result(existing, target, received, limits),
        second == delta_result(existing, target, received, limits),
    ensures
        first == second,
{
}

/// Whatever the inputs, every parameter that `apply_delta` returns lies
/// within its limits.
pub proof fn lemma_apply_delta_within_limits(
    existing: Tunables,
    target: Tunables,
    received: Tunables,
    limits: ParamLimits,
)
    requires
        limits.wf(),
    ensures
        limits.contains(delta_result(existing, target, received, limits)),
{
}

} // verus!
