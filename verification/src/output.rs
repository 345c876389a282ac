//! A completed simulation run: the trajectory with its scenario identity,
//! plus lookups by year and extraction of single-variable series.

use vstd::prelude::*;
use vstd::string::StrSliceExecFns;
use crate::fixed::fsub;
use crate::params::ScenarioParams;
use crate::state::WorldState;

verus! {

/// A complete simulation run: the time series of world states.
#[derive(Clone, Debug)]
pub struct SimulationOutput {
    pub scenario_id: String,
    pub scenario_name: String,
    /// Simulation years corresponding to each state.
    pub timeline: Vec<i64>,
    /// One state per time step, same length as `timeline`.
    pub states: Vec<WorldState>,
    /// Parameters used for this run.
    pub params: ScenarioParams,
    /// Timestamp of when the run was computed.
    pub computed_at: String,
}

/// Distance between two years, in saturating fixed-point arithmetic.
pub open spec fn year_distance(t: int, y: int) -> int {
    if fsub(t, y) < 0 {
        -fsub(t, y)
    } else {
        fsub(t, y)
    }
}

/// The index of the state whose time is closest to `year`, scanning from
/// `i` with `best` the closest index so far; earlier states win ties.
pub open spec fn closest_from(s: Seq<WorldState>, year: int, i: int, best: int) -> int
    decreases s.len() - i,
{
    if i < 0 || i >= s.len() || !(0 <= best < s.len()) {
        best
    } else if year_distance(s[i].time as int, year) < year_distance(s[best].time as int, year) {
        closest_from(s, year, i + 1, i)
    } else {
        closest_from(s, year, i + 1, best)
    }
}

/// The index of the state closest to `year` over the whole trajectory.
pub open spec fn closest_index(s: Seq<WorldState>, year: int) -> int {
    closest_from(s, year, 1, 0)
}

/// The value a named series draws from one state, keyed by a dotted
/// `sector.field` path.
pub open spec fn spec_extract_field(s: WorldState, path: Seq<char>) -> Option<i64> {
    if path == "population.population"@ {
        Some(s.population.population)
    } else if path == "population.birth_rate"@ {
        Some(s.population.birth_rate)
    } else if path == "population.death_rate"@ {
        Some(s.population.death_rate)
    } else if path == "population.life_expectancy"@ {
        Some(s.population.life_expectancy)
    } else if path == "population.fertility_rate"@ {
        Some(s.population.fertility_rate)
    } else if path == "capital.industrial_capital"@ {
        Some(s.capital.industrial_capital)
    } else if path == "capital.service_capital"@ {
        Some(s.capital.service_capital)
    } else if path == "capital.industrial_output"@ {
        Some(s.capital.industrial_output)
    } else if path == "capital.industrial_output_per_capita"@ {
        Some(s.capital.industrial_output_per_capita)
    } else if path == "capital.service_output_per_capita"@ {
        Some(s.capital.service_output_per_capita)
    } else if path == "agriculture.arable_land"@ {
        Some(s.agriculture.arable_land)
    } else if path == "agriculture.food"@ {
        Some(s.agriculture.food)
    } else if path == "agriculture.food_per_capita"@ {
        Some(s.agriculture.food_per_capita)
    } else if path == "agriculture.land_yield"@ {
        Some(s.agriculture.land_yield)
    } else if path == "resources.nonrenewable_resources"@ {
        Some(s.resources.nonrenewable_resources)
    } else if path == "resources.fraction_remaining"@ {
        Some(s.resources.fraction_remaining)
    } else if path == "pollution.persistent_pollution"@ {
        Some(s.pollution.persistent_pollution)
    } else if path == "pollution.pollution_index"@ {
        Some(s.pollution.pollution_index)
    } else {
        None
    }
}

/// Character-wise string comparison: true exactly when the two slices hold
/// the same character sequence.
fn str_eq(a: &str, b: &str) -> (r: bool)
    ensures
        r == (a@ == b@),
{
    let la = a.unicode_len();
    let lb = b.unicode_len();
    if la != lb {
        return false;
    }
    let mut i: usize = 0;
    while i < la
        invariant
            la == a@.len(),
            la == b@.len(),
            0 <= i <= la,
            forall|j: int| 0 <= j < i ==> a@[j] == b@[j],
        decreases la - i,
    {
        if a.get_char(i) != b.get_char(i) {
            return false;
        }
        i = i + 1;
    }
    proof {
        assert(a@ =~= b@);
    }
    true
}

/// Extract one named variable from a state; `None` for an unknown path.
pub fn extract_field(state: &WorldState, path: &str) -> (r: Option<i64>)
    ensures
        r == spec_extract_field(*state, path@),
{
    if str_eq(path, "population.population") {
        Some(state.population.population)
    } else if str_eq(path, "population.birth_rate") {
        Some(state.population.birth_rate)
    } else if str_eq(path, "population.death_rate") {
        Some(state.population.death_rate)
    } else if str_eq(path, "population.life_expectancy") {
        Some(state.population.life_expectancy)
    } else if str_eq(path, "population.fertility_rate") {
        Some(state.population.fertility_rate)
    } else if str_eq(path, "capital.industrial_capital") {
        Some(state.capital.industrial_capital)
    } else if str_eq(path, "capital.service_capital") {
        Some(state.capital.service_capital)
    } else if str_eq(path, "capital.industrial_output") {
        Some(state.capital.industrial_output)
    } else if str_eq(path, "capital.industrial_output_per_capita") {
        Some(state.capital.industrial_output_per_capita)
    } else if str_eq(path, "capital.service_output_per_capita") {
        Some(state.capital.service_output_per_capita)
    } else if str_eq(path, "agriculture.arable_land") {
        Some(state.agriculture.arable_land)
    } else if str_eq(path, "agriculture.food") {
        Some(state.agriculture.food)
    } else if str_eq(path, "agriculture.food_per_capita") {
        Some(state.agriculture.food_per_capita)
    } else if str_eq(path, "agriculture.land_yield") {
        Some(state.agriculture.land_yield)
    } else if str_eq(path, "resources.nonrenewable_resources") {
        Some(state.resources.nonrenewable_resources)
    } else if str_eq(path, "resources.fraction_remaining") {
        Some(state.resources.fraction_remaining)
    } else if str_eq(path, "pollution.persistent_pollution") {
        Some(state.pollution.persistent_pollution)
    } else if str_eq(path, "pollution.pollution_index") {
        Some(state.pollution.pollution_index)
    } else {
        None
    }
}

impl SimulationOutput {
    /// Record a completed run: the timeline mirrors each state's time, the
    /// scenario identity is taken from the parameters, and the computation
    /// time is stamped from the clock.
    pub fn new(states: Vec<WorldState>, params: ScenarioParams) -> (r: SimulationOutput)
        ensures
            r.states@ == states@,
            r.timeline@.len() == states@.len(),
            forall|i: int| 0 <= i < states@.len() ==> r.timeline@[i] == #[trigger] states@[i].time,
            r.scenario_id == params.meta.id,
            r.scenario_name == params.meta.name,
            r.params == params,
    {
        let mut timeline: Vec<i64> = Vec::new();
        let mut i: usize = 0;
        while i < states.len()
            invariant
                0 <= i <= states@.len(),
                timeline@.len() == i,
                forall|j: int| 0 <= j < i ==> timeline@[j] == #[trigger] states@[j].time,
            decreases states@.len() - i,
        {
            timeline.push(states[i].time);
            i = i + 1;
        }
        SimulationOutput {
            scenario_id: params.meta.id.clone(),
            scenario_name: params.meta.name.clone(),
            timeline,
            states,
            params,
            computed_at: crate::clock::now_rfc3339(),
        }
    }

    /// The state closest to the requested year, if the run is nonempty;
    /// earlier samples win ties.
    pub fn state_at_year(&self, year: i64) -> (r: Option<&WorldState>)
        ensures
            r is Some <==> self.states@.len() > 0,
            r matches Some(s) ==> *s == self.states@[closest_index(self.states@, year as int)],
    {
        if self.states.len() == 0 {
            return None;
        }
        let mut best: usize = 0;
        let mut i: usize = 1;
        while i < self.states.len()
            invariant
                self.states@.len() > 0,
                0 <= best < self.states@.len(),
                1 <= i <= self.states@.len(),
                closest_index(self.states@, year as int) == closest_from(
                    self.states@,
                    year as int,
                    i as int,
                    best as int,
                ),
            decreases self.states@.len() - i,
        {
            let di = year_dist(self.states[i].time, year);
            let db = year_dist(self.states[best].time, year);
            if di < db {
                best = i;
            }
            i = i + 1;
        }
        Some(&self.states[best])
    }

    /// Extract a single named variable as a time series, one entry per
    /// state; an unknown path yields zeroes.
    pub fn extract_series(&self, path: &str) -> (r: Vec<i64>)
        ensures
            r@.len() == self.states@.len(),
            forall|i: int| 0 <= i < self.states@.len() ==> r@[i] == match spec_extract_field(
                #[trigger] self.states@[i],
                path@,
            ) {
                Some(v) => v,
                None => 0,
            },
    {
        let mut out: Vec<i64> = Vec::new();
        let mut i: usize = 0;
        while i < self.states.len()
            invariant
                0 <= i <= self.states@.len(),
                out@.len() == i,
                forall|j: int| 0 <= j < i ==> out@[j] == match spec_extract_field(
                    #[trigger] self.states@[j],
                    path@,
                ) {
                    Some(v) => v,
                    None => 0,
                },
            decreases self.states@.len() - i,
        {
            let v = match extract_field(&self.states[i], path) {
                Some(v) => v,
                None => 0,
            };
            out.push(v);
            i = i + 1;
        }
        out
    }
}

/// The saturating distance between a state's year and a query year.
fn year_dist(t: i64, y: i64) -> (r: i64)
    ensures
        r as int == year_distance(t as int, y as int),
{
    let d = crate::fixed::fix_sub(t, y);
    if d < 0 {
        -d
    } else {
        d
    }
}

} // verus!
