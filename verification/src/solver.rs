//! Fixed-step fourth-order integrator.
//!
//! Each step evaluates four stage derivatives (the classical scheme: one at
//! the current state, two at half-step extrapolations, one at the full
//! step), combines them with the standard weights, and rebuilds the state
//! through the clamping stock-vector conversion so auxiliaries are freshly
//! recomputed at every stage.  After a step is accepted, all sector
//! auxiliaries are recomputed on it so the stored trajectory carries fully
//! populated derived fields.  A divergence guard aborts the run — returning
//! no partial trajectory — when population leaves its sane envelope or any
//! stock reaches the representable bound, the fixed-point analogue of an
//! infinite value.  The final step is clipped so the last sample lands
//! exactly on the configured end year.

use vstd::prelude::*;
use crate::derivatives::{derivatives, spec_derivatives, work_pollution, work_population};
use crate::fixed::{fadd, fhalf, fmin, fscaled, fsub, fix_add, fix_halve, fix_min, fix_scaled,
    fix_sub, FIX_MAX};
use crate::params::ScenarioParams;
use crate::sectors::agriculture::agriculture_derivatives;
use crate::sectors::capital::capital_derivatives;
use crate::sectors::pollution::pollution_derivative;
use crate::sectors::population::population_derivatives;
use crate::sectors::resources::compute_resource_auxiliaries;
use crate::state::{from_vec_spec, stock_seq, WorldState};
use crate::tables::{tables_wf, WorldLookupTables};

verus! {

/// Absolute population ceiling: beyond it the run is declared divergent.
pub const POPULATION_CEILING: i64 = 100000000000000000;

/// A run failure.
#[derive(Clone, Debug)]
pub enum SolverError {
    /// The state left its physically sane numeric envelope: the year, the
    /// offending variable, and its value.
    Diverged { year: i64, variable: String, value: i64 },
    /// The configuration cannot be integrated as given.
    InvalidInitial(String),
}

/// A state counts as divergent when its population is negative or above the
/// ceiling, or any stock has saturated at the representable bound.
pub open spec fn spec_diverged(s: WorldState) -> bool {
    ||| s.population.population < 0
    ||| s.population.population > POPULATION_CEILING
    ||| exists|j: int| 0 <= j < 10 && stock_seq(s)[j] == FIX_MAX
}

/// Index of the first saturated stock from position `j`, or 10 if none.
pub open spec fn first_saturated(v: Seq<i64>, j: int) -> int
    decreases 10 - j,
{
    if j < 0 || j >= 10 {
        10
    } else if v[j] == FIX_MAX {
        j
    } else {
        first_saturated(v, j + 1)
    }
}

/// Which variable a divergence report names: 10 stands for population, a
/// smaller index for the saturated stock in the fixed stock order.
pub open spec fn spec_divergence_kind(s: WorldState) -> int {
    if s.population.population < 0 || s.population.population > POPULATION_CEILING {
        10
    } else {
        first_saturated(stock_seq(s), 0)
    }
}

/// The name reported for each divergence kind.
pub open spec fn stock_variable_name(k: int) -> Seq<char> {
    if k == 0 {
        "cohort_0_14"@
    } else if k == 1 {
        "cohort_15_44"@
    } else if k == 2 {
        "cohort_45_64"@
    } else if k == 3 {
        "cohort_65_plus"@
    } else if k == 4 {
        "industrial_capital"@
    } else if k == 5 {
        "service_capital"@
    } else if k == 6 {
        "arable_land"@
    } else if k == 7 {
        "potentially_arable_land"@
    } else if k == 8 {
        "nonrenewable_resources"@
    } else if k == 9 {
        "persistent_pollution"@
    } else {
        "population"@
    }
}

/// The value a divergence report carries: the population itself, or the
/// saturation bound for a saturated stock.
pub open spec fn spec_divergence_value(s: WorldState) -> int {
    if spec_divergence_kind(s) == 10 {
        s.population.population as int
    } else {
        FIX_MAX as int
    }
}

/// One half- or full-step stock extrapolation: `base + k * dt / den`,
/// pointwise over the ten stocks.
pub open spec fn stage_vec(base: Seq<i64>, k: Seq<i64>, dt: int, den: int) -> Seq<i64> {
    Seq::new(10, |j: int| fadd(base[j] as int, fscaled(k[j] as int, dt, den)) as i64)
}

/// The weighted stage combination of the classical fourth-order scheme:
/// `base + dt * (k1 + 2 k2 + 2 k3 + k4) / 6`, term by term.
pub open spec fn rk4_combined(
    base: Seq<i64>,
    k1: Seq<i64>,
    k2: Seq<i64>,
    k3: Seq<i64>,
    k4: Seq<i64>,
    dt: int,
) -> Seq<i64> {
    Seq::new(
        10,
        |j: int|
            fadd(
                base[j] as int,
                fadd(
                    fadd(
                        fadd(fscaled(k1[j] as int, dt, 6), fscaled(k2[j] as int, dt, 3)),
                        fscaled(k3[j] as int, dt, 3),
                    ),
                    fscaled(k4[j] as int, dt, 6),
                ),
            ) as i64,
    )
}

/// One accepted integration step before the auxiliary recomputation: four
/// stage evaluations, each on a state rebuilt through the clamping
/// conversion, combined with the standard weights.
#[verifier::opaque]
pub open spec fn rk4_next(s: WorldState, dt: int, p: ScenarioParams, t: WorldLookupTables) -> WorldState {
    let v = stock_seq(s);
    let k1 = stock_seq(spec_derivatives(s, p, t));
    let s2 = from_vec_spec(fadd(s.time as int, fhalf(dt)) as i64, stage_vec(v, k1, dt, 2));
    let k2 = stock_seq(spec_derivatives(s2, p, t));
    let s3 = from_vec_spec(fadd(s.time as int, fhalf(dt)) as i64, stage_vec(v, k2, dt, 2));
    let k3 = stock_seq(spec_derivatives(s3, p, t));
    let s4 = from_vec_spec(fadd(s.time as int, dt) as i64, stage_vec(v, k3, dt, 1));
    let k4 = stock_seq(spec_derivatives(s4, p, t));
    from_vec_spec(fadd(s.time as int, dt) as i64, rk4_combined(v, k1, k2, k3, k4, dt))
}

/// The initial sample: the caller's state with all non-population sector
/// auxiliaries populated, as they stand before the first step.
pub open spec fn spec_init(initial: WorldState, p: ScenarioParams, t: WorldLookupTables) -> WorldState {
    work_pollution(initial, p, t)
}

/// One accepted step: the integrator step followed by the full auxiliary
/// recomputation on the accepted state.
pub open spec fn spec_accept(s: WorldState, adt: int, p: ScenarioParams, t: WorldLookupTables) -> WorldState {
    work_population(rk4_next(s, adt, p, t), p, t)
}

/// The step the loop takes from time `time`: the configured step, clipped
/// so the last sample lands exactly on the end year.
pub open spec fn spec_step_size(time: int, p: ScenarioParams) -> int {
    fmin(fsub(p.end_year as int, time), p.time_step as int)
}

/// The accepted states of a run from `cur`, in order.  The sequence ends
/// either at the end year or with a first divergent state.
#[verifier::opaque]
pub open spec fn spec_run(cur: WorldState, p: ScenarioParams, t: WorldLookupTables) -> Seq<WorldState>
    decreases p.end_year - cur.time
        when p.time_step >= 1
        via spec_run_decreases
{
    if p.time_step < 1 || cur.time >= p.end_year {
        Seq::empty()
    } else {
        let next = spec_accept(cur, spec_step_size(cur.time as int, p), p, t);
        if spec_diverged(next) {
            seq![next]
        } else {
            seq![next] + spec_run(next, p, t)
        }
    }
}

/// The accepted state's time is the previous time plus the clipped step.
proof fn lemma_accept_time(s: WorldState, adt: int, p: ScenarioParams, t: WorldLookupTables)
    ensures
        spec_accept(s, adt, p, t).time as int == fadd(s.time as int, adt),
{
    reveal(rk4_next);
    reveal(crate::sectors::resources::resources_updated);
    reveal(crate::sectors::capital::capital_updated);
    reveal(crate::sectors::agriculture::agriculture_updated);
    reveal(crate::sectors::pollution::pollution_updated);
    reveal(crate::sectors::population::population_updated);
}

/// The clipped step is positive and never overshoots the end year.
proof fn lemma_step_bounds(time: int, p: ScenarioParams)
    requires
        p.time_step >= 1,
        time < p.end_year,
        -(FIX_MAX as int) - 1 <= time <= FIX_MAX as int,
    ensures
        1 <= spec_step_size(time, p),
        fadd(time, spec_step_size(time, p)) == time + spec_step_size(time, p),
        time + spec_step_size(time, p) <= p.end_year,
{
}

#[via_fn]
proof fn spec_run_decreases(cur: WorldState, p: ScenarioParams, t: WorldLookupTables) {
    if p.time_step >= 1 && cur.time < p.end_year {
        let adt = spec_step_size(cur.time as int, p);
        lemma_step_bounds(cur.time as int, p);
        lemma_accept_time(cur, adt, p, t);
    }
}

/// No state of the run is divergent.
pub open spec fn run_ok(r: Seq<WorldState>) -> bool {
    forall|j: int| 0 <= j < r.len() ==> !spec_diverged(#[trigger] r[j])
}

/// Build the name a divergence report uses for kind `k`.
fn stock_variable(k: usize) -> (r: String)
    ensures
        r@ == stock_variable_name(k as int),
{
    if k == 0 {
        "cohort_0_14".to_string()
    } else if k == 1 {
        "cohort_15_44".to_string()
    } else if k == 2 {
        "cohort_45_64".to_string()
    } else if k == 3 {
        "cohort_65_plus".to_string()
    } else if k == 4 {
        "industrial_capital".to_string()
    } else if k == 5 {
        "service_capital".to_string()
    } else if k == 6 {
        "arable_land".to_string()
    } else if k == 7 {
        "potentially_arable_land".to_string()
    } else if k == 8 {
        "nonrenewable_resources".to_string()
    } else if k == 9 {
        "persistent_pollution".to_string()
    } else {
        "population".to_string()
    }
}

/// Check the divergence guard: `Some` with the full report exactly when the
/// state is divergent.
fn check_divergence(s: &WorldState) -> (r: Option<SolverError>)
    ensures
        r is Some <==> spec_diverged(*s),
        r matches Some(e) ==> (e matches SolverError::Diverged { year, variable, value }
            && year == s.time && variable@ == stock_variable_name(spec_divergence_kind(*s))
            && value as int == spec_divergence_value(*s)),
{
    let pop = s.population.population;
    if pop < 0 || pop > POPULATION_CEILING {
        return Some(
            SolverError::Diverged { year: s.time, variable: stock_variable(10), value: pop },
        );
    }
    let v = s.to_vec();
    let mut j: usize = 0;
    while j < 10
        invariant
            0 <= s.population.population <= POPULATION_CEILING,
            v@ == stock_seq(*s),
            0 <= j <= 10,
            forall|i: int| 0 <= i < j ==> stock_seq(*s)[i] != FIX_MAX,
            first_saturated(stock_seq(*s), 0) == first_saturated(stock_seq(*s), j as int),
        decreases 10 - j,
    {
        if v[j] == FIX_MAX {
            proof {
                assert(stock_seq(*s)[j as int] == FIX_MAX);
                assert(spec_divergence_kind(*s) == j as int);
            }
            return Some(
                SolverError::Diverged {
                    year: s.time,
                    variable: stock_variable(j),
                    value: FIX_MAX,
                },
            );
        }
        j = j + 1;
    }
    proof {
        assert(first_saturated(stock_seq(*s), 10) == 10);
        if spec_diverged(*s) {
            let w = choose|i: int| 0 <= i < 10 && stock_seq(*s)[i] == FIX_MAX;
            assert(stock_seq(*s)[w] != FIX_MAX);
        }
    }
    None
}

/// The fixed-step fourth-order solver, holding the shared read-only curve
/// set.
pub struct Rk4Solver {
    pub tables: WorldLookupTables,
}

impl Rk4Solver {
    pub fn new(tables: WorldLookupTables) -> (r: Rk4Solver)
        ensures
            r.tables == tables,
    {
        Rk4Solver { tables }
    }

    /// One half- or full-step extrapolated stock vector.
    fn stage_stocks(base: &Vec<i64>, k: &Vec<i64>, dt: i64, den: u32) -> (r: Vec<i64>)
        requires
            base@.len() == 10,
            k@.len() == 10,
            0 < den <= 1000,
        ensures
            r@ == stage_vec(base@, k@, dt as int, den as int),
    {
        let v = vec![
            fix_add(base[0], fix_scaled(k[0], dt, den)),
            fix_add(base[1], fix_scaled(k[1], dt, den)),
            fix_add(base[2], fix_scaled(k[2], dt, den)),
            fix_add(base[3], fix_scaled(k[3], dt, den)),
            fix_add(base[4], fix_scaled(k[4], dt, den)),
            fix_add(base[5], fix_scaled(k[5], dt, den)),
            fix_add(base[6], fix_scaled(k[6], dt, den)),
            fix_add(base[7], fix_scaled(k[7], dt, den)),
            fix_add(base[8], fix_scaled(k[8], dt, den)),
            fix_add(base[9], fix_scaled(k[9], dt, den)),
        ];
        proof {
            assert(v@ =~= stage_vec(base@, k@, dt as int, den as int));
        }
        v
    }

    /// The weighted combination of the four stage derivative vectors.
    fn combined_stocks(
        base: &Vec<i64>,
        k1: &Vec<i64>,
        k2: &Vec<i64>,
        k3: &Vec<i64>,
        k4: &Vec<i64>,
        dt: i64,
    ) -> (r: Vec<i64>)
        requires
            base@.len() == 10,
            k1@.len() == 10,
            k2@.len() == 10,
            k3@.len() == 10,
            k4@.len() == 10,
        ensures
            r@ == rk4_combined(base@, k1@, k2@, k3@, k4@, dt as int),
    {
        let mut v: Vec<i64> = Vec::new();
        let mut j: usize = 0;
        while j < 10
            invariant
                base@.len() == 10,
                k1@.len() == 10,
                k2@.len() == 10,
                k3@.len() == 10,
                k4@.len() == 10,
                0 <= j <= 10,
                v@.len() == j,
                forall|i: int| 0 <= i < j ==> v@[i] == rk4_combined(
                    base@,
                    k1@,
                    k2@,
                    k3@,
                    k4@,
                    dt as int,
                )[i],
            decreases 10 - j,
        {
            let w = fix_add(
                fix_add(
                    fix_add(fix_scaled(k1[j], dt, 6), fix_scaled(k2[j], dt, 3)),
                    fix_scaled(k3[j], dt, 3),
                ),
                fix_scaled(k4[j], dt, 6),
            );
            v.push(fix_add(base[j], w));
            j = j + 1;
        }
        proof {
            assert(v@ =~= rk4_combined(base@, k1@, k2@, k3@, k4@, dt as int));
        }
        v
    }

    /// One integration step of size `dt` from `state`.
    fn rk4_step(&self, state: &WorldState, dt: i64, params: &ScenarioParams) -> (r: WorldState)
        requires
            tables_wf(self.tables),
        ensures
            r == rk4_next(*state, dt as int, *params, self.tables),
    {
        proof {
            reveal(rk4_next);
        }
        let base = state.to_vec();
        let t_half = fix_add(state.time, fix_halve(dt));
        let t_full = fix_add(state.time, dt);

        let k1 = derivatives(state, params, &self.tables).to_vec();
        let s2 = WorldState::from_vec(t_half, &Self::stage_stocks(&base, &k1, dt, 2));
        let k2 = derivatives(&s2, params, &self.tables).to_vec();
        let s3 = WorldState::from_vec(t_half, &Self::stage_stocks(&base, &k2, dt, 2));
        let k3 = derivatives(&s3, params, &self.tables).to_vec();
        let s4 = WorldState::from_vec(t_full, &Self::stage_stocks(&base, &k3, dt, 1));
        let k4 = derivatives(&s4, params, &self.tables).to_vec();

        let combined = Self::combined_stocks(&base, &k1, &k2, &k3, &k4, dt);
        WorldState::from_vec(t_full, &combined)
    }

    /// Recompute every sector's auxiliary fields on an accepted state.
    fn recompute_auxiliaries(&self, state: &mut WorldState, params: &ScenarioParams)
        requires
            tables_wf(self.tables),
        ensures
            *final(state) == work_population(*old(state), *params, self.tables),
    {
        compute_resource_auxiliaries(state, &self.tables);
        capital_derivatives(state, params, &self.tables);
        agriculture_derivatives(state, params, &self.tables);
        pollution_derivative(state, params, &self.tables);
        population_derivatives(state, params, &self.tables);
    }

    /// Integrate from `initial` to the configured end year.
    ///
    /// Returns the full trajectory — the initial sample (with its auxiliaries
    /// pre-populated) followed by one state per accepted step — or, when a
    /// step leaves the sane numeric envelope, a divergence error naming the
    /// year, variable and value, with no partial trajectory.  A
    /// non-positive time step cannot be integrated and is rejected.
    pub fn solve(&self, initial: WorldState, params: &ScenarioParams) -> (r: Result<
        Vec<WorldState>,
        SolverError,
    >)
        requires
            tables_wf(self.tables),
        ensures
            ({
                let start = spec_init(initial, *params, self.tables);
                let run = spec_run(start, *params, self.tables);
                &&& (params.time_step <= 0 <==> r matches Err(SolverError::InvalidInitial(_)))
                &&& params.time_step >= 1 ==> match r {
                    Ok(states) => states@ == seq![start] + run && run_ok(run),
                    Err(e) => {
                        &&& run.len() > 0
                        &&& spec_diverged(run.last())
                        &&& run_ok(run.drop_last())
                        &&& (e matches SolverError::Diverged { year, variable, value }
                            && year == run.last().time
                            && variable@ == stock_variable_name(spec_divergence_kind(run.last()))
                            && value as int == spec_divergence_value(run.last()))
                    },
                }
            }),
    {
        if params.time_step <= 0 {
            return Err(SolverError::InvalidInitial("time step must be positive".to_string()));
        }
        let mut current = initial;
        compute_resource_auxiliaries(&mut current, &self.tables);
        capital_derivatives(&mut current, params, &self.tables);
        agriculture_derivatives(&mut current, params, &self.tables);
        pollution_derivative(&mut current, params, &self.tables);
        let ghost start = current;

        let mut states: Vec<WorldState> = Vec::new();
        states.push(current);

        while current.time < params.end_year
            invariant
                tables_wf(self.tables),
                params.time_step >= 1,
                start == spec_init(initial, *params, self.tables),
                states@.len() >= 1,
                states@[0] == start,
                current == states@.last(),
                spec_run(start, *params, self.tables) == states@.skip(1) + spec_run(
                    current,
                    *params,
                    self.tables,
                ),
                run_ok(states@.skip(1)),
            decreases params.end_year - current.time,
        {
            let dt = fix_min(fix_sub(params.end_year, current.time), params.time_step);
            proof {
                lemma_step_bounds(current.time as int, *params);
                assert(dt as int == spec_step_size(current.time as int, *params));
            }
            let mut next = self.rk4_step(&current, dt, params);
            self.recompute_auxiliaries(&mut next, params);
            proof {
                assert(next == spec_accept(current, dt as int, *params, self.tables));
                lemma_accept_time(current, dt as int, *params, self.tables);
            }
            match check_divergence(&next) {
                Some(e) => {
                    proof {
                        reveal(spec_run);
                        let run_cur = spec_run(current, *params, self.tables);
                        assert(run_cur == seq![next]);
                        let run = spec_run(start, *params, self.tables);
                        assert(run == states@.skip(1) + seq![next]);
                        assert(run.len() == states@.skip(1).len() + 1);
                        assert(run[run.len() - 1] == next);
                        assert(run.last() == next);
                        assert(run.drop_last() =~= states@.skip(1));
                        assert(run_ok(run.drop_last()));
                        assert(spec_diverged(run.last()));
                    }
                    return Err(e);
                },
                None => {
                    proof {
                        reveal(spec_run);
                        let run_cur = spec_run(current, *params, self.tables);
                        assert(run_cur == seq![next] + spec_run(next, *params, self.tables));
                        assert((states@ + seq![next]).skip(1) =~= states@.skip(1) + seq![next]);
                        assert(states@.skip(1) + (seq![next] + spec_run(
                            next,
                            *params,
                            self.tables,
                        )) =~= (states@.skip(1) + seq![next]) + spec_run(next, *params, self.tables));
                        let old_tail = states@.skip(1);
                        let new_tail = old_tail + seq![next];
                        assert(!spec_diverged(next));
                        assert forall|i: int| 0 <= i < new_tail.len() implies !spec_diverged(
                            new_tail[i],
                        ) by {
                            if i < old_tail.len() {
                                assert(!spec_diverged(old_tail[i]));
                            } else {
                                assert(new_tail[i] == next);
                            }
                        }
                        assert(run_ok(new_tail));
                        assert(states@.push(next) =~= states@ + seq![next]);
                    }
                    states.push(next);
                    current = next;
                },
            }
        }
        proof {
            reveal(spec_run);
            assert(spec_run(current, *params, self.tables) == Seq::<WorldState>::empty());
            assert(states@.skip(1) + Seq::<WorldState>::empty() =~= states@.skip(1));
            assert(states@ =~= seq![start] + states@.skip(1));
        }
        Ok(states)
    }
}


/// Every stock nonnegative and the resource fraction inside [0, 1]: the
/// envelope every accepted state keeps.
pub open spec fn state_sane(s: WorldState) -> bool {
    &&& crate::state::stocks_nonneg(s)
    &&& 0 <= s.resources.fraction_remaining <= crate::fixed::FIX_ONE
}

/// An accepted step lands inside the sane envelope: the stock-vector
/// reconstruction clamps every stock to be nonnegative and the resource
/// pass clamps the fraction into [0, 1], and no later auxiliary pass
/// touches either.
proof fn lemma_accept_sane(s: WorldState, adt: int, p: ScenarioParams, t: WorldLookupTables)
    ensures
        state_sane(spec_accept(s, adt, p, t)),
{
    reveal(rk4_next);
    reveal(crate::sectors::resources::resources_updated);
    reveal(crate::sectors::capital::capital_updated);
    reveal(crate::sectors::agriculture::agriculture_updated);
    reveal(crate::sectors::pollution::pollution_updated);
    reveal(crate::sectors::population::population_updated);
    let stepped = rk4_next(s, adt, p, t);
    let accepted = spec_accept(s, adt, p, t);
    assert(stock_seq(accepted) =~= stock_seq(stepped));
    assert forall|i: int| 0 <= i < 10 implies stock_seq(stepped)[i] >= 0 by {
        assert(stock_seq(stepped)[i] >= 0);
    }
}

/// For all returned states of a run, every stock is nonnegative and the
/// resource fraction remaining lies in [0, 1].
pub proof fn lemma_run_sane(cur: WorldState, p: ScenarioParams, t: WorldLookupTables)
    requires
        p.time_step >= 1,
    ensures
        forall|j: int| 0 <= j < spec_run(cur, p, t).len() ==> state_sane(
            #[trigger] spec_run(cur, p, t)[j],
        ),
    decreases p.end_year - cur.time,
{
    reveal(spec_run);
    if cur.time < p.end_year {
        let adt = spec_step_size(cur.time as int, p);
        let next = spec_accept(cur, adt, p, t);
        lemma_accept_sane(cur, adt, p, t);
        if !spec_diverged(next) {
            lemma_step_bounds(cur.time as int, p);
            lemma_accept_time(cur, adt, p, t);
            lemma_run_sane(next, p, t);
            let rest = spec_run(next, p, t);
            let run = spec_run(cur, p, t);
            assert(run == seq![next] + rest);
            assert forall|j: int| 0 <= j < run.len() implies state_sane(run[j]) by {
                if j == 0 {
                    assert(run[j] == next);
                } else {
                    assert(run[j] == rest[j - 1]);
                }
            }
        }
    }
}

/// The trajectory is sampled at the configured step size: each returned
/// state's time advances by one step from the starting time, except that
/// the final sample is clipped to land exactly on the end year.
pub proof fn lemma_run_timeline(cur: WorldState, p: ScenarioParams, t: WorldLookupTables)
    requires
        p.time_step >= 1,
    ensures
        forall|j: int| 0 <= j < spec_run(cur, p, t).len() ==> #[trigger] spec_run(
            cur,
            p,
            t,
        )[j].time as int == fmin(cur.time + (j + 1) * p.time_step, p.end_year as int),
    decreases p.end_year - cur.time,
{
    reveal(spec_run);
    if cur.time < p.end_year {
        let adt = spec_step_size(cur.time as int, p);
        let next = spec_accept(cur, adt, p, t);
        lemma_step_bounds(cur.time as int, p);
        lemma_accept_time(cur, adt, p, t);
        assert(next.time as int == fmin(cur.time + 1 * p.time_step, p.end_year as int));
        if !spec_diverged(next) {
            lemma_run_timeline(next, p, t);
            let rest = spec_run(next, p, t);
            let run = spec_run(cur, p, t);
            assert(run == seq![next] + rest);
            assert forall|j: int| 0 <= j < run.len() implies run[j].time as int == fmin(
                cur.time + (j + 1) * p.time_step,
                p.end_year as int,
            ) by {
                if j == 0 {
                    assert(run[j] == next);
                } else {
                    assert(run[j] == rest[j - 1]);
                    assert(rest[j - 1].time as int == fmin(
                        next.time + j * p.time_step,
                        p.end_year as int,
                    ));
                    if next.time as int == p.end_year as int {
                        assert(rest.len() == 0);
                    } else {
                        assert(next.time as int == cur.time + p.time_step);
                        assert((j + 1) * p.time_step == j * p.time_step + p.time_step)
                            by (nonlinear_arith);
                    }
                }
            }
        }
    }
}

/// A run that never diverges covers the whole year range: its length is
/// the number of steps needed, the ceiling of (end - start) / step.
pub proof fn lemma_run_length(cur: WorldState, p: ScenarioParams, t: WorldLookupTables)
    requires
        p.time_step >= 1,
        run_ok(spec_run(cur, p, t)),
    ensures
        cur.time >= p.end_year ==> spec_run(cur, p, t).len() == 0,
        cur.time < p.end_year ==> spec_run(cur, p, t).len() == (p.end_year - cur.time
            + p.time_step - 1) / (p.time_step as int),
    decreases p.end_year - cur.time,
{
    reveal(spec_run);
    if cur.time < p.end_year {
        let a = p.end_year - cur.time;
        let d = p.time_step as int;
        let adt = spec_step_size(cur.time as int, p);
        let next = spec_accept(cur, adt, p, t);
        lemma_step_bounds(cur.time as int, p);
        lemma_accept_time(cur, adt, p, t);
        let run = spec_run(cur, p, t);
        assert(!spec_diverged(next)) by {
            assert(run[0] == next);
        }
        let rest = spec_run(next, p, t);
        assert(run == seq![next] + rest);
        assert(run_ok(rest)) by {
            assert forall|j: int| 0 <= j < rest.len() implies !spec_diverged(rest[j]) by {
                assert(rest[j] == run[j + 1]);
            }
        }
        lemma_run_length(next, p, t);
        vstd::arithmetic::div_mod::lemma_div_plus_one(a - 1, d);
        if a <= d {
            assert(next.time == p.end_year);
            assert(rest.len() == 0);
            vstd::arithmetic::div_mod::lemma_basic_div(a - 1, d);
        } else {
            assert(next.time as int == cur.time + d);
            assert(rest.len() == (p.end_year - next.time + p.time_step - 1) / d);
        }
    }
}

/// For every state of a returned trajectory, the initial sample included,
/// every stock is nonnegative and the resource fraction remaining lies in
/// [0, 1] - provided the caller's initial stocks were themselves
/// nonnegative, since the initial sample carries them through unclamped.
pub proof fn lemma_trajectory_sane(
    states: Seq<WorldState>,
    initial: WorldState,
    p: ScenarioParams,
    t: WorldLookupTables,
)
    requires
        p.time_step >= 1,
        crate::state::stocks_nonneg(initial),
        states == seq![spec_init(initial, p, t)] + spec_run(spec_init(initial, p, t), p, t),
    ensures
        forall|j: int| 0 <= j < states.len() ==> state_sane(#[trigger] states[j]),
{
    reveal(crate::sectors::resources::resources_updated);
    reveal(crate::sectors::capital::capital_updated);
    reveal(crate::sectors::agriculture::agriculture_updated);
    reveal(crate::sectors::pollution::pollution_updated);
    let start = spec_init(initial, p, t);
    assert(stock_seq(start) =~= stock_seq(initial));
    assert(state_sane(start)) by {
        assert forall|i: int| 0 <= i < 10 implies stock_seq(start)[i] >= 0 by {
            assert(stock_seq(initial)[i] >= 0);
        }
    }
    lemma_run_sane(start, p, t);
    assert forall|j: int| 0 <= j < states.len() implies state_sane(states[j]) by {
        if j == 0 {
            assert(states[j] == start);
        } else {
            assert(states[j] == spec_run(start, p, t)[j - 1]);
        }
    }
}

/// Determinism: the trajectory of a run is a function of the initial
/// state, the parameters and the table set alone, so two runs with
/// identical inputs return identical trajectories, field for field.
pub proof fn lemma_solve_deterministic(
    r1: Seq<WorldState>,
    r2: Seq<WorldState>,
    initial: WorldState,
    p: ScenarioParams,
    t: WorldLookupTables,
)
    requires
        r1 == seq![spec_init(initial, p, t)] + spec_run(spec_init(initial, p, t), p, t),
        r2 == seq![spec_init(initial, p, t)] + spec_run(spec_init(initial, p, t), p, t),
    ensures
        r1 == r2,
{
}

} // verus!
