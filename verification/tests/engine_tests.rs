//! End-to-end tests of the simulation engine: state conversions, the
//! integrator's trajectory shape, determinism, the sane-envelope invariant,
//! divergence detection, and the standard-run checkpoints.

use world3::fixed::{FIX_ONE, SCALE};
use world3::scenario::initial_conditions_1900;
use world3::state::WorldState;
use world3::{Rk4Solver, ScenarioParams, SolverError, WorldLookupTables};

fn fx(v: f64) -> i64 {
    (v * SCALE as f64).round() as i64
}

fn val(micro: i64) -> f64 {
    micro as f64 / SCALE as f64
}

fn run_bau() -> Vec<WorldState> {
    let solver = Rk4Solver::new(WorldLookupTables::load());
    let params = ScenarioParams::bau();
    solver.solve(initial_conditions_1900(), &params).expect("standard run must complete")
}

fn state_at<'a>(states: &'a [WorldState], year: f64) -> &'a WorldState {
    states.iter().find(|s| s.time == fx(year)).expect("year must be sampled")
}

#[test]
fn from_vec_to_vec_roundtrip_preserves_stocks() {
    let mut s = initial_conditions_1900();
    // Auxiliary junk must not survive the round trip; stocks must, exactly.
    s.population.birth_rate = 123;
    s.capital.industrial_output = 456;
    let v = s.to_vec();
    let r = WorldState::from_vec(s.time, &v);
    assert_eq!(r.to_vec(), v);
    assert_eq!(r.population.cohort_0_14, s.population.cohort_0_14);
    assert_eq!(r.pollution.persistent_pollution, s.pollution.persistent_pollution);
    assert_eq!(r.capital.industrial_output, 0);
    assert_eq!(r.population.birth_rate, 0);
}

#[test]
fn from_vec_clamps_negative_stocks_and_fraction() {
    let v = vec![-5i64, 10, 10, 10, 10, 10, 10, 10, fx(2.0), -7];
    let r = WorldState::from_vec(0, &v);
    assert_eq!(r.population.cohort_0_14, 0);
    assert_eq!(r.pollution.persistent_pollution, 0);
    assert_eq!(r.resources.nonrenewable_resources, fx(2.0));
    assert_eq!(r.resources.fraction_remaining, FIX_ONE);
    assert_eq!(r.population.population, 30);
}

#[test]
fn stock_arithmetic_touches_only_stocks() {
    let a = initial_conditions_1900();
    let b = initial_conditions_1900();
    let sum = a.add_stocks(&b);
    assert_eq!(sum.population.cohort_0_14, 2 * a.population.cohort_0_14);
    assert_eq!(sum.resources.nonrenewable_resources, 2 * a.resources.nonrenewable_resources);
    // Auxiliary fields come from the left operand unchanged.
    assert_eq!(sum.agriculture.food_per_capita, a.agriculture.food_per_capita);
    assert_eq!(sum.time, a.time);

    let half = a.scale_stocks(fx(0.5));
    assert_eq!(half.capital.industrial_capital, a.capital.industrial_capital / 2);
    assert_eq!(half.agriculture.food_per_capita, a.agriculture.food_per_capita);
}

#[test]
fn solve_is_deterministic() {
    let a = run_bau();
    let b = run_bau();
    assert_eq!(a, b);
}

#[test]
fn standard_run_has_expected_sampling() {
    let states = run_bau();
    // 1900 to 2100 at a one-year step: 200 steps plus the initial sample.
    assert_eq!(states.len(), 201);
    assert_eq!(states[0].time, fx(1900.0));
    assert_eq!(states[200].time, fx(2100.0));
    for i in 0..200 {
        assert_eq!(states[i + 1].time - states[i].time, fx(1.0));
    }
}

#[test]
fn uneven_step_is_clipped_to_end_year() {
    let solver = Rk4Solver::new(WorldLookupTables::load());
    let mut params = ScenarioParams::bau();
    params.time_step = fx(0.6);
    let states = solver.solve(initial_conditions_1900(), &params).expect("run must complete");
    // ceil(200 / 0.6) = 334 steps plus the initial sample.
    assert_eq!(states.len(), 335);
    assert_eq!(states.last().unwrap().time, fx(2100.0));
    // Every interval is the configured step except the clipped last one.
    for i in 0..333 {
        assert_eq!(states[i + 1].time - states[i].time, fx(0.6));
    }
    assert_eq!(states[334].time - states[333].time, fx(0.2));
}

#[test]
fn all_returned_states_stay_in_the_sane_envelope() {
    let states = run_bau();
    for s in &states {
        for stock in s.to_vec() {
            assert!(stock >= 0);
        }
        assert!(s.resources.fraction_remaining >= 0);
        assert!(s.resources.fraction_remaining <= FIX_ONE);
    }
}

#[test]
fn adversarial_depreciation_reports_divergence() {
    let solver = Rk4Solver::new(WorldLookupTables::load());
    let mut params = ScenarioParams::bau();
    // A strongly negative depreciation rate drives capital unbounded.
    params.industrial_depreciation_rate = fx(-0.5);
    let r = solver.solve(initial_conditions_1900(), &params);
    match r {
        Err(SolverError::Diverged { year, variable, value }) => {
            assert!(year > fx(1900.0));
            assert!(year <= fx(2100.0));
            assert_eq!(variable, "industrial_capital");
            assert!(value > 0);
        }
        other => panic!("expected divergence, got {:?}", other.map(|s| s.len())),
    }
}

#[test]
fn zero_time_step_is_rejected() {
    let solver = Rk4Solver::new(WorldLookupTables::load());
    let mut params = ScenarioParams::bau();
    params.time_step = 0;
    let r = solver.solve(initial_conditions_1900(), &params);
    assert!(matches!(r, Err(SolverError::InvalidInitial(_))));
}

#[test]
fn standard_run_matches_reference_checkpoints() {
    let states = run_bau();

    let pop_1900 = val(state_at(&states, 1900.0).population.population);
    assert!((1.0e9..=2.5e9).contains(&pop_1900), "1900 population {pop_1900:e}");

    let pop_1970 = val(state_at(&states, 1970.0).population.population);
    assert!((2.5e9..=5.0e9).contains(&pop_1970), "1970 population {pop_1970:e}");

    let (peak_pop, peak_year) = states
        .iter()
        .map(|s| (s.population.population, s.time))
        .max()
        .unwrap();
    assert!(
        (6.0e9..=1.2e10).contains(&val(peak_pop)),
        "peak population {:e}",
        val(peak_pop)
    );
    assert!(
        (fx(2000.0)..=fx(2070.0)).contains(&peak_year),
        "peak year {}",
        val(peak_year)
    );

    let nnr_2100 = state_at(&states, 2100.0).resources.fraction_remaining;
    assert!(nnr_2100 < fx(0.7), "2100 resource fraction {}", val(nnr_2100));

    let peak_pollution = states.iter().map(|s| s.pollution.pollution_index).max().unwrap();
    assert!(peak_pollution >= fx(0.5), "peak pollution index {}", val(peak_pollution));
}

#[test]
fn technology_and_stabilized_presets_complete() {
    let solver = Rk4Solver::new(WorldLookupTables::load());
    for params in [
        ScenarioParams::comprehensive_technology(),
        ScenarioParams::stabilized_world(),
    ] {
        let states = solver.solve(initial_conditions_1900(), &params).expect("preset must run");
        assert_eq!(states.len(), 201);
    }
}

#[test]
fn initial_conditions_match_the_documented_start() {
    let s = initial_conditions_1900();
    assert_eq!(s.time, fx(1900.0));
    assert_eq!(val(s.population.population), 1.6e9);
    assert_eq!(
        s.population.population,
        s.population.cohort_0_14 + s.population.cohort_15_44 + s.population.cohort_45_64
            + s.population.cohort_65_plus
    );
    assert_eq!(s.resources.nonrenewable_resources, FIX_ONE);
    assert_eq!(val(s.agriculture.arable_land), 0.9e9);
    assert_eq!(s.pollution.persistent_pollution, fx(0.05));
}
