//! Tests for scenario configuration, presets, the parameter schema,
//! identifiers, run records, and series extraction.

use world3::fixed::SCALE;
use world3::output::extract_field;
use world3::params::{format_hex16, parameter_descriptors, uuid_v4};
use world3::scenario::{initial_conditions_1900, Scenario, ScenarioSummary};
use world3::{Rk4Solver, ScenarioParams, SimulationOutput, WorldLookupTables};

fn fx(v: f64) -> i64 {
    (v * SCALE as f64).round() as i64
}

#[test]
fn default_parameters_match_documentation() {
    let p = ScenarioParams::default();
    assert_eq!(p.family_planning_year, fx(2000.0));
    assert_eq!(p.family_planning_efficacy, fx(0.75));
    assert_eq!(p.industrial_depreciation_rate, fx(0.05));
    assert_eq!(p.technology_growth_rate, fx(0.002));
    assert_eq!(p.investment_rate, fx(0.12));
    assert_eq!(p.subsistence_food_per_capita, fx(230.0));
    assert_eq!(p.start_year, fx(1900.0));
    assert_eq!(p.end_year, fx(2100.0));
    assert_eq!(p.time_step, fx(1.0));
}

#[test]
fn presets_differ_in_their_policies() {
    let bau = ScenarioParams::bau();
    assert_eq!(bau.meta.name, "Business as Usual");
    assert_eq!(bau.family_planning_efficacy, 0);

    let tech = ScenarioParams::comprehensive_technology();
    assert_eq!(tech.meta.name, "Comprehensive Technology");
    assert_eq!(tech.resource_efficiency, fx(4.0));
    assert_eq!(tech.pollution_control, fx(0.8));
    assert_eq!(tech.technology_growth_rate, fx(0.02));

    let stable = ScenarioParams::stabilized_world();
    assert_eq!(stable.meta.name, "Stabilized World");
    assert_eq!(stable.family_planning_efficacy, fx(0.95));
    assert_eq!(stable.family_planning_year, fx(1975.0));
    assert_eq!(stable.land_protection_fraction, fx(0.3));
}

#[test]
fn parameter_schema_lists_every_lever() {
    let d = parameter_descriptors();
    assert_eq!(d.len(), 10);
    assert_eq!(d[0].field, "family_planning_year");
    assert_eq!(d[0].min, fx(1950.0));
    assert_eq!(d[0].max, fx(2100.0));
    assert_eq!(d[0].default, fx(2000.0));
    assert_eq!(d[8].field, "resource_efficiency");
    assert_eq!(d[8].max, fx(5.0));
    for desc in &d {
        assert!(desc.min <= desc.default);
        assert!(desc.default <= desc.max);
        assert!(desc.step > 0);
    }
}

#[test]
fn hex_formatting_is_exact() {
    assert_eq!(format_hex16(0), "0000000000000000");
    assert_eq!(format_hex16(81985529216486895), "0123456789abcdef");
    assert_eq!(format_hex16(u64::MAX), "ffffffffffffffff");
}

#[test]
fn identifiers_are_sixteen_hex_digits() {
    let id = uuid_v4();
    assert_eq!(id.len(), 16);
    assert!(id.chars().all(|c| c.is_ascii_hexdigit() && !c.is_ascii_uppercase()));
}

#[test]
fn scenario_meta_default_is_unnamed() {
    let m = world3::ScenarioMeta::default();
    assert_eq!(m.name, "Unnamed Scenario");
    assert_eq!(m.description, "");
    assert_eq!(m.color_hex, "#888888");
    assert_eq!(m.id.len(), 16);
}

#[test]
fn scenario_summary_carries_metadata() {
    let mut params = ScenarioParams::bau();
    params.meta.description = "the standard run".to_string();
    let scenario = Scenario { params, is_preset: true, last_output: None };
    let summary = ScenarioSummary::from(&scenario);
    assert_eq!(summary.name, "Business as Usual");
    assert_eq!(summary.description, "the standard run");
    assert_eq!(summary.color_hex, "#e63946");
    assert_eq!(summary.id, scenario.params.meta.id);
    assert!(summary.is_preset);
}

fn small_run() -> SimulationOutput {
    let solver = Rk4Solver::new(WorldLookupTables::load());
    let mut params = ScenarioParams::bau();
    params.end_year = fx(1910.0);
    let states = solver.solve(initial_conditions_1900(), &params).expect("short run");
    SimulationOutput::new(states, params)
}

#[test]
fn simulation_output_records_the_run() {
    let sim = small_run();
    assert_eq!(sim.timeline.len(), sim.states.len());
    assert_eq!(sim.timeline.len(), 11);
    for (t, s) in sim.timeline.iter().zip(sim.states.iter()) {
        assert_eq!(*t, s.time);
    }
    assert_eq!(sim.scenario_id, sim.params.meta.id);
    assert_eq!(sim.scenario_name, "Business as Usual");
}

#[test]
fn state_at_year_returns_the_closest_sample() {
    let sim = small_run();
    assert_eq!(sim.state_at_year(fx(1905.0)).unwrap().time, fx(1905.0));
    assert_eq!(sim.state_at_year(fx(1800.0)).unwrap().time, fx(1900.0));
    assert_eq!(sim.state_at_year(fx(2000.0)).unwrap().time, fx(1910.0));
    // A query midway rounds to the earlier sample on ties.
    assert_eq!(sim.state_at_year(fx(1904.5)).unwrap().time, fx(1904.0));

    let empty = SimulationOutput::new(Vec::new(), ScenarioParams::bau());
    assert!(empty.state_at_year(fx(1900.0)).is_none());
}

#[test]
fn extract_series_reads_named_fields() {
    let sim = small_run();
    let pop = sim.extract_series("population.population");
    assert_eq!(pop.len(), 11);
    assert_eq!(pop[0], sim.states[0].population.population);
    assert_eq!(pop[10], sim.states[10].population.population);

    let nnr = sim.extract_series("resources.fraction_remaining");
    assert_eq!(nnr[0], fx(1.0));

    let unknown = sim.extract_series("no.such_field");
    assert!(unknown.iter().all(|v| *v == 0));
}

#[test]
fn extract_field_distinguishes_fields() {
    let s = initial_conditions_1900();
    assert_eq!(extract_field(&s, "population.population"), Some(s.population.population));
    assert_eq!(
        extract_field(&s, "capital.service_capital"),
        Some(s.capital.service_capital)
    );
    assert_ne!(
        extract_field(&s, "capital.service_capital"),
        extract_field(&s, "capital.industrial_capital")
    );
    assert_eq!(extract_field(&s, "capital.nonsense"), None);
}
