//! Tests for the fixed-point arithmetic core and the derivative
//! aggregator's rate-state shape.

use world3::derivatives::derivatives;
use world3::fixed::{fix_add, fix_div, fix_growth, fix_mul, fix_sub, FIX_MAX, SCALE};
use world3::scenario::initial_conditions_1900;
use world3::{ScenarioParams, WorldLookupTables};

#[test]
fn multiplication_truncates_toward_zero() {
    assert_eq!(fix_mul(2 * SCALE, 5000), SCALE);
    assert_eq!(fix_mul(-15000, 5000), -7500);
    assert_eq!(fix_mul(10020, 10020), 10040);
    assert_eq!(fix_mul(-10020, 10020), -10040);
}

#[test]
fn division_truncates_toward_zero() {
    assert_eq!(fix_div(SCALE, 3 * SCALE), 3333);
    assert_eq!(fix_div(-SCALE, 3 * SCALE), -3333);
    assert_eq!(fix_div(SCALE, -3 * SCALE), -3333);
}

#[test]
fn addition_saturates_at_the_bound() {
    assert_eq!(fix_add(FIX_MAX, 1), FIX_MAX);
    assert_eq!(fix_add(FIX_MAX, FIX_MAX), FIX_MAX);
    assert_eq!(fix_sub(-FIX_MAX, 5), -FIX_MAX);
    assert_eq!(fix_add(3, 4), 7);
}

#[test]
fn compound_growth_blends_fractional_years() {
    let base = SCALE + 20;
    // Zero years: the multiplier is one.
    assert_eq!(fix_growth(base, 0), SCALE);
    // Two whole years of 0.2 percent growth, truncated per factor.
    assert_eq!(fix_growth(base, 2 * SCALE), 10040);
    // Half a year blends linearly: half the per-year rate.
    assert_eq!(fix_growth(base, SCALE / 2), 10010);
}

#[test]
fn saturated_stocks_stay_at_the_bound() {
    let a = initial_conditions_1900();
    let mut b = initial_conditions_1900();
    b.capital.industrial_capital = FIX_MAX;
    let sum = a.add_stocks(&b);
    assert_eq!(sum.capital.industrial_capital, FIX_MAX);
}

#[test]
fn rate_state_carries_only_stock_derivatives() {
    let tables = WorldLookupTables::load();
    let params = ScenarioParams::bau();
    let s = initial_conditions_1900();
    let d = derivatives(&s, &params, &tables);
    // The rate state keeps the evaluation time and zeroes every auxiliary.
    assert_eq!(d.time, s.time);
    assert_eq!(d.population.population, 0);
    assert_eq!(d.population.birth_rate, 0);
    assert_eq!(d.capital.industrial_output, 0);
    assert_eq!(d.agriculture.food_per_capita, 0);
    assert_eq!(d.resources.fraction_remaining, 0);
    assert_eq!(d.pollution.pollution_index, 0);
    // Resources are never replenished.
    assert!(d.resources.nonrenewable_resources <= 0);
    // Early capital growth is positive under the standard configuration.
    assert!(d.capital.industrial_capital > 0);
}
