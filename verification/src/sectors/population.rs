//! Population sector.
//!
//! Four age cohorts are tracked.  Births enter the youngest cohort, deaths
//! occur in every cohort with age-differentiated weights, and aging moves
//! people between adjacent cohorts after fixed cohort durations.  Life
//! expectancy is a base constant times four curve multipliers (food, health
//! services, crowding, pollution); fertility is the desired family size
//! scaled by family planning and food availability.

use vstd::prelude::*;
use crate::fixed::{fadd, fclamp, fdiv, fmax, fmul, fsub, fix_add, fix_clamp, fix_div, fix_max,
    fix_mul, fix_sub, FIX_MAX, FIX_ONE};
use crate::lookup::table_at;
use crate::params::ScenarioParams;
use crate::sectors::capital::{spec_pop_floor, POP_REFERENCE};
use crate::state::{PopulationState, WorldState};
use crate::tables::{tables_wf, WorldLookupTables};

verus! {

/// Base life expectancy in years, before the four curve multipliers.
pub const LIFE_EXPECTANCY_BASE: i64 = 200000;

/// Years spent in the youngest cohort.
pub const COHORT_CHILD_DURATION: i64 = 150000;

/// Years spent in the fertile-age cohort.
pub const COHORT_FERTILE_DURATION: i64 = 300000;

/// Years spent in the middle-age cohort.
pub const COHORT_MIDDLE_DURATION: i64 = 200000;

/// The year family-planning programs are measured from.
pub const YEAR_BASE: i64 = 19000000;

/// Rates of change of the four population cohorts.
#[derive(Clone, Copy, Debug, PartialEq, Eq, Structural)]
pub struct PopulationDerivatives {
    pub d_cohort_0_14: i64,
    pub d_cohort_15_44: i64,
    pub d_cohort_45_64: i64,
    pub d_cohort_65_plus: i64,
}

/// Food ratio as the population sector reads it: food per capita over the
/// subsistence threshold, unbounded when no threshold is configured.
pub open spec fn spec_food_ratio_population(s: WorldState, p: ScenarioParams) -> int {
    if p.subsistence_food_per_capita != 0 {
        fdiv(s.agriculture.food_per_capita as int, p.subsistence_food_per_capita as int)
    } else {
        FIX_MAX as int
    }
}

/// Life expectancy before clamping: the base constant times the four curve
/// multipliers for food, health services, crowding, and pollution.
pub open spec fn spec_life_expectancy_raw(s: WorldState, p: ScenarioParams, t: WorldLookupTables) -> int {
    let food = table_at(t.life_exp_multiplier_food, spec_food_ratio_population(s, p));
    let health = table_at(
        t.life_exp_multiplier_health,
        fmul(s.capital.service_output_per_capita as int, p.health_investment_multiplier as int),
    );
    let crowding = table_at(
        t.life_exp_multiplier_crowding,
        fdiv(s.population.population as int, POP_REFERENCE as int),
    );
    let pollution = table_at(t.life_exp_multiplier_pollution, s.pollution.pollution_index as int);
    fmul(fmul(fmul(fmul(LIFE_EXPECTANCY_BASE as int, food), health), crowding), pollution)
}

/// The stored life expectancy: clamped into [5, 85] years.
pub open spec fn spec_life_expectancy(s: WorldState, p: ScenarioParams, t: WorldLookupTables) -> int {
    fclamp(spec_life_expectancy_raw(s, p, t), 50000, 850000)
}

/// Family-planning effectiveness: the configured efficacy ramped in
/// linearly from the base year to the configured program year.
pub open spec fn spec_family_planning(s: WorldState, p: ScenarioParams) -> int {
    let ramp = if p.family_planning_year <= YEAR_BASE {
        FIX_ONE as int
    } else {
        fclamp(
            fdiv(fsub(s.time as int, YEAR_BASE as int), fsub(p.family_planning_year as int, YEAR_BASE as int)),
            0,
            FIX_ONE as int,
        )
    };
    fmul(p.family_planning_efficacy as int, ramp)
}

/// Total fertility rate before clamping: desired family size times the
/// family-planning multiplier times the food-fertility multiplier.
pub open spec fn spec_fertility_raw(s: WorldState, p: ScenarioParams, t: WorldLookupTables) -> int {
    let desired = table_at(t.desired_family_size, s.capital.industrial_output_per_capita as int);
    let planning = table_at(t.family_planning_multiplier, spec_family_planning(s, p));
    let food = table_at(t.food_fertility_multiplier, spec_food_ratio_population(s, p));
    fmul(fmul(desired, planning), food)
}

/// The stored fertility rate: clamped into [0.5, 8].
pub open spec fn spec_fertility(s: WorldState, p: ScenarioParams, t: WorldLookupTables) -> int {
    fclamp(spec_fertility_raw(s, p, t), 5000, 80000)
}

/// Births per year: the fertile female half of the 15 to 44 cohort times
/// the fertility rate, spread over the reproductive period.
pub open spec fn spec_births(s: WorldState, p: ScenarioParams, t: WorldLookupTables) -> int {
    fdiv(
        fmul(fmul(s.population.cohort_15_44 as int, 5000), spec_fertility_raw(s, p, t)),
        COHORT_FERTILE_DURATION as int,
    )
}

/// Base annual mortality: the reciprocal of life expectancy (unclamped,
/// floored at one year).
pub open spec fn spec_base_mortality(s: WorldState, p: ScenarioParams, t: WorldLookupTables) -> int {
    fdiv(FIX_ONE as int, fmax(spec_life_expectancy_raw(s, p, t), FIX_ONE as int))
}

/// Deaths per year in the youngest cohort (weight 0.8).
pub open spec fn spec_deaths_child(s: WorldState, p: ScenarioParams, t: WorldLookupTables) -> int {
    fmul(fmul(s.population.cohort_0_14 as int, spec_base_mortality(s, p, t)), 8000)
}

/// Deaths per year in the fertile-age cohort (weight 0.5).
pub open spec fn spec_deaths_fertile(s: WorldState, p: ScenarioParams, t: WorldLookupTables) -> int {
    fmul(fmul(s.population.cohort_15_44 as int, spec_base_mortality(s, p, t)), 5000)
}

/// Deaths per year in the middle-age cohort (weight 1.0).
pub open spec fn spec_deaths_middle(s: WorldState, p: ScenarioParams, t: WorldLookupTables) -> int {
    fmul(fmul(s.population.cohort_45_64 as int, spec_base_mortality(s, p, t)), 10000)
}

/// Deaths per year in the oldest cohort (weight 3.0).
pub open spec fn spec_deaths_elderly(s: WorldState, p: ScenarioParams, t: WorldLookupTables) -> int {
    fmul(fmul(s.population.cohort_65_plus as int, spec_base_mortality(s, p, t)), 30000)
}

/// Aging flow out of the youngest cohort.
pub open spec fn spec_aging_child(s: WorldState) -> int {
    fdiv(s.population.cohort_0_14 as int, COHORT_CHILD_DURATION as int)
}

/// Aging flow out of the fertile-age cohort.
pub open spec fn spec_aging_fertile(s: WorldState) -> int {
    fdiv(s.population.cohort_15_44 as int, COHORT_FERTILE_DURATION as int)
}

/// Aging flow out of the middle-age cohort.
pub open spec fn spec_aging_middle(s: WorldState) -> int {
    fdiv(s.population.cohort_45_64 as int, COHORT_MIDDLE_DURATION as int)
}

/// Crude birth rate per person.
pub open spec fn spec_birth_rate(s: WorldState, p: ScenarioParams, t: WorldLookupTables) -> int {
    fdiv(spec_births(s, p, t), spec_pop_floor(s))
}

/// Crude death rate per person: all cohort deaths over the population.
pub open spec fn spec_death_rate(s: WorldState, p: ScenarioParams, t: WorldLookupTables) -> int {
    fdiv(
        fadd(
            fadd(
                fadd(spec_deaths_child(s, p, t), spec_deaths_fertile(s, p, t)),
                spec_deaths_middle(s, p, t),
            ),
            spec_deaths_elderly(s, p, t),
        ),
        spec_pop_floor(s),
    )
}

/// The state after the population sector's pass: the four vital-rate
/// auxiliaries change, everything else is carried through.
#[verifier::opaque]
pub open spec fn population_updated(s: WorldState, p: ScenarioParams, t: WorldLookupTables) -> WorldState {
    WorldState {
        population: PopulationState {
            life_expectancy: spec_life_expectancy(s, p, t) as i64,
            fertility_rate: spec_fertility(s, p, t) as i64,
            birth_rate: spec_birth_rate(s, p, t) as i64,
            death_rate: spec_death_rate(s, p, t) as i64,
            ..s.population
        },
        ..s
    }
}

/// Rate of change of the youngest cohort: births in, aging and deaths out.
pub open spec fn spec_d_cohort_child(s: WorldState, p: ScenarioParams, t: WorldLookupTables) -> int {
    fsub(fsub(spec_births(s, p, t), spec_aging_child(s)), spec_deaths_child(s, p, t))
}

/// Rate of change of the fertile-age cohort: aging in, aging and deaths out.
pub open spec fn spec_d_cohort_fertile(s: WorldState, p: ScenarioParams, t: WorldLookupTables) -> int {
    fsub(fsub(spec_aging_child(s), spec_aging_fertile(s)), spec_deaths_fertile(s, p, t))
}

/// Rate of change of the middle-age cohort: aging in, aging and deaths out.
pub open spec fn spec_d_cohort_middle(s: WorldState, p: ScenarioParams, t: WorldLookupTables) -> int {
    fsub(fsub(spec_aging_fertile(s), spec_aging_middle(s)), spec_deaths_middle(s, p, t))
}

/// Rate of change of the oldest cohort: aging in, deaths out.
pub open spec fn spec_d_cohort_elderly(s: WorldState, p: ScenarioParams, t: WorldLookupTables) -> int {
    fsub(spec_aging_middle(s), spec_deaths_elderly(s, p, t))
}

/// Compute the population sector: fill in the vital-rate auxiliaries on
/// `state` and return the four cohort derivatives.
pub fn population_derivatives(
    state: &mut WorldState,
    params: &ScenarioParams,
    tables: &WorldLookupTables,
) -> (r: PopulationDerivatives)
    requires
        tables_wf(*tables),
    ensures
        *final(state) == population_updated(*old(state), *params, *tables),
        r.d_cohort_0_14 as int == spec_d_cohort_child(*old(state), *params, *tables),
        r.d_cohort_15_44 as int == spec_d_cohort_fertile(*old(state), *params, *tables),
        r.d_cohort_45_64 as int == spec_d_cohort_middle(*old(state), *params, *tables),
        r.d_cohort_65_plus as int == spec_d_cohort_elderly(*old(state), *params, *tables),
{
    let pop_floor = fix_max(state.population.population, FIX_ONE);
    proof {
        reveal(population_updated);
    }

    let food_ratio: i64 = if params.subsistence_food_per_capita != 0 {
        fix_div(state.agriculture.food_per_capita, params.subsistence_food_per_capita)
    } else {
        FIX_MAX
    };
    let health_services = fix_mul(
        state.capital.service_output_per_capita,
        params.health_investment_multiplier,
    );
    let crowding = fix_div(state.population.population, POP_REFERENCE);

    let m_food = tables.life_exp_multiplier_food.eval(food_ratio);
    let m_health = tables.life_exp_multiplier_health.eval(health_services);
    let m_crowding = tables.life_exp_multiplier_crowding.eval(crowding);
    let m_pollution = tables.life_exp_multiplier_pollution.eval(state.pollution.pollution_index);

    let life_expectancy = fix_mul(
        fix_mul(fix_mul(fix_mul(LIFE_EXPECTANCY_BASE, m_food), m_health), m_crowding),
        m_pollution,
    );
    state.population.life_expectancy = fix_clamp(life_expectancy, 50000, 850000);

    let desired_family_size = tables.desired_family_size.eval(
        state.capital.industrial_output_per_capita,
    );
    let ramp: i64 = if params.family_planning_year <= YEAR_BASE {
        FIX_ONE
    } else {
        fix_clamp(
            fix_div(fix_sub(state.time, YEAR_BASE), fix_sub(params.family_planning_year, YEAR_BASE)),
            0,
            FIX_ONE,
        )
    };
    let planning_effectiveness = fix_mul(params.family_planning_efficacy, ramp);
    let m_planning = tables.family_planning_multiplier.eval(planning_effectiveness);
    let m_food_fertility = tables.food_fertility_multiplier.eval(food_ratio);

    let fertility = fix_mul(fix_mul(desired_family_size, m_planning), m_food_fertility);
    state.population.fertility_rate = fix_clamp(fertility, 5000, 80000);

    let fertile_women = fix_mul(state.population.cohort_15_44, 5000);
    let births = fix_div(fix_mul(fertile_women, fertility), COHORT_FERTILE_DURATION);
    state.population.birth_rate = fix_div(births, pop_floor);

    let base_mortality = fix_div(FIX_ONE, fix_max(life_expectancy, FIX_ONE));
    let deaths_child = fix_mul(fix_mul(state.population.cohort_0_14, base_mortality), 8000);
    let deaths_fertile = fix_mul(fix_mul(state.population.cohort_15_44, base_mortality), 5000);
    let deaths_middle = fix_mul(fix_mul(state.population.cohort_45_64, base_mortality), 10000);
    let deaths_elderly = fix_mul(fix_mul(state.population.cohort_65_plus, base_mortality), 30000);
    let total_deaths = fix_add(
        fix_add(fix_add(deaths_child, deaths_fertile), deaths_middle),
        deaths_elderly,
    );
    state.population.death_rate = fix_div(total_deaths, pop_floor);

    let aging_child = fix_div(state.population.cohort_0_14, COHORT_CHILD_DURATION);
    let aging_fertile = fix_div(state.population.cohort_15_44, COHORT_FERTILE_DURATION);
    let aging_middle = fix_div(state.population.cohort_45_64, COHORT_MIDDLE_DURATION);

    PopulationDerivatives {
        d_cohort_0_14: fix_sub(fix_sub(births, aging_child), deaths_child),
        d_cohort_15_44: fix_sub(fix_sub(aging_child, aging_fertile), deaths_fertile),
        d_cohort_45_64: fix_sub(fix_sub(aging_fertile, aging_middle), deaths_middle),
        d_cohort_65_plus: fix_sub(aging_middle, deaths_elderly),
    }
}

} // verus!
