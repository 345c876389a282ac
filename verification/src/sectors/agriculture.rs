//! Agricultural sector.
//!
//! Food production is arable land times yield per hectare; yield is a base
//! constant scaled by a capital-input response curve, a pollution response
//! curve, and the configured technology multiplier.  Arable land grows as
//! new land is developed from the potentially-arable reserve (gated by a
//! development-cost curve and a fixed development lag) and shrinks through
//! erosion driven by yield pressure, reduced by the configured protection
//! fraction.

use vstd::prelude::*;
use crate::fixed::{fclamp, fdiv, fmax, fmin, fmul, fratio, fsub, fix_clamp, fix_div, fix_max,
    fix_min, fix_mul, fix_ratio, fix_sub, FIX_MAX, FIX_ONE};
use crate::lookup::table_at;
use crate::params::ScenarioParams;
use crate::sectors::capital::{spec_food_ratio, spec_pop_floor};
use crate::state::{AgricultureState, WorldState};
use crate::tables::{tables_wf, WorldLookupTables};

verus! {

/// Base land yield at the start of the calibration period.
pub const LAND_YIELD_BASE: i64 = 6000000;

/// Total potential arable land area, hectares.
pub const TOTAL_POTENTIAL_ARABLE: i64 = 32000000000000;

/// Land development time: years between investment and availability.
pub const LAND_DEVELOPMENT_TIME: i64 = 100000;

/// Normal land erosion fraction per year.
pub const LAND_EROSION_RATE: i64 = 20;

/// Rates of change of the two land stocks.
#[derive(Clone, Copy, Debug, PartialEq, Eq, Structural)]
pub struct AgricultureDerivatives {
    pub d_arable_land: i64,
    pub d_potentially_arable_land: i64,
}

/// Arable land floored at one hectare: the divisor for per-hectare inputs.
pub open spec fn spec_arable_floor(s: WorldState) -> int {
    fmax(s.agriculture.arable_land as int, FIX_ONE as int)
}

/// Agricultural inputs per hectare: the agriculture share of industrial
/// output, spread over the arable land.
pub open spec fn spec_inputs_per_hectare(s: WorldState, p: ScenarioParams, t: WorldLookupTables) -> int {
    fdiv(
        fmul(
            s.capital.industrial_output as int,
            table_at(t.industrial_fraction_to_agriculture, spec_food_ratio(s, p)),
        ),
        spec_arable_floor(s),
    )
}

/// Land yield: the base yield scaled by the capital-input curve, the
/// pollution curve, and the configured technology multiplier.
pub open spec fn spec_land_yield(s: WorldState, p: ScenarioParams, t: WorldLookupTables) -> int {
    fmul(
        fmul(
            fmul(LAND_YIELD_BASE as int, table_at(t.land_yield_multiplier_capital, spec_inputs_per_hectare(s, p, t))),
            table_at(t.land_yield_multiplier_pollution, s.pollution.pollution_index as int),
        ),
        p.agricultural_technology as int,
    )
}

/// Annual food production: arable land times yield.
pub open spec fn spec_food(s: WorldState, p: ScenarioParams, t: WorldLookupTables) -> int {
    fmul(spec_arable_floor(s), spec_land_yield(s, p, t))
}

/// Food per capita.
pub open spec fn spec_food_per_capita(s: WorldState, p: ScenarioParams, t: WorldLookupTables) -> int {
    fdiv(spec_food(s, p, t), spec_pop_floor(s))
}

/// Rate at which new arable land is developed from the reserve: desired
/// development spending over the rising development cost, spread across the
/// development lag, and never more than the reserve can supply.
pub open spec fn spec_land_development_rate(s: WorldState, p: ScenarioParams, t: WorldLookupTables) -> int {
    let reserve = fmax(s.agriculture.potentially_arable_land as int, 0);
    let fraction_developed = fclamp(
        fsub(FIX_ONE as int, fdiv(reserve, TOTAL_POTENTIAL_ARABLE as int)),
        0,
        FIX_ONE as int,
    );
    let cost = fmax(table_at(t.land_development_cost, fraction_developed), FIX_ONE as int);
    let spending = fratio(
        fmul(
            s.capital.industrial_output as int,
            table_at(t.industrial_fraction_to_agriculture, spec_food_ratio(s, p)),
        ),
        1,
        10,
    );
    let desired = fdiv(spending, cost);
    fmin(fdiv(desired, LAND_DEVELOPMENT_TIME as int), fdiv(reserve, LAND_DEVELOPMENT_TIME as int))
}

/// Rate at which arable land erodes: the erosion curve keyed on yield
/// pressure, scaled by the normal erosion fraction and reduced by the
/// protected fraction.
pub open spec fn spec_land_erosion_rate(s: WorldState, p: ScenarioParams, t: WorldLookupTables) -> int {
    let yield_ratio = fdiv(spec_land_yield(s, p, t), LAND_YIELD_BASE as int);
    let protected = fclamp(p.land_protection_fraction as int, 0, 5000);
    fmul(
        fmul(fmul(spec_arable_floor(s), LAND_EROSION_RATE as int), table_at(t.land_erosion_multiplier, yield_ratio)),
        fsub(FIX_ONE as int, protected),
    )
}

/// The state after the agriculture sector's pass: the four food and input
/// auxiliaries change, everything else is carried through.
#[verifier::opaque]
pub open spec fn agriculture_updated(s: WorldState, p: ScenarioParams, t: WorldLookupTables) -> WorldState {
    WorldState {
        agriculture: AgricultureState {
            food: spec_food(s, p, t) as i64,
            food_per_capita: spec_food_per_capita(s, p, t) as i64,
            land_yield: spec_land_yield(s, p, t) as i64,
            agricultural_inputs_per_hectare: spec_inputs_per_hectare(s, p, t) as i64,
            ..s.agriculture
        },
        ..s
    }
}

/// Compute the agriculture sector: fill in the food auxiliaries on `state`
/// and return the two land stock derivatives.
pub fn agriculture_derivatives(
    state: &mut WorldState,
    params: &ScenarioParams,
    tables: &WorldLookupTables,
) -> (r: AgricultureDerivatives)
    requires
        tables_wf(*tables),
    ensures
        *final(state) == agriculture_updated(*old(state), *params, *tables),
        r.d_arable_land as int == fsub(
            spec_land_development_rate(*old(state), *params, *tables),
            spec_land_erosion_rate(*old(state), *params, *tables),
        ),
        r.d_potentially_arable_land as int == -spec_land_development_rate(
            *old(state),
            *params,
            *tables,
        ),
{
    let pop_floor = fix_max(state.population.population, FIX_ONE);
    proof {
        reveal(agriculture_updated);
    }

    let food_ratio: i64 = if params.subsistence_food_per_capita > 0 {
        fix_div(state.agriculture.food_per_capita, params.subsistence_food_per_capita)
    } else {
        FIX_ONE
    };
    let frac_to_agriculture = tables.industrial_fraction_to_agriculture.eval(food_ratio);
    let agriculture_output = fix_mul(state.capital.industrial_output, frac_to_agriculture);

    let arable = fix_max(state.agriculture.arable_land, FIX_ONE);
    let inputs_per_hectare = fix_div(agriculture_output, arable);
    state.agriculture.agricultural_inputs_per_hectare = inputs_per_hectare;

    let yield_multiplier_capital = tables.land_yield_multiplier_capital.eval(inputs_per_hectare);
    let yield_multiplier_pollution = tables.land_yield_multiplier_pollution.eval(
        state.pollution.pollution_index,
    );
    let land_yield = fix_mul(
        fix_mul(fix_mul(LAND_YIELD_BASE, yield_multiplier_capital), yield_multiplier_pollution),
        params.agricultural_technology,
    );
    state.agriculture.land_yield = land_yield;

    let food = fix_mul(arable, land_yield);
    state.agriculture.food = food;
    state.agriculture.food_per_capita = fix_div(food, pop_floor);

    let reserve = fix_max(state.agriculture.potentially_arable_land, 0);
    let fraction_developed = fix_clamp(
        fix_sub(FIX_ONE, fix_div(reserve, TOTAL_POTENTIAL_ARABLE)),
        0,
        FIX_ONE,
    );
    let development_cost = fix_max(tables.land_development_cost.eval(fraction_developed), FIX_ONE);
    let development_spending = fix_ratio(agriculture_output, 1, 10);
    let development_desired = fix_div(development_spending, development_cost);
    let land_development_rate = fix_min(
        fix_div(development_desired, LAND_DEVELOPMENT_TIME),
        fix_div(reserve, LAND_DEVELOPMENT_TIME),
    );

    let yield_ratio = fix_div(land_yield, LAND_YIELD_BASE);
    let erosion_multiplier = tables.land_erosion_multiplier.eval(yield_ratio);
    let protected = fix_clamp(params.land_protection_fraction, 0, 5000);
    let erosion_rate = fix_mul(
        fix_mul(fix_mul(arable, LAND_EROSION_RATE), erosion_multiplier),
        fix_sub(FIX_ONE, protected),
    );

    proof {
        assert(land_development_rate > -(FIX_MAX as int));
    }
    AgricultureDerivatives {
        d_arable_land: fix_sub(land_development_rate, erosion_rate),
        d_potentially_arable_land: -land_development_rate,
    }
}

} // verus!
