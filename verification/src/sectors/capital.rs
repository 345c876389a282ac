//! Industrial and service capital sector.
//!
//! Capital grows through investment (a fraction of industrial output) and
//! declines through depreciation.  As resources deplete, the capital-output
//! ratio rises and a growing fraction of capital is diverted to resource
//! extraction, reducing effective production.  Technology progress raises
//! output per unit of capital exponentially after the reference year.

use vstd::prelude::*;
use crate::fixed::{fadd, fclamp, fdiv, fmax, fmul, fsub, fgrowth, fix_add, fix_clamp, fix_div,
    fix_growth, fix_max, fix_mul, fix_sub, FIX_ONE, SCALE};
use crate::lookup::table_at;
use crate::params::ScenarioParams;
use crate::state::{CapitalState, WorldState};
use crate::tables::{tables_wf, WorldLookupTables};

verus! {

/// Industrial capital-output ratio at the reference year.
pub const ICOR_REFERENCE: i64 = 30000;

/// Service capital-output ratio at the reference year.
pub const SCOR_REFERENCE: i64 = 10000;

/// Reference world population for per-capita normalizations.
pub const POP_REFERENCE: i64 = 36000000000000;

/// The reference year for technology progress and normalizations.
pub const YEAR_REFERENCE: i64 = 19700000;

/// Rates of change of the two capital stocks.
#[derive(Clone, Copy, Debug, PartialEq, Eq, Structural)]
pub struct CapitalDerivatives {
    pub d_industrial_capital: i64,
    pub d_service_capital: i64,
}

/// Population floored at one: the divisor for per-capita quantities.
pub open spec fn spec_pop_floor(s: WorldState) -> int {
    fmax(s.population.population as int, FIX_ONE as int)
}

/// Effective capital-output ratio: the reference ratio scaled by the
/// resource-depletion cost curve.
pub open spec fn spec_icor(s: WorldState, t: WorldLookupTables) -> int {
    fmul(ICOR_REFERENCE as int, table_at(t.capital_output_ratio_resources, s.resources.fraction_remaining as int))
}

/// Technology multiplier: compound growth since the reference year.
pub open spec fn spec_tech_multiplier(s: WorldState, p: ScenarioParams) -> int {
    fgrowth(
        fadd(SCALE as int, p.technology_growth_rate as int),
        fmax(fsub(s.time as int, YEAR_REFERENCE as int), 0),
    )
}

/// Fraction of industrial capital diverted to resource extraction, clamped
/// below 0.95.
pub open spec fn spec_capital_for_resources(s: WorldState, t: WorldLookupTables) -> int {
    fclamp(
        table_at(t.capital_fraction_resource_extraction, s.resources.fraction_remaining as int),
        0,
        9500,
    )
}

/// Industrial output: productive capital over the effective capital-output
/// ratio, floored at zero.
pub open spec fn spec_industrial_output(s: WorldState, p: ScenarioParams, t: WorldLookupTables) -> int {
    let productive = fmul(
        fmul(s.capital.industrial_capital as int, fsub(FIX_ONE as int, spec_capital_for_resources(s, t))),
        spec_tech_multiplier(s, p),
    );
    let icor = spec_icor(s, t);
    if icor != 0 {
        fmax(fdiv(productive, icor), 0)
    } else {
        0
    }
}

/// Industrial output per capita.
pub open spec fn spec_iopc(s: WorldState, p: ScenarioParams, t: WorldLookupTables) -> int {
    fdiv(spec_industrial_output(s, p, t), spec_pop_floor(s))
}

/// Service output per capita: service capital over its output ratio, per
/// person.
pub open spec fn spec_sopc(s: WorldState) -> int {
    fdiv(fmax(fdiv(s.capital.service_capital as int, SCOR_REFERENCE as int), 0), spec_pop_floor(s))
}

/// Food ratio: food per capita over the subsistence threshold, taken as one
/// when no threshold is configured.
pub open spec fn spec_food_ratio(s: WorldState, p: ScenarioParams) -> int {
    if p.subsistence_food_per_capita > 0 {
        fdiv(s.agriculture.food_per_capita as int, p.subsistence_food_per_capita as int)
    } else {
        FIX_ONE as int
    }
}

/// Fraction of industrial output allocated to services, from the service
/// curve keyed on normalized service output.
pub open spec fn spec_frac_to_services(s: WorldState, p: ScenarioParams, t: WorldLookupTables) -> int {
    let denom = fmax(fdiv(spec_industrial_output(s, p, t), POP_REFERENCE as int), 1);
    table_at(t.industrial_fraction_to_services, fdiv(spec_sopc(s), denom))
}

/// Industrial capital rate of change: investment minus depreciation.
pub open spec fn spec_d_industrial(s: WorldState, p: ScenarioParams, t: WorldLookupTables) -> int {
    fsub(
        fmul(spec_industrial_output(s, p, t), p.investment_rate as int),
        fmul(s.capital.industrial_capital as int, p.industrial_depreciation_rate as int),
    )
}

/// Service capital rate of change: the service share of industrial output
/// minus depreciation.
pub open spec fn spec_d_service(s: WorldState, p: ScenarioParams, t: WorldLookupTables) -> int {
    fsub(
        fmul(spec_industrial_output(s, p, t), spec_frac_to_services(s, p, t)),
        fmul(s.capital.service_capital as int, p.service_depreciation_rate as int),
    )
}

/// The state after the capital sector's pass: the three output auxiliaries
/// change, everything else is carried through.
#[verifier::opaque]
pub open spec fn capital_updated(s: WorldState, p: ScenarioParams, t: WorldLookupTables) -> WorldState {
    WorldState {
        capital: CapitalState {
            industrial_output: spec_industrial_output(s, p, t) as i64,
            industrial_output_per_capita: spec_iopc(s, p, t) as i64,
            service_output_per_capita: spec_sopc(s) as i64,
            ..s.capital
        },
        ..s
    }
}

/// Compute the capital sector: fill in the output auxiliaries on `state`
/// and return the two capital stock derivatives.
pub fn capital_derivatives(
    state: &mut WorldState,
    params: &ScenarioParams,
    tables: &WorldLookupTables,
) -> (r: CapitalDerivatives)
    requires
        tables_wf(*tables),
    ensures
        *final(state) == capital_updated(*old(state), *params, *tables),
        r.d_industrial_capital as int == spec_d_industrial(*old(state), *params, *tables),
        r.d_service_capital as int == spec_d_service(*old(state), *params, *tables),
{
    let pop_floor = fix_max(state.population.population, FIX_ONE);
    proof {
        reveal(capital_updated);
    }

    let cor_multiplier = tables.capital_output_ratio_resources.eval(state.resources.fraction_remaining);
    let icor = fix_mul(ICOR_REFERENCE, cor_multiplier);

    let tech_years = fix_max(fix_sub(state.time, YEAR_REFERENCE), 0);
    let tech_multiplier = fix_growth(fix_add(SCALE, params.technology_growth_rate), tech_years);

    let capital_for_resources = fix_clamp(
        tables.capital_fraction_resource_extraction.eval(state.resources.fraction_remaining),
        0,
        9500,
    );

    let productive_capital = fix_mul(
        fix_mul(state.capital.industrial_capital, fix_sub(FIX_ONE, capital_for_resources)),
        tech_multiplier,
    );
    let industrial_output: i64 = if icor != 0 {
        fix_max(fix_div(productive_capital, icor), 0)
    } else {
        0
    };
    state.capital.industrial_output = industrial_output;

    let iopc = fix_div(industrial_output, pop_floor);
    state.capital.industrial_output_per_capita = iopc;

    let service_output = fix_max(fix_div(state.capital.service_capital, SCOR_REFERENCE), 0);
    let sopc = fix_div(service_output, pop_floor);
    state.capital.service_output_per_capita = sopc;

    let denom = fix_max(fix_div(industrial_output, POP_REFERENCE), 1);
    let spc_normalized = fix_div(sopc, denom);
    let frac_to_services = tables.industrial_fraction_to_services.eval(spc_normalized);

    let investment = fix_mul(industrial_output, params.investment_rate);
    let depreciation_i = fix_mul(state.capital.industrial_capital, params.industrial_depreciation_rate);
    let d_industrial = fix_sub(investment, depreciation_i);

    let service_investment = fix_mul(industrial_output, frac_to_services);
    let depreciation_s = fix_mul(state.capital.service_capital, params.service_depreciation_rate);
    let d_service = fix_sub(service_investment, depreciation_s);

    CapitalDerivatives { d_industrial_capital: d_industrial, d_service_capital: d_service }
}

} // verus!
