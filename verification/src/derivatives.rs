//! The derivative aggregator: one full evaluation of the coupled system.
//!
//! The five sector functions run in their fixed order on an internal working
//! copy — resources, capital, agriculture, pollution, population — because
//! each later sector consumes auxiliary values an earlier one wrote in the
//! same evaluation.  The working copy's auxiliaries are then discarded: the
//! returned state carries only the ten stock derivatives, with every other
//! field zero.

use vstd::prelude::*;
use crate::params::ScenarioParams;
use crate::sectors::agriculture::{agriculture_derivatives, agriculture_updated,
    spec_land_development_rate, spec_land_erosion_rate};
use crate::sectors::capital::{capital_derivatives, capital_updated, spec_d_industrial,
    spec_d_service};
use crate::sectors::pollution::{pollution_derivative, pollution_updated, spec_pollution_derivative};
use crate::sectors::population::{population_derivatives, population_updated, spec_d_cohort_child,
    spec_d_cohort_elderly, spec_d_cohort_fertile, spec_d_cohort_middle};
use crate::sectors::resources::{compute_resource_auxiliaries, resources_updated,
    spec_resource_derivative};
use crate::fixed::fsub;
use crate::state::{zero_agriculture, zero_capital, zero_pollution, zero_population,
    zero_resources, zero_state, AgricultureState, CapitalState, PollutionState, PopulationState,
    ResourceState, WorldState};
use crate::tables::{tables_wf, WorldLookupTables};

verus! {

/// The working state after the resource sector's auxiliary pass.
pub open spec fn work_resources(s: WorldState) -> WorldState {
    resources_updated(s)
}

/// The working state after the capital sector's pass.
pub open spec fn work_capital(s: WorldState, p: ScenarioParams, t: WorldLookupTables) -> WorldState {
    capital_updated(work_resources(s), p, t)
}

/// The working state after the agriculture sector's pass.
pub open spec fn work_agriculture(s: WorldState, p: ScenarioParams, t: WorldLookupTables) -> WorldState {
    agriculture_updated(work_capital(s, p, t), p, t)
}

/// The working state after the pollution sector's pass.
pub open spec fn work_pollution(s: WorldState, p: ScenarioParams, t: WorldLookupTables) -> WorldState {
    pollution_updated(work_agriculture(s, p, t), p, t)
}

/// The working state after all five sector passes.
pub open spec fn work_population(s: WorldState, p: ScenarioParams, t: WorldLookupTables) -> WorldState {
    population_updated(work_pollution(s, p, t), p, t)
}

/// The rate state for one evaluation at `s`: the ten stock fields hold the
/// sector derivatives, each computed on the working state its sector saw;
/// every auxiliary field is zero and carries no rate meaning.
#[verifier::opaque]
pub open spec fn spec_derivatives(s: WorldState, p: ScenarioParams, t: WorldLookupTables) -> WorldState {
    let w1 = work_resources(s);
    let w2 = work_capital(s, p, t);
    let w3 = work_agriculture(s, p, t);
    let w4 = work_pollution(s, p, t);
    WorldState {
        population: PopulationState {
            cohort_0_14: spec_d_cohort_child(w4, p, t) as i64,
            cohort_15_44: spec_d_cohort_fertile(w4, p, t) as i64,
            cohort_45_64: spec_d_cohort_middle(w4, p, t) as i64,
            cohort_65_plus: spec_d_cohort_elderly(w4, p, t) as i64,
            ..zero_population()
        },
        capital: CapitalState {
            industrial_capital: spec_d_industrial(w1, p, t) as i64,
            service_capital: spec_d_service(w1, p, t) as i64,
            ..zero_capital()
        },
        agriculture: AgricultureState {
            arable_land: fsub(
                spec_land_development_rate(w2, p, t),
                spec_land_erosion_rate(w2, p, t),
            ) as i64,
            potentially_arable_land: (-spec_land_development_rate(w2, p, t)) as i64,
            ..zero_agriculture()
        },
        resources: ResourceState {
            nonrenewable_resources: spec_resource_derivative(w1, p) as i64,
            ..zero_resources()
        },
        pollution: PollutionState {
            persistent_pollution: spec_pollution_derivative(w3, p, t) as i64,
            ..zero_pollution()
        },
        ..zero_state(s.time)
    }
}

/// Compute the full derivative vector for the state `s`: runs the five
/// sectors in their fixed order on a working copy, then returns a rate
/// state holding only the ten stock derivatives.
pub fn derivatives(
    state: &WorldState,
    params: &ScenarioParams,
    tables: &WorldLookupTables,
) -> (d: WorldState)
    requires
        tables_wf(*tables),
    ensures
        d == spec_derivatives(*state, *params, *tables),
{
    let mut s = *state;
    proof {
        reveal(spec_derivatives);
    }

    compute_resource_auxiliaries(&mut s, tables);
    let d_nnr = crate::sectors::resources::resource_derivative(&s, params, tables);

    let cap = capital_derivatives(&mut s, params, tables);
    let agr = agriculture_derivatives(&mut s, params, tables);
    let d_pollution = pollution_derivative(&mut s, params, tables);
    let pop = population_derivatives(&mut s, params, tables);

    let mut d = WorldState::zero_derivative(state.time);
    d.population.cohort_0_14 = pop.d_cohort_0_14;
    d.population.cohort_15_44 = pop.d_cohort_15_44;
    d.population.cohort_45_64 = pop.d_cohort_45_64;
    d.population.cohort_65_plus = pop.d_cohort_65_plus;
    d.capital.industrial_capital = cap.d_industrial_capital;
    d.capital.service_capital = cap.d_service_capital;
    d.agriculture.arable_land = agr.d_arable_land;
    d.agriculture.potentially_arable_land = agr.d_potentially_arable_land;
    d.resources.nonrenewable_resources = d_nnr;
    d.pollution.persistent_pollution = d_pollution;
    d
}

} // verus!
