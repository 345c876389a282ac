//! Named scenarios: a parameter set with its latest run, the lightweight
//! summary used in listings, and the standard initial conditions.

use vstd::prelude::*;
use crate::output::SimulationOutput;
use crate::params::ScenarioParams;
use crate::state::{AgricultureState, CapitalState, PollutionState, PopulationState,
    ResourceState, WorldState};

verus! {

/// The standard initial conditions at the start year: a young population,
/// early industrial capital, an undeveloped land reserve, the full resource
/// endowment, and near-zero pollution.
pub open spec fn initial_state_1900() -> WorldState {
    WorldState {
        time: 19000000,
        population: PopulationState {
            population: 16000000000000,
            cohort_0_14: 6000000000000,
            cohort_15_44: 6500000000000,
            cohort_45_64: 2700000000000,
            cohort_65_plus: 800000000000,
            birth_rate: 0,
            death_rate: 0,
            life_expectancy: 0,
            fertility_rate: 0,
        },
        capital: CapitalState {
            industrial_capital: 2000000000000000,
            service_capital: 3200000000000000,
            industrial_output: 0,
            industrial_output_per_capita: 0,
            service_output_per_capita: 0,
        },
        agriculture: AgricultureState {
            arable_land: 9000000000000,
            potentially_arable_land: 23000000000000,
            food: 0,
            food_per_capita: 4000000,
            land_yield: 0,
            agricultural_inputs_per_hectare: 0,
        },
        resources: ResourceState { nonrenewable_resources: 10000, fraction_remaining: 10000 },
        pollution: PollutionState {
            persistent_pollution: 500,
            pollution_index: 500,
            generation_rate: 0,
            assimilation_rate: 0,
        },
    }
}

/// Build the standard initial conditions for the start year.
pub fn initial_conditions_1900() -> (r: WorldState)
    ensures
        r == initial_state_1900(),
{
    WorldState {
        time: 19000000,
        population: PopulationState {
            population: 16000000000000,
            cohort_0_14: 6000000000000,
            cohort_15_44: 6500000000000,
            cohort_45_64: 2700000000000,
            cohort_65_plus: 800000000000,
            birth_rate: 0,
            death_rate: 0,
            life_expectancy: 0,
            fertility_rate: 0,
        },
        capital: CapitalState {
            industrial_capital: 2000000000000000,
            service_capital: 3200000000000000,
            industrial_output: 0,
            industrial_output_per_capita: 0,
            service_output_per_capita: 0,
        },
        agriculture: AgricultureState {
            arable_land: 9000000000000,
            potentially_arable_land: 23000000000000,
            food: 0,
            food_per_capita: 4000000,
            land_yield: 0,
            agricultural_inputs_per_hectare: 0,
        },
        resources: ResourceState { nonrenewable_resources: 10000, fraction_remaining: 10000 },
        pollution: PollutionState {
            persistent_pollution: 500,
            pollution_index: 500,
            generation_rate: 0,
            assimilation_rate: 0,
        },
    }
}

/// A stored scenario: its parameters, whether it is a built-in preset, and
/// its most recent run, if any.
#[derive(Clone, Debug)]
pub struct Scenario {
    pub params: ScenarioParams,
    pub is_preset: bool,
    pub last_output: Option<SimulationOutput>,
}

/// Lightweight scenario summary for listings.
#[derive(Clone, Debug)]
pub struct ScenarioSummary {
    pub id: String,
    pub name: String,
    pub description: String,
    pub color_hex: String,
    pub is_preset: bool,
}

impl From<&Scenario> for ScenarioSummary {
    /// The summary carries the scenario's metadata and preset flag.
    fn from(s: &Scenario) -> (r: ScenarioSummary) {
        ScenarioSummary {
            id: s.params.meta.id.clone(),
            name: s.params.meta.name.clone(),
            description: s.params.meta.description.clone(),
            color_hex: s.params.meta.color_hex.clone(),
            is_preset: s.is_preset,
        }
    }
}

impl vstd::std_specs::convert::FromSpecImpl<&Scenario> for ScenarioSummary {
    open spec fn obeys_from_spec() -> bool {
        true
    }

    open spec fn from_spec(s: &Scenario) -> ScenarioSummary {
        ScenarioSummary {
            id: s.params.meta.id,
            name: s.params.meta.name,
            description: s.params.meta.description,
            color_hex: s.params.meta.color_hex,
            is_preset: s.is_preset,
        }
    }
}

} // verus!
