//! Non-renewable resource sector.
//!
//! Resources are depleted by industrial activity: per-capita resource demand
//! scales with industrial output per capita, so extraction is the product of
//! population and per-capita output times a depletion coefficient, divided
//! by the configured extraction efficiency.  The derivative is never
//! positive.  The fraction-remaining auxiliary feeds the capital sector's
//! cost multipliers and must be computed first in every evaluation.

use vstd::prelude::*;
use crate::fixed::{fclamp, fdiv, fmax, fmul, fratio, fix_clamp, fix_div, fix_max, fix_mul,
    fix_ratio, FIX_MAX, FIX_ONE};
use crate::params::ScenarioParams;
use crate::state::{ResourceState, WorldState};
use crate::tables::WorldLookupTables;

verus! {

/// Numerator of the resource depletion coefficient.
pub const RESOURCE_DEPLETION_NUM: u32 = 3;

/// Denominator of the resource depletion coefficient: the coefficient is
/// `3 / 10^15` resource units per person per output unit per year.
pub const RESOURCE_DEPLETION_DEN: u64 = 1000000000000000;

/// The stock clamped into [0, 1]: the fraction of resources remaining.
pub open spec fn spec_fraction_remaining(s: WorldState) -> int {
    fclamp(s.resources.nonrenewable_resources as int, 0, FIX_ONE as int)
}

/// The state after the resource sector's auxiliary pass: only
/// `fraction_remaining` changes.
#[verifier::opaque]
pub open spec fn resources_updated(s: WorldState) -> WorldState {
    WorldState {
        resources: ResourceState {
            fraction_remaining: spec_fraction_remaining(s) as i64,
            ..s.resources
        },
        ..s
    }
}

/// Rate of change of the resource stock: minus the extraction rate
/// `population * output-per-capita * coefficient / efficiency`.  Zero when
/// there is no population; unbounded extraction when the configured
/// efficiency is zero.
pub open spec fn spec_resource_derivative(s: WorldState, p: ScenarioParams) -> int {
    if s.population.population <= 0 {
        0
    } else {
        let iopc = fmax(s.capital.industrial_output_per_capita as int, 0);
        let demand = fmul(s.population.population as int, iopc);
        let scaled = fratio(demand, RESOURCE_DEPLETION_NUM as int, RESOURCE_DEPLETION_DEN as int);
        let extraction = if p.resource_efficiency != 0 {
            fdiv(scaled, p.resource_efficiency as int)
        } else {
            FIX_MAX as int
        };
        -extraction
    }
}

/// Update `fraction_remaining` from the stock; must run before the capital
/// sector reads the cost multipliers.
pub fn compute_resource_auxiliaries(state: &mut WorldState, _tables: &WorldLookupTables)
    ensures
        *final(state) == resources_updated(*old(state)),
{
    proof {
        reveal(resources_updated);
    }
    state.resources.fraction_remaining = fix_clamp(state.resources.nonrenewable_resources, 0, FIX_ONE);
}

/// Rate of change of non-renewable resources; non-positive whenever the
/// configured extraction efficiency is positive.
pub fn resource_derivative(
    state: &WorldState,
    params: &ScenarioParams,
    _tables: &WorldLookupTables,
) -> (r: i64)
    ensures
        r as int == spec_resource_derivative(*state, *params),
        params.resource_efficiency > 0 ==> r <= 0,
{
    if state.population.population <= 0 {
        return 0;
    }
    let iopc = fix_max(state.capital.industrial_output_per_capita, 0);
    let demand = fix_mul(state.population.population, iopc);
    let scaled = fix_ratio(demand, RESOURCE_DEPLETION_NUM, RESOURCE_DEPLETION_DEN);
    let extraction: i64 = if params.resource_efficiency != 0 {
        fix_div(scaled, params.resource_efficiency)
    } else {
        FIX_MAX
    };
    proof {
        crate::fixed::lemma_fmul_nonneg(state.population.population as int, iopc as int);
        crate::fixed::lemma_fratio_nonneg(
            demand as int,
            RESOURCE_DEPLETION_NUM as int,
            RESOURCE_DEPLETION_DEN as int,
        );
        if params.resource_efficiency > 0 {
            crate::fixed::lemma_fdiv_nonneg(scaled as int, params.resource_efficiency as int);
        }
    }
    -extraction
}

} // verus!
