//! Persistent pollution sector.
//!
//! Pollution is generated by industrial and agricultural activity, each
//! through its own generation curve keyed on normalized activity, and is
//! assimilated by the environment with a time constant that rises steeply
//! with the pollution level.  The configured pollution-control strength
//! scales generation down.  The pollution-index auxiliary is consumed by the
//! agriculture and population sectors.

use vstd::prelude::*;
use crate::fixed::{fadd, fclamp, fdiv, fmax, fmul, fsub, fix_add, fix_clamp, fix_div, fix_max,
    fix_mul, fix_sub, FIX_ONE};
use crate::lookup::table_at;
use crate::params::ScenarioParams;
use crate::state::{PollutionState, WorldState};
use crate::tables::{tables_wf, WorldLookupTables};

verus! {

/// Reference industrial output per capita for normalizing the industrial
/// generation curve.
pub const IOPC_POLLUTION_REFERENCE: i64 = 3000000;

/// Reference agricultural inputs per hectare for normalizing the
/// agricultural generation curve.
pub const INPUTS_POLLUTION_REFERENCE: i64 = 2000000;

/// Base pollution generation per year at reference activity.
pub const POLLUTION_GENERATION_BASE: i64 = 400;

/// The pollution index: the stock, floored at zero, on a scale where the
/// reference year's level is one.
pub open spec fn spec_pollution_index(s: WorldState) -> int {
    fmax(s.pollution.persistent_pollution as int, 0)
}

/// Pollution generation rate: the base rate times the sum of the industrial
/// and agricultural curve responses, cut by the control policy.
pub open spec fn spec_generation_rate(s: WorldState, p: ScenarioParams, t: WorldLookupTables) -> int {
    let industrial = table_at(
        t.pollution_generation_industry,
        fdiv(s.capital.industrial_output_per_capita as int, IOPC_POLLUTION_REFERENCE as int),
    );
    let agricultural = table_at(
        t.pollution_generation_agriculture,
        fdiv(s.agriculture.agricultural_inputs_per_hectare as int, INPUTS_POLLUTION_REFERENCE as int),
    );
    fmul(
        fmul(POLLUTION_GENERATION_BASE as int, fadd(industrial, agricultural)),
        fsub(FIX_ONE as int, fclamp(p.pollution_control as int, 0, FIX_ONE as int)),
    )
}

/// Pollution assimilation rate: the stock over the assimilation time drawn
/// from the curve, floored at one year.
pub open spec fn spec_assimilation_rate(s: WorldState, t: WorldLookupTables) -> int {
    fdiv(
        s.pollution.persistent_pollution as int,
        fmax(table_at(t.pollution_assimilation_time, spec_pollution_index(s)), FIX_ONE as int),
    )
}

/// The state after the pollution sector's pass: index, generation and
/// assimilation auxiliaries change, everything else is carried through.
#[verifier::opaque]
pub open spec fn pollution_updated(s: WorldState, p: ScenarioParams, t: WorldLookupTables) -> WorldState {
    WorldState {
        pollution: PollutionState {
            pollution_index: spec_pollution_index(s) as i64,
            generation_rate: spec_generation_rate(s, p, t) as i64,
            assimilation_rate: spec_assimilation_rate(s, t) as i64,
            ..s.pollution
        },
        ..s
    }
}

/// Rate of change of the persistent pollution stock: generation minus
/// assimilation.
pub open spec fn spec_pollution_derivative(s: WorldState, p: ScenarioParams, t: WorldLookupTables) -> int {
    fsub(spec_generation_rate(s, p, t), spec_assimilation_rate(s, t))
}

/// Compute the pollution sector: fill in the pollution auxiliaries on
/// `state` and return the stock derivative.
pub fn pollution_derivative(
    state: &mut WorldState,
    params: &ScenarioParams,
    tables: &WorldLookupTables,
) -> (r: i64)
    requires
        tables_wf(*tables),
    ensures
        *final(state) == pollution_updated(*old(state), *params, *tables),
        r as int == spec_pollution_derivative(*old(state), *params, *tables),
{
    let index = fix_max(state.pollution.persistent_pollution, 0);
    proof {
        reveal(pollution_updated);
    }
    state.pollution.pollution_index = index;

    let industrial = tables.pollution_generation_industry.eval(
        fix_div(state.capital.industrial_output_per_capita, IOPC_POLLUTION_REFERENCE),
    );
    let agricultural = tables.pollution_generation_agriculture.eval(
        fix_div(state.agriculture.agricultural_inputs_per_hectare, INPUTS_POLLUTION_REFERENCE),
    );
    let generation = fix_mul(
        fix_mul(POLLUTION_GENERATION_BASE, fix_add(industrial, agricultural)),
        fix_sub(FIX_ONE, fix_clamp(params.pollution_control, 0, FIX_ONE)),
    );
    state.pollution.generation_rate = generation;

    let assimilation_time = fix_max(tables.pollution_assimilation_time.eval(index), FIX_ONE);
    let assimilation = fix_div(state.pollution.persistent_pollution, assimilation_time);
    state.pollution.assimilation_rate = assimilation;

    fix_sub(generation, assimilation)
}

} // verus!
