//! A world-dynamics simulation engine: coupled nonlinear stock-and-flow
//! equations over piecewise-linear empirical response curves, advanced by a
//! fixed-step fourth-order integrator.
//!
//! All model quantities are fixed-point numbers: `i64` multiples of
//! `1 / fixed::SCALE`, with truncating multiplication and division and
//! saturating bounds, so every arithmetic step has an exact, machine-checked
//! meaning.

pub mod clock;
pub mod derivatives;
pub mod fixed;
pub mod lookup;
pub mod output;
pub mod params;
pub mod scenario;
pub mod sectors;
pub mod solver;
pub mod state;
pub mod tables;

pub use params::{ParameterDescriptor, ScenarioMeta, ScenarioParams};
pub use output::SimulationOutput;
pub use scenario::{Scenario, ScenarioSummary};
pub use solver::{Rk4Solver, SolverError};
pub use state::WorldState;
pub use tables::WorldLookupTables;
