//! The five sector derivative functions.
//!
//! Each sector reads the current working state, writes its own auxiliary
//! fields into that working copy, and returns the rate of change of the
//! stocks it owns.  They must run in a fixed order within one evaluation —
//! resources, capital, agriculture, pollution, population — because each
//! later sector consumes auxiliary values an earlier one wrote in the same
//! evaluation.

pub mod agriculture;
pub mod capital;
pub mod pollution;
pub mod population;
pub mod resources;
