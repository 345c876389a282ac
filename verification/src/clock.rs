//! The two points where the library touches the outside world: wall-clock
//! timestamps for scenario metadata and run records.  Nothing downstream
//! depends on their values; every function that consumes them is verified
//! for every possible outcome.

use std::collections::hash_map::DefaultHasher;
use std::hash::{Hash, Hasher};
use std::time::SystemTime;
use vstd::prelude::*;

verus! {

/// Relies on chrono's `Utc::now`, formatted by chrono's `to_rfc3339`.
/// The result depends on the clock, so nothing is promised of it.
#[verifier::external_body]
pub(crate) fn now_rfc3339() -> String {
    chrono::Utc::now().to_rfc3339()
}

/// Relies on std's `SystemTime::now`, hashed through std's `DefaultHasher`.
/// The result depends on the clock, so nothing is promised of it.
#[verifier::external_body]
pub(crate) fn time_hash() -> u64 {
    let mut h = DefaultHasher::new();
    SystemTime::now().hash(&mut h);
    h.finish()
}

} // verus!
