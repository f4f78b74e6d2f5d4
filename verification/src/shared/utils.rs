//! Time constants.

use vstd::prelude::*;

verus! {

/// Seconds in a year of 365 days.
pub const SECONDS_PER_YEAR: i64 = 60 * 60 * 24 * 365;

} // verus!
