//! The stationarity verdict.
use vstd::prelude::*;

verus! {

/// The order key of -2.86, the 5% critical value of the statistic.
pub const CRITICAL_5_PERCENT_KEY: i64 = -0x4006_e147_ae14_7ae1;

/// The order key of 0.05, the largest p-value that rejects a unit root.
pub const SIGNIFICANCE_KEY: i64 = 0x3fa9_9999_9999_999a;

/// Whether a series is judged stationary: its p-value is at most 0.05 and
/// its statistic is strictly below -2.86. Both arguments are order keys.
pub fn determine_stationarity(stat_key: i64, p_key: i64) -> (r: bool)
    ensures
        r == (p_key <= SIGNIFICANCE_KEY && stat_key < CRITICAL_5_PERCENT_KEY),
{
    p_key <= SIGNIFICANCE_KEY && stat_key < CRITICAL_5_PERCENT_KEY
}

} // verus!
