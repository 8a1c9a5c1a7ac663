//! Decision logic of the Augmented Dickey-Fuller stationarity test.
//!
//! Real numbers enter this library as order keys (see [`order`]): integers
//! that compare exactly as the reals they stand for. The library decides the
//! lag search range, lays out each candidate regression, picks the lag with
//! the first minimal information criterion, brackets a statistic in the
//! p-value table and classifies the result.
use vstd::prelude::*;

pub mod classify;
pub mod design;
pub mod lags;
pub mod order;
pub mod pvalue;
pub mod select;

verus! {

} // verus!
