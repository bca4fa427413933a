//! The fixed order of the mutating pipeline stages.
//!
//! Both mutating stages work on the same caller-owned buffer, and their
//! order is load-bearing: outlier removal manufactures new gaps, which
//! interpolation may then fill. This module makes that order a single
//! explicit contract instead of a caller convention.

use vstd::prelude::*;
use crate::interpolate::{fill_count, interpolate_missing_data, interpolated};
use crate::models::HousingData;
use crate::outliers::{filter_outliers, remove_outliers};
use crate::series::{price_count, prices_of, same_shape};

verus! {

/// What each mutating stage of one pipeline run reported.
#[derive(Clone, Copy, PartialEq, Eq, Structural, Debug)]
pub struct PipelineCounts {
    /// How many prices the outlier filter nulled.
    pub outliers_removed: usize,
    /// How many gaps the interpolator filled afterwards.
    pub gaps_filled: usize,
}

/// Run the two mutating stages in their required order: outlier removal
/// first, then gap interpolation over whatever gaps are left or newly
/// made. The result is exactly the interpolation of the outlier-filtered
/// column; records' other fields are never touched.
pub fn run_pipeline(data: &mut Vec<HousingData>) -> (counts: PipelineCounts)
    requires
        old(data)@.len() <= 0x0800_0000,
    ensures
        same_shape(final(data)@, old(data)@),
        prices_of(final(data)@) == interpolated(filter_outliers(prices_of(old(data)@))),
        counts.outliers_removed as int == price_count(
            prices_of(old(data)@),
            0,
            old(data)@.len() as int,
        ) - price_count(
            filter_outliers(prices_of(old(data)@)),
            0,
            old(data)@.len() as int,
        ),
        counts.gaps_filled as int == fill_count(filter_outliers(prices_of(old(data)@))),
{
    let outliers_removed = remove_outliers(data);
    let gaps_filled = interpolate_missing_data(data);
    PipelineCounts { outliers_removed, gaps_filled }
}

} // verus!
