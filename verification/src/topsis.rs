//! The TOPSIS transform's verified stages: eager shape validation and the
//! selection of the ideal-best and ideal-worst points from the host's
//! weighted-normalized matrix.

use vstd::prelude::*;
use crate::error::ToolError;
use crate::keys::{
    column_extremes, column_keys, fold_max, fold_min, INFINITY_KEY, NEG_INFINITY_KEY,
};

verus! {

/// The eager shape checks of the TOPSIS transform, in the order they are
/// raised: fewer than two data rows, then a weight vector not matching
/// the column count, then an indicator vector not matching it.
pub fn topsis_validate(rows: usize, cols: usize, weight_count: usize, indicator_count: usize) -> (r:
    Result<(), ToolError>)
    ensures
        r is Ok <==> (rows > 1 && weight_count == cols && indicator_count == cols),
        match r {
            Ok(u) => true,
            Err(e) => if rows <= 1 {
                e == ToolError::NotEnoughRows
            } else if weight_count != cols {
                e == ToolError::WeightCountMismatch
            } else {
                e == ToolError::IndicatorCountMismatch
            },
        },
{
    if rows <= 1 {
        return Err(ToolError::NotEnoughRows);
    }
    if weight_count != cols {
        return Err(ToolError::WeightCountMismatch);
    }
    if indicator_count != cols {
        return Err(ToolError::IndicatorCountMismatch);
    }
    Ok(())
}

/// Picks the ideal-best and ideal-worst point of a weighted-normalized
/// matrix.  On a benefit column (indicator one) the best is the column's
/// greatest entry and the worst its least; on a cost column the two swap
/// roles.
pub fn topsis_ideals(data: &Vec<Vec<u64>>, cols: usize, indicator_types: &Vec<i64>) -> (r: (
    Vec<u64>,
    Vec<u64>,
))
    requires
        forall|i: int| 0 <= i < data@.len() ==> (#[trigger] data@[i])@.len() == cols,
        indicator_types@.len() == cols,
    ensures
        r.0@.len() == cols,
        r.1@.len() == cols,
        forall|j: int|
            0 <= j < cols && indicator_types@[j] == 1 ==> (#[trigger] r.0@[j]) == fold_max(
                NEG_INFINITY_KEY,
                column_keys(data@, j),
            ),
        forall|j: int|
            0 <= j < cols && indicator_types@[j] == 1 ==> (#[trigger] r.1@[j]) == fold_min(
                INFINITY_KEY,
                column_keys(data@, j),
            ),
        forall|j: int|
            0 <= j < cols && indicator_types@[j] != 1 ==> (#[trigger] r.0@[j]) == fold_min(
                INFINITY_KEY,
                column_keys(data@, j),
            ),
        forall|j: int|
            0 <= j < cols && indicator_types@[j] != 1 ==> (#[trigger] r.1@[j]) == fold_max(
                NEG_INFINITY_KEY,
                column_keys(data@, j),
            ),
{
    let mut ideal_best: Vec<u64> = Vec::new();
    let mut ideal_worst: Vec<u64> = Vec::new();
    let mut j: usize = 0;
    while j < cols
        invariant
            j <= cols,
            forall|i: int| 0 <= i < data@.len() ==> (#[trigger] data@[i])@.len() == cols,
            indicator_types@.len() == cols,
            ideal_best@.len() == j,
            ideal_worst@.len() == j,
            forall|k: int|
                0 <= k < j && indicator_types@[k] == 1 ==> (#[trigger] ideal_best@[k]) == fold_max(
                    NEG_INFINITY_KEY,
                    column_keys(data@, k),
                ),
            forall|k: int|
                0 <= k < j && indicator_types@[k] == 1 ==> (#[trigger] ideal_worst@[k]) == fold_min(
                    INFINITY_KEY,
                    column_keys(data@, k),
                ),
            forall|k: int|
                0 <= k < j && indicator_types@[k] != 1 ==> (#[trigger] ideal_best@[k]) == fold_min(
                    INFINITY_KEY,
                    column_keys(data@, k),
                ),
            forall|k: int|
                0 <= k < j && indicator_types@[k] != 1 ==> (#[trigger] ideal_worst@[k]) == fold_max(
                    NEG_INFINITY_KEY,
                    column_keys(data@, k),
                ),
        decreases cols - j,
    {
        let (lo, hi): (u64, u64) = column_extremes(data, cols, j);
        if indicator_types[j] == 1 {
            ideal_best.push(hi);
            ideal_worst.push(lo);
        } else {
            ideal_best.push(lo);
            ideal_worst.push(hi);
        }
        j += 1;
    }
    (ideal_best, ideal_worst)
}

} // verus!
