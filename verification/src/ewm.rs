//! The entropy-weight transform's verified stage: eager shape validation
//! and the per-column order information that the host's normalization and
//! entropy arithmetic is built on.

use vstd::prelude::*;
use crate::error::ToolError;
use crate::keys::{
    column_extremes, column_keys, fold_max, fold_min, INFINITY_KEY, NEG_INFINITY_KEY,
};

verus! {

/// The order information of one data column: its least and greatest
/// entry, and whether the column is degenerate — a zero range, on which
/// the transform falls back to constant normalized values and entropy
/// one instead of dividing by the range.
pub struct ColumnSpan {
    pub lowest: u64,
    pub highest: u64,
    pub degenerate: bool,
}

/// Validates the entropy-weight input and computes each column's span.
/// Fewer than two data rows is a row-count error; an indicator vector
/// not matching the column count is a dimension mismatch.  On success
/// there is one span per column, holding exactly that column's least and
/// greatest key, degenerate exactly when the two coincide.
pub fn entropy_weight_prepare(
    data: &Vec<Vec<u64>>,
    cols: usize,
    indicator_types: &Vec<i64>,
) -> (r: Result<Vec<ColumnSpan>, ToolError>)
    requires
        forall|i: int| 0 <= i < data@.len() ==> (#[trigger] data@[i])@.len() == cols,
    ensures
        r is Err <==> (data@.len() <= 1 || indicator_types@.len() != cols),
        match r {
            Ok(spans) => {
                &&& spans@.len() == cols
                &&& forall|j: int|
                    0 <= j < cols ==> (#[trigger] spans@[j]).lowest == fold_min(
                        INFINITY_KEY,
                        column_keys(data@, j),
                    )
                &&& forall|j: int|
                    0 <= j < cols ==> (#[trigger] spans@[j]).highest == fold_max(
                        NEG_INFINITY_KEY,
                        column_keys(data@, j),
                    )
                &&& forall|j: int|
                    0 <= j < cols ==> (#[trigger] spans@[j]).degenerate == (spans@[j].highest
                        == spans@[j].lowest)
            },
            Err(e) => if data@.len() <= 1 {
                e == ToolError::NotEnoughRows
            } else {
                e == ToolError::IndicatorCountMismatch
            },
        },
{
    if data.len() <= 1 {
        return Err(ToolError::NotEnoughRows);
    }
    if indicator_types.len() != cols {
        return Err(ToolError::IndicatorCountMismatch);
    }
    let mut spans: Vec<ColumnSpan> = Vec::new();
    let mut j: usize = 0;
    while j < cols
        invariant
            j <= cols,
            forall|i: int| 0 <= i < data@.len() ==> (#[trigger] data@[i])@.len() == cols,
            spans@.len() == j,
            forall|k: int|
                0 <= k < j ==> (#[trigger] spans@[k]).lowest == fold_min(
                    INFINITY_KEY,
                    column_keys(data@, k),
                ),
            forall|k: int|
                0 <= k < j ==> (#[trigger] spans@[k]).highest == fold_max(
                    NEG_INFINITY_KEY,
                    column_keys(data@, k),
                ),
            forall|k: int|
                0 <= k < j ==> (#[trigger] spans@[k]).degenerate == (spans@[k].highest
                    == spans@[k].lowest),
        decreases cols - j,
    {
        let (lo, hi): (u64, u64) = column_extremes(data, cols, j);
        spans.push(ColumnSpan { lowest: lo, highest: hi, degenerate: lo == hi });
        j += 1;
    }
    Ok(spans)
}

} // verus!
