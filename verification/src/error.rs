//! The error taxonomy: configuration errors raised eagerly before any
//! optimization or scoring work, the type-mismatch error of the fitness
//! dispatch, and the lazy shape error of the evaluation protocol.

use vstd::prelude::*;

verus! {

/// Everything this crate's entry points can reject.
#[derive(Clone, Copy, Debug, PartialEq, Eq, Structural)]
pub enum ToolError {
    /// The population size is below the four individuals rand-1-bin needs.
    PopulationTooSmall,
    /// The bounds argument is not exactly a (min, max) pair of vectors.
    MalformedBounds,
    /// A bounds vector's length differs from the problem dimensionality.
    BoundsDimensionMismatch,
    /// The problem has no dimensions to search over.
    ZeroDimensions,
    /// Some lower bound lies above its upper bound.
    InvertedBounds,
    /// The fitness argument is neither a native handle nor a callable.
    FitnessNotCallable,
    /// The evaluator returned a cost vector of the wrong length.
    ShapeMismatch,
    /// A scoring transform was given fewer than two data rows.
    NotEnoughRows,
    /// The weight vector's length differs from the column count.
    WeightCountMismatch,
    /// The indicator-type vector's length differs from the column count.
    IndicatorCountMismatch,
}

impl ToolError {
    /// The human-readable message of each rejection.
    pub fn message(&self) -> (m: &'static str)
        ensures
            m@ == self.message_spec(),
    {
        match self {
            ToolError::PopulationTooSmall => "Population size must be at least 4",
            ToolError::MalformedBounds => "Bounds must be a tuple of (min_bound, max_bound)",
            ToolError::BoundsDimensionMismatch => "Bounds dimensions must match problem dimensions",
            ToolError::ZeroDimensions => "Problem dimensionality must be positive",
            ToolError::InvertedBounds => "Each min bound must not exceed its max bound",
            ToolError::FitnessNotCallable => "Fitness function must be a callable or an address int",
            ToolError::ShapeMismatch => "Fitness function returned incorrect shape",
            ToolError::NotEnoughRows => "Data must have more than one row",
            ToolError::WeightCountMismatch => "Number of columns must match number of weights",
            ToolError::IndicatorCountMismatch => "Number of columns must match number of indicator types",
        }
    }

    /// The message each variant carries.
    pub open spec fn message_spec(&self) -> Seq<char> {
        match self {
            ToolError::PopulationTooSmall => "Population size must be at least 4"@,
            ToolError::MalformedBounds => "Bounds must be a tuple of (min_bound, max_bound)"@,
            ToolError::BoundsDimensionMismatch => "Bounds dimensions must match problem dimensions"@,
            ToolError::ZeroDimensions => "Problem dimensionality must be positive"@,
            ToolError::InvertedBounds => "Each min bound must not exceed its max bound"@,
            ToolError::FitnessNotCallable => "Fitness function must be a callable or an address int"@,
            ToolError::ShapeMismatch => "Fitness function returned incorrect shape"@,
            ToolError::NotEnoughRows => "Data must have more than one row"@,
            ToolError::WeightCountMismatch => "Number of columns must match number of weights"@,
            ToolError::IndicatorCountMismatch => "Number of columns must match number of indicator types"@,
        }
    }
}

} // verus!
