//! Engine construction: eager validation of the population size, the
//! bounds pair and the dimensionality, and first-match-wins resolution of
//! the two control parameters from the caller's options.

use vstd::prelude::*;
use crate::error::ToolError;

verus! {

/// Bit encoding of the default mutation weight, one half.
pub const DEFAULT_F_BITS: u64 = 0x3FE0_0000_0000_0000;

/// Bit encoding of the default crossover probability, seven tenths.
pub const DEFAULT_CR_BITS: u64 = 0x3FE6_6666_6666_6666;

/// What an options lookup found under one key: nothing, a value that is
/// not a real number, or the 64-bit encoding of a real value.
#[derive(Clone, Copy, Debug, PartialEq, Eq, Structural)]
pub enum OptionValue {
    Missing,
    WrongType,
    Real(u64),
}

/// First-match-wins resolution of one control parameter.  The primary key
/// is consulted first: a present value of the wrong type falls back to the
/// default without trying the legacy key; only an absent primary key lets
/// the legacy key speak, under the same rule.
pub open spec fn resolved_weight(primary: OptionValue, legacy: OptionValue, default: u64) -> u64 {
    match primary {
        OptionValue::Real(v) => v,
        OptionValue::WrongType => default,
        OptionValue::Missing => match legacy {
            OptionValue::Real(v) => v,
            _ => default,
        },
    }
}

/// The first rejection the constructor's checks raise, or `None` when the
/// configuration is acceptable.
pub open spec fn construction_check(pop: int, dimensions: int, bounds: Seq<Seq<u64>>) -> Option<
    ToolError,
> {
    if pop < 4 {
        Some(ToolError::PopulationTooSmall)
    } else if bounds.len() != 2 {
        Some(ToolError::MalformedBounds)
    } else if bounds[0].len() != dimensions || bounds[1].len() != dimensions {
        Some(ToolError::BoundsDimensionMismatch)
    } else if dimensions == 0 {
        Some(ToolError::ZeroDimensions)
    } else if exists|j: int| 0 <= j < dimensions && bounds[0][j] > bounds[1][j] {
        Some(ToolError::InvertedBounds)
    } else {
        None
    }
}

/// The immutable per-run configuration: population size, dimensionality,
/// per-dimension box bounds as order keys, and the two control parameters
/// as opaque 64-bit encodings for the host's arithmetic.
pub struct OptimizationConfig {
    pub pop_size: usize,
    pub dimensions: usize,
    pub bounds_min: Vec<u64>,
    pub bounds_max: Vec<u64>,
    pub f_weight: u64,
    pub cr_prob: u64,
}

impl OptimizationConfig {
    /// Every constructed configuration satisfies this: at least four
    /// individuals, at least one dimension, bounds vectors of matching
    /// length, and no lower bound above its upper bound.
    pub open spec fn wf(&self) -> bool {
        &&& self.pop_size >= 4
        &&& self.dimensions >= 1
        &&& self.bounds_min@.len() == self.dimensions
        &&& self.bounds_max@.len() == self.dimensions
        &&& forall|j: int|
            0 <= j < self.dimensions ==> self.bounds_min@[j] <= self.bounds_max@[j]
    }

    /// Validates and builds a configuration.  `bounds` must arrive as
    /// exactly the pair (min vector, max vector); the options lookups for
    /// the primary and legacy key of each control parameter are resolved
    /// first match wins, with defaults when both are missing or the first
    /// match is not a real.  Inverted bounds are rejected outright, so
    /// every accepted configuration gives clamping a non-empty range.
    pub fn new(
        pop: usize,
        dimensions: usize,
        f_primary: OptionValue,
        f_legacy: OptionValue,
        cr_primary: OptionValue,
        cr_legacy: OptionValue,
        bounds: Vec<Vec<u64>>,
    ) -> (r: Result<Self, ToolError>)
        ensures
            match r {
                Ok(cfg) => {
                    &&& construction_check(pop as int, dimensions as int, bounds.deep_view())
                        is None
                    &&& cfg.wf()
                    &&& cfg.pop_size == pop
                    &&& cfg.dimensions == dimensions
                    &&& cfg.bounds_min@ == bounds.deep_view()[0]
                    &&& cfg.bounds_max@ == bounds.deep_view()[1]
                    &&& cfg.f_weight == resolved_weight(f_primary, f_legacy, DEFAULT_F_BITS)
                    &&& cfg.cr_prob == resolved_weight(cr_primary, cr_legacy, DEFAULT_CR_BITS)
                },
                Err(e) => construction_check(pop as int, dimensions as int, bounds.deep_view())
                    == Some(e),
            },
    {
        if pop < 4 {
            return Err(ToolError::PopulationTooSmall);
        }
        let f_weight: u64 = resolve_weight(f_primary, f_legacy, DEFAULT_F_BITS);
        let cr_prob: u64 = resolve_weight(cr_primary, cr_legacy, DEFAULT_CR_BITS);
        if bounds.len() != 2 {
            return Err(ToolError::MalformedBounds);
        }
        if bounds[0].len() != dimensions || bounds[1].len() != dimensions {
            return Err(ToolError::BoundsDimensionMismatch);
        }
        if dimensions == 0 {
            return Err(ToolError::ZeroDimensions);
        }
        let mut j: usize = 0;
        while j < dimensions
            invariant
                j <= dimensions,
                pop >= 4,
                dimensions >= 1,
                bounds.deep_view().len() == 2,
                bounds[0 as int]@.len() == dimensions,
                bounds[1 as int]@.len() == dimensions,
                forall|k: int| 0 <= k < j ==> bounds[0 as int]@[k] <= bounds[1 as int]@[k],
            decreases dimensions - j,
        {
            if bounds[0][j] > bounds[1][j] {
                assert(bounds.deep_view()[0][j as int] > bounds.deep_view()[1][j as int]);
                return Err(ToolError::InvertedBounds);
            }
            j += 1;
        }
        let mut bounds = bounds;
        let bounds_max = match bounds.pop() {
            Some(v) => v,
            None => { return Err(ToolError::MalformedBounds) },
        };
        let bounds_min = match bounds.pop() {
            Some(v) => v,
            None => { return Err(ToolError::MalformedBounds) },
        };
        Ok(OptimizationConfig {
            pop_size: pop,
            dimensions,
            bounds_min,
            bounds_max,
            f_weight,
            cr_prob,
        })
    }
}

/// Executable twin of `resolved_weight`.
fn resolve_weight(primary: OptionValue, legacy: OptionValue, default: u64) -> (r: u64)
    ensures
        r == resolved_weight(primary, legacy, default),
{
    match primary {
        OptionValue::Real(v) => v,
        OptionValue::WrongType => default,
        OptionValue::Missing => match legacy {
            OptionValue::Real(v) => v,
            _ => default,
        },
    }
}

} // verus!
