//! Decision-support primitives: a rand-1-bin differential-evolution engine
//! together with the validation and ordering stages of two multi-criteria
//! scoring transforms (entropy weighting and TOPSIS).
//!
//! Every real-valued quantity is carried through this crate as a 64-bit
//! *order key*.  The host encodes each real number `x` as a key `k(x)` by a
//! strictly monotone injection, so that `x < y` exactly when
//! `k(x) < k(y)` as unsigned integers.  All of the engine's decisions —
//! clamping into box bounds, greedy selection, best-solution tracking,
//! column extremes — are order decisions, so they are carried out and
//! verified here directly on keys.  Arithmetic that produces *new* real
//! values (uniform sampling, the differential mutant, fitness evaluation,
//! entropy and distance formulas) is the host's part: the host computes
//! those reals, encodes them as keys, and hands them back to the verified
//! stages.

pub mod config;
pub mod de;
pub mod error;
pub mod ewm;
pub mod keys;
mod sampling;
pub mod topsis;
