use walitool::config::{OptimizationConfig, OptionValue, DEFAULT_CR_BITS, DEFAULT_F_BITS};
use walitool::de::use_parallel_strategy;
use walitool::error::ToolError;
use walitool::keys::{INFINITY_KEY, NEG_INFINITY_KEY, ZERO_KEY};

/// The canonical order key of a real: flip the sign bit of a non-negative
/// double, all bits of a negative one; negative zero is canonicalized.
fn key_of(x: f64) -> u64 {
    let x = if x == 0.0 { 0.0f64 } else { x };
    let b = x.to_bits();
    if b >> 63 == 1 {
        !b
    } else {
        b | 0x8000_0000_0000_0000
    }
}

fn pair_bounds(min: Vec<f64>, max: Vec<f64>) -> Vec<Vec<u64>> {
    vec![
        min.into_iter().map(key_of).collect(),
        max.into_iter().map(key_of).collect(),
    ]
}

#[test]
fn key_encoding_is_monotone_and_matches_the_constants() {
    assert!(key_of(-3.5) < key_of(-0.25));
    assert!(key_of(-0.25) < key_of(0.0));
    assert!(key_of(0.0) < key_of(2.25));
    assert!(key_of(2.25) < key_of(f64::INFINITY));
    assert_eq!(key_of(0.0), ZERO_KEY);
    assert_eq!(key_of(-0.0), ZERO_KEY);
    assert_eq!(key_of(f64::INFINITY), INFINITY_KEY);
    assert_eq!(key_of(f64::NEG_INFINITY), NEG_INFINITY_KEY);
}

#[test]
fn default_bits_encode_the_documented_defaults() {
    assert_eq!(DEFAULT_F_BITS, (0.5f64).to_bits());
    assert_eq!(DEFAULT_CR_BITS, (0.7f64).to_bits());
}

#[test]
fn population_below_four_is_rejected() {
    let r = OptimizationConfig::new(
        3,
        2,
        OptionValue::Missing,
        OptionValue::Missing,
        OptionValue::Missing,
        OptionValue::Missing,
        pair_bounds(vec![0.0, 0.0], vec![1.0, 1.0]),
    );
    match r {
        Err(e) => {
            assert_eq!(e, ToolError::PopulationTooSmall);
            assert_eq!(e.message(), "Population size must be at least 4");
        }
        Ok(_) => panic!("a population of three must be rejected"),
    }
}

#[test]
fn bounds_must_come_as_a_pair() {
    let r = OptimizationConfig::new(
        4,
        2,
        OptionValue::Missing,
        OptionValue::Missing,
        OptionValue::Missing,
        OptionValue::Missing,
        vec![vec![key_of(0.0), key_of(0.0)]],
    );
    match r {
        Err(e) => {
            assert_eq!(e, ToolError::MalformedBounds);
            assert_eq!(e.message(), "Bounds must be a tuple of (min_bound, max_bound)");
        }
        Ok(_) => panic!("one bounds vector must be rejected"),
    }
}

#[test]
fn bounds_length_must_match_dimensions() {
    let r = OptimizationConfig::new(
        4,
        3,
        OptionValue::Missing,
        OptionValue::Missing,
        OptionValue::Missing,
        OptionValue::Missing,
        pair_bounds(vec![0.0, 0.0], vec![1.0, 1.0]),
    );
    match r {
        Err(e) => {
            assert_eq!(e, ToolError::BoundsDimensionMismatch);
            assert_eq!(e.message(), "Bounds dimensions must match problem dimensions");
        }
        Ok(_) => panic!("short bounds must be rejected"),
    }
}

#[test]
fn zero_dimensions_are_rejected() {
    let r = OptimizationConfig::new(
        4,
        0,
        OptionValue::Missing,
        OptionValue::Missing,
        OptionValue::Missing,
        OptionValue::Missing,
        pair_bounds(vec![], vec![]),
    );
    assert_eq!(r.err(), Some(ToolError::ZeroDimensions));
}

#[test]
fn inverted_bounds_are_rejected() {
    let r = OptimizationConfig::new(
        4,
        2,
        OptionValue::Missing,
        OptionValue::Missing,
        OptionValue::Missing,
        OptionValue::Missing,
        pair_bounds(vec![0.0, 5.0], vec![1.0, 4.0]),
    );
    assert_eq!(r.err(), Some(ToolError::InvertedBounds));
}

#[test]
fn primary_option_key_wins() {
    let cfg = OptimizationConfig::new(
        4,
        1,
        OptionValue::Real((0.9f64).to_bits()),
        OptionValue::Real((0.1f64).to_bits()),
        OptionValue::Missing,
        OptionValue::Real((0.3f64).to_bits()),
        pair_bounds(vec![0.0], vec![1.0]),
    )
    .unwrap();
    assert_eq!(cfg.f_weight, (0.9f64).to_bits());
    assert_eq!(cfg.cr_prob, (0.3f64).to_bits());
}

#[test]
fn wrong_typed_primary_falls_back_to_the_default_not_the_legacy_key() {
    let cfg = OptimizationConfig::new(
        4,
        1,
        OptionValue::WrongType,
        OptionValue::Real((0.1f64).to_bits()),
        OptionValue::WrongType,
        OptionValue::Real((0.2f64).to_bits()),
        pair_bounds(vec![0.0], vec![1.0]),
    )
    .unwrap();
    assert_eq!(cfg.f_weight, DEFAULT_F_BITS);
    assert_eq!(cfg.cr_prob, DEFAULT_CR_BITS);
}

#[test]
fn both_keys_missing_yield_the_defaults() {
    let cfg = OptimizationConfig::new(
        5,
        2,
        OptionValue::Missing,
        OptionValue::Missing,
        OptionValue::Missing,
        OptionValue::Missing,
        pair_bounds(vec![-1.0, -2.0], vec![1.0, 2.0]),
    )
    .unwrap();
    assert_eq!(cfg.pop_size, 5);
    assert_eq!(cfg.dimensions, 2);
    assert_eq!(cfg.f_weight, DEFAULT_F_BITS);
    assert_eq!(cfg.cr_prob, DEFAULT_CR_BITS);
    assert_eq!(cfg.bounds_min, vec![key_of(-1.0), key_of(-2.0)]);
    assert_eq!(cfg.bounds_max, vec![key_of(1.0), key_of(2.0)]);
}

#[test]
fn each_rejection_carries_its_message() {
    assert_eq!(
        ToolError::FitnessNotCallable.message(),
        "Fitness function must be a callable or an address int"
    );
    assert_eq!(
        ToolError::ZeroDimensions.message(),
        "Problem dimensionality must be positive"
    );
    assert_eq!(
        ToolError::InvertedBounds.message(),
        "Each min bound must not exceed its max bound"
    );
}

#[test]
fn parallel_strategy_starts_past_the_cell_threshold() {
    assert!(!use_parallel_strategy(200_000, 1));
    assert!(use_parallel_strategy(200_001, 1));
    assert!(!use_parallel_strategy(1_000, 200));
    assert!(use_parallel_strategy(1_001, 200));
    assert!(!use_parallel_strategy(0, 0));
    assert!(use_parallel_strategy(usize::MAX, usize::MAX));
}
