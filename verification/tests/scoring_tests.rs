use walitool::error::ToolError;
use walitool::ewm::entropy_weight_prepare;
use walitool::topsis::{topsis_ideals, topsis_validate};

/// The canonical order key of a real: flip the sign bit of a non-negative
/// double, all bits of a negative one; negative zero is canonicalized.
fn key_of(x: f64) -> u64 {
    let x = if x == 0.0 { 0.0f64 } else { x };
    let b = x.to_bits();
    if b >> 63 == 1 {
        !b
    } else {
        b | 0x8000_0000_0000_0000
    }
}

fn matrix_keys(rows: &[&[f64]]) -> Vec<Vec<u64>> {
    rows.iter()
        .map(|r| r.iter().copied().map(key_of).collect())
        .collect()
}

#[test]
fn entropy_weighting_needs_more_than_one_row() {
    let one_row = matrix_keys(&[&[1.0, 2.0]]);
    match entropy_weight_prepare(&one_row, 2, &vec![1, 1]) {
        Err(e) => {
            assert_eq!(e, ToolError::NotEnoughRows);
            assert_eq!(e.message(), "Data must have more than one row");
        }
        Ok(_) => panic!("one row must be rejected"),
    }
    let empty: Vec<Vec<u64>> = vec![];
    assert_eq!(
        entropy_weight_prepare(&empty, 2, &vec![1, 1]).err(),
        Some(ToolError::NotEnoughRows)
    );
}

#[test]
fn entropy_weighting_checks_the_indicator_count() {
    let data = matrix_keys(&[&[1.0, 2.0], &[3.0, 4.0]]);
    assert_eq!(
        entropy_weight_prepare(&data, 2, &vec![1]).err(),
        Some(ToolError::IndicatorCountMismatch)
    );
}

#[test]
fn a_constant_column_is_degenerate_and_a_varying_one_is_not() {
    // Three rows; column zero is constant (zero range), column one varies.
    let data = matrix_keys(&[&[5.0, 1.0], &[5.0, 2.0], &[5.0, 3.0]]);
    let spans = entropy_weight_prepare(&data, 2, &vec![1, 1]).unwrap();
    assert_eq!(spans.len(), 2);
    assert!(spans[0].degenerate);
    assert_eq!(spans[0].lowest, key_of(5.0));
    assert_eq!(spans[0].highest, key_of(5.0));
    assert!(!spans[1].degenerate);
    assert_eq!(spans[1].lowest, key_of(1.0));
    assert_eq!(spans[1].highest, key_of(3.0));
}

#[test]
fn column_extremes_respect_the_sign() {
    let data = matrix_keys(&[&[-2.0], &[3.0], &[-7.5], &[0.0]]);
    let spans = entropy_weight_prepare(&data, 1, &vec![0]).unwrap();
    assert_eq!(spans[0].lowest, key_of(-7.5));
    assert_eq!(spans[0].highest, key_of(3.0));
}

#[test]
fn topsis_needs_more_than_one_row() {
    match topsis_validate(1, 2, 2, 2) {
        Err(e) => {
            assert_eq!(e, ToolError::NotEnoughRows);
            assert_eq!(e.message(), "Data must have more than one row");
        }
        Ok(_) => panic!("one row must be rejected"),
    }
}

#[test]
fn topsis_checks_weight_and_indicator_counts_in_order() {
    match topsis_validate(3, 2, 3, 2) {
        Err(e) => {
            assert_eq!(e, ToolError::WeightCountMismatch);
            assert_eq!(e.message(), "Number of columns must match number of weights");
        }
        Ok(_) => panic!("a weight-count mismatch must be rejected"),
    }
    match topsis_validate(3, 2, 2, 3) {
        Err(e) => {
            assert_eq!(e, ToolError::IndicatorCountMismatch);
            assert_eq!(
                e.message(),
                "Number of columns must match number of indicator types"
            );
        }
        Ok(_) => panic!("an indicator-count mismatch must be rejected"),
    }
    assert!(topsis_validate(2, 3, 3, 3).is_ok());
}

#[test]
fn ideal_points_follow_the_indicator_direction() {
    // Column zero is a benefit indicator, column one a cost indicator.
    let data = matrix_keys(&[&[0.1, 0.9], &[0.4, 0.2], &[0.3, 0.5]]);
    let (best, worst) = topsis_ideals(&data, 2, &vec![1, 0]);
    assert_eq!(best, vec![key_of(0.4), key_of(0.2)]);
    assert_eq!(worst, vec![key_of(0.1), key_of(0.9)]);
}
