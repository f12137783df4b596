use shot_overlay::error::ShotError;
use shot_overlay::range::Range;

#[test]
fn test_range_from_series() {
    // 0.0, -10.5, 2.3, 2.33, 5.22, 1.22, 8.91, 8.912, -2.86 in millionths.
    let series = vec![
        0,
        -10_500_000,
        2_300_000,
        2_330_000,
        5_220_000,
        1_220_000,
        8_910_000,
        8_912_000,
        -2_860_000,
    ];
    let actual = Range::from_series(&series).unwrap();
    let expected = Range {
        min: -10_500_000,
        max: 8_912_000,
    };
    assert_eq!(actual, expected);
}

#[test]
fn test_range_from_series_zero() {
    let series = vec![0, 0];
    let actual = Range::from_series(&series).unwrap();
    let expected = Range { min: 0, max: 0 };
    assert_eq!(actual, expected);
}

#[test]
fn test_range_empty_series_fails() {
    let series: Vec<i64> = vec![];
    assert_eq!(Range::from_series(&series), Err(ShotError::EmptySeries));
}

#[test]
fn test_range_bounds_enclose_and_are_attained() {
    let series = vec![7, -3, 12, 0, 12, -3];
    let range = Range::from_series(&series).unwrap();
    assert!(range.min <= range.max);
    for v in &series {
        assert!(range.min <= *v && *v <= range.max);
    }
    assert!(series.contains(&range.min));
    assert!(series.contains(&range.max));
    assert_eq!(range.as_tuple(), (-3, 12));
}

#[test]
fn test_range_single_element() {
    let series = vec![42];
    assert_eq!(Range::from_series(&series).unwrap(), Range { min: 42, max: 42 });
}
