use geoprecision::resolver::resolve_precision;
use geoprecision::resolver::PrecisionError;

#[test]
fn test_odd_squares_rejected() {
    for squares in [1, 3, 7, 101, -1, -5, i32::MAX] {
        assert_eq!(
            resolve_precision(30_086_139, 30_086_139, squares),
            Err(PrecisionError::InvalidArgument)
        );
    }
}

#[test]
fn test_error_message() {
    let error = resolve_precision(1, 1, 3).unwrap_err();
    assert_eq!(error.message(), "geoHash divisions must be multiple of 2");
}

#[test]
fn test_thirty_kilometre_box_in_eight_squares() {
    // A box measuring about 30.086 km on each axis, split into 8 squares:
    // the x cell is a quarter of it and the y cell half of it, so the x
    // cell of about 7.5 km exceeds the level-5 width threshold of 4.9 km
    // first.
    assert_eq!(resolve_precision(30_086_139, 30_086_139, 8), Ok(5));
}

#[test]
fn test_even_squares_resolve() {
    // 100 km split into 100 squares: x cells of 2 km exceed the level-6
    // width threshold of 1.2 km.
    assert_eq!(resolve_precision(100_000_000, 100_000_000, 100), Ok(6));
    // 1 m split into 4: the y cell of a full metre exceeds the level-10
    // height threshold of 0.595 m.
    assert_eq!(resolve_precision(1_000, 1_000, 4), Ok(10));
    // A degenerate box of no extent is finer than every bucket.
    assert_eq!(resolve_precision(0, 0, 4), Ok(12));
}

#[test]
fn test_zero_squares_gives_unbounded_cells() {
    // Both subdivision counts are zero, so any positive extent yields an
    // unbounded cell, which demands the coarsest level.
    assert_eq!(resolve_precision(100, 100, 0), Ok(1));
    assert_eq!(resolve_precision(100, 0, 0), Ok(1));
    assert_eq!(resolve_precision(0, 100, 0), Ok(1));
    // With no extent at all the cell size is indeterminate and exceeds
    // nothing.
    assert_eq!(resolve_precision(0, 0, 0), Ok(12));
}

#[test]
fn test_two_squares_leaves_y_axis_unbounded() {
    // squares = 2 gives one x subdivision but zero y subdivisions; the y
    // cell is unbounded whenever the height is positive.
    assert_eq!(resolve_precision(100, 100, 2), Ok(1));
    assert_eq!(resolve_precision(100, 0, 2), Ok(12));
    assert_eq!(resolve_precision(6_000_000_000, 0, 2), Ok(1));
}

#[test]
fn test_negative_even_squares() {
    // Negative subdivision counts make nonpositive cells, which exceed no
    // threshold.
    assert_eq!(resolve_precision(30_086_139, 30_086_139, -4), Ok(12));
    assert_eq!(resolve_precision(30_086_139, 30_086_139, -100), Ok(12));
    // Except that -2 quarters to a y count of zero, truncated toward zero,
    // leaving the y axis unbounded.
    assert_eq!(resolve_precision(30_086_139, 30_086_139, -2), Ok(1));
    assert_eq!(resolve_precision(30_086_139, 0, -2), Ok(12));
}

#[test]
fn test_extreme_extents() {
    // The widest representable box with the largest even count still
    // resolves: the cells stay coarser than the level-1 thresholds only
    // when the box is small enough.
    assert_eq!(resolve_precision(u64::MAX, u64::MAX, 2_147_483_646), Ok(1));
    assert_eq!(resolve_precision(1, 1, 2_147_483_646), Ok(12));
    assert_eq!(resolve_precision(u64::MAX, u64::MAX, i32::MIN), Ok(12));
}
