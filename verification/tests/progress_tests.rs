use secure_eraser::progress::progress_fraction;

fn percent(parts: (u64, u64)) -> f64 {
    100.0 * parts.0 as f64 / parts.1 as f64
}

#[test]
fn fraction_has_exact_values() {
    // Half way through the only pass of a four-block target.
    assert_eq!(progress_fraction(0, 2, 1, 4), (2, 4));
    assert_eq!(percent(progress_fraction(0, 2, 1, 4)), 50.0);
    // Start of the second of three passes.
    assert_eq!(progress_fraction(1, 0, 3, 4), (4, 12));
}

#[test]
fn fraction_is_non_decreasing_in_run_order() {
    let total_passes = 3u64;
    let total_blocks = 4u64;
    let mut last = -1.0f64;
    for pass in 0..total_passes {
        for blocks_done in 0..=total_blocks {
            let p = percent(progress_fraction(pass, blocks_done, total_passes, total_blocks));
            assert!(p >= last);
            last = p;
        }
    }
}

#[test]
fn fraction_reaches_exactly_one_hundred() {
    let parts = progress_fraction(2, 4, 3, 4);
    assert_eq!(parts.0, parts.1);
    assert_eq!(percent(parts), 100.0);
}
