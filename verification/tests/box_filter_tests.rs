use recode::box_filter::moving_window_sums;

/// Moving average of one line, computed from the verified window sums.
fn line_means(values: &Vec<i64>, radius: usize) -> Vec<f64> {
    assert!(radius < values.len());
    let (sums, counts) = moving_window_sums(values, radius, 1 << 32);
    sums.iter()
        .zip(counts.iter())
        .map(|(s, c)| *s as f64 / *c as f64)
        .collect()
}

#[test]
fn test_moving_sums_ramp() {
    let values: Vec<i64> = vec![0, 0, 0, 1, 1, 1, 2, 2, 2];
    let (sums, counts) = moving_window_sums(&values, 1, 2);
    assert_eq!(sums, vec![0, 0, 1, 2, 3, 4, 5, 6, 4]);
    assert_eq!(counts, vec![2, 3, 3, 3, 3, 3, 3, 3, 2]);
}

#[test]
fn test_moving_sums_radius_zero() {
    let values: Vec<i64> = vec![5, -7, 3];
    let (sums, counts) = moving_window_sums(&values, 0, 7);
    assert_eq!(sums, values);
    assert_eq!(counts, vec![1, 1, 1]);
}

#[test]
fn test_moving_sums_window_covers_line() {
    let values: Vec<i64> = vec![1, 2, 4];
    let (sums, counts) = moving_window_sums(&values, 2, 4);
    assert_eq!(sums, vec![7, 7, 7]);
    assert_eq!(counts, vec![3, 3, 3]);
}

#[test]
fn test_kernel() {
    // Golden scenario: a 3-wide, 3-high grid [0,0,0, 1,1,1, 2,2,2], radius 1,
    // filtered with the kernel (moving average) itself. The horizontal pass
    // leaves each constant row unchanged; the vertical pass over each column
    // [0, 1, 2] yields [0.5, 1.0, 1.5].
    let grid: Vec<i64> = vec![0, 0, 0, 1, 1, 1, 2, 2, 2];
    let width = 3;
    let height = grid.len() / width;

    let mut horizontal: Vec<f64> = Vec::new();
    for row in 0..height {
        let line: Vec<i64> = grid[row * width..(row + 1) * width].to_vec();
        horizontal.extend(line_means(&line, 1));
    }
    assert_eq!(horizontal, vec![0.0, 0.0, 0.0, 1.0, 1.0, 1.0, 2.0, 2.0, 2.0]);

    let mut filtered = vec![0.0; grid.len()];
    for col in 0..width {
        // The horizontal means are whole numbers here, so the vertical pass
        // can run through the integer kernel exactly.
        let column: Vec<i64> = (0..height).map(|r| horizontal[r * width + col] as i64).collect();
        for (r, m) in line_means(&column, 1).iter().enumerate() {
            filtered[r * width + col] = *m;
        }
    }
    let expected = vec![0.5, 0.5, 0.5, 1.0, 1.0, 1.0, 1.5, 1.5, 1.5];
    assert_eq!(filtered, expected);
}

#[test]
fn test_asym() {
    // Same scenario on a non-square 4-wide, 3-high grid.
    let grid: Vec<i64> = vec![0, 0, 0, 0, 1, 1, 1, 1, 2, 2, 2, 2];
    let width = 4;
    let height = grid.len() / width;

    let mut horizontal: Vec<f64> = Vec::new();
    for row in 0..height {
        let line: Vec<i64> = grid[row * width..(row + 1) * width].to_vec();
        horizontal.extend(line_means(&line, 1));
    }

    let mut filtered = vec![0.0; grid.len()];
    for col in 0..width {
        let column: Vec<i64> = (0..height).map(|r| horizontal[r * width + col] as i64).collect();
        for (r, m) in line_means(&column, 1).iter().enumerate() {
            filtered[r * width + col] = *m;
        }
    }
    let expected = vec![0.5, 0.5, 0.5, 0.5, 1.0, 1.0, 1.0, 1.0, 1.5, 1.5, 1.5, 1.5];
    assert_eq!(filtered, expected);
}
