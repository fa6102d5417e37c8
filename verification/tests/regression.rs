use linreg::{fit, r_squared, RegressionError};

#[test]
fn perfect_line_through_origin() {
    // x = [1,2,3,4], y = [2,4,6,8]: slope 2, intercept 0, R-squared 1.
    let x: Vec<i32> = vec![1, 2, 3, 4];
    let y: Vec<i32> = vec![2, 4, 6, 8];
    let line = fit(&x, &y).unwrap();
    assert_eq!(line.slope.num, 2 * line.slope.den);
    assert!(line.slope.den > 0);
    assert_eq!(line.intercept.num, 0);
    let r2 = r_squared(&x, &y).unwrap();
    assert_eq!(r2.num, r2.den);
}

#[test]
fn perfect_line_with_intercept() {
    // y = 2*x + 3 exactly.
    let x: Vec<i32> = vec![0, 1, 2, 5];
    let y: Vec<i32> = vec![3, 5, 7, 13];
    let line = fit(&x, &y).unwrap();
    assert_eq!(line.slope.num, 2 * line.slope.den);
    assert_eq!(line.intercept.num, 3 * line.intercept.den);
    let r2 = r_squared(&x, &y).unwrap();
    assert_eq!(r2.num, r2.den);
}

#[test]
fn noisy_point_changes_fit() {
    // x = [1,2,3,4], y = [1,2,3,10]: closed form gives slope 14/5 and
    // intercept -3, with R-squared strictly between 0 and 1.
    let x: Vec<i32> = vec![1, 2, 3, 4];
    let y: Vec<i32> = vec![1, 2, 3, 10];
    let line = fit(&x, &y).unwrap();
    assert_eq!(5 * line.slope.num, 14 * line.slope.den);
    assert_eq!(line.intercept.num, -3 * line.intercept.den);
    let r2 = r_squared(&x, &y).unwrap();
    assert!(r2.num > 0 && r2.num < r2.den);
    // Exactly 0.784 = 784/1000.
    assert_eq!(1000 * r2.num, 784 * r2.den);
}

#[test]
fn empty_dataset_is_rejected() {
    let x: Vec<i32> = vec![];
    let y: Vec<i32> = vec![];
    assert_eq!(fit(&x, &y), Err(RegressionError::EmptyInput));
    assert_eq!(r_squared(&x, &y), Err(RegressionError::EmptyInput));
}

#[test]
fn constant_x_is_rejected() {
    // All x equal: vertical line, slope undefined.
    let x: Vec<i32> = vec![5, 5, 5];
    let y: Vec<i32> = vec![1, 2, 3];
    assert_eq!(fit(&x, &y), Err(RegressionError::ZeroVarianceX));
    assert_eq!(r_squared(&x, &y), Err(RegressionError::ZeroVarianceX));
}

#[test]
fn constant_y_rejects_r_squared_only() {
    // All y equal: the fit exists (slope 0), but SST == 0 so R-squared
    // is undefined.
    let x: Vec<i32> = vec![1, 2, 3];
    let y: Vec<i32> = vec![7, 7, 7];
    let line = fit(&x, &y).unwrap();
    assert_eq!(line.slope.num, 0);
    assert_eq!(line.intercept.num, 7 * line.intercept.den);
    assert_eq!(r_squared(&x, &y), Err(RegressionError::ZeroVarianceY));
}

#[test]
fn permuting_rows_changes_nothing() {
    let x1: Vec<i32> = vec![1, 2, 3, 4];
    let y1: Vec<i32> = vec![1, 2, 3, 10];
    let x2: Vec<i32> = vec![4, 2, 1, 3];
    let y2: Vec<i32> = vec![10, 2, 1, 3];
    assert_eq!(fit(&x1, &y1).unwrap(), fit(&x2, &y2).unwrap());
    assert_eq!(r_squared(&x1, &y1).unwrap(), r_squared(&x2, &y2).unwrap());
}

#[test]
fn shifting_y_shifts_only_the_intercept() {
    let x: Vec<i32> = vec![1, 2, 3, 4];
    let y: Vec<i32> = vec![1, 2, 3, 10];
    let y_up: Vec<i32> = vec![101, 102, 103, 110];
    let a = fit(&x, &y).unwrap();
    let b = fit(&x, &y_up).unwrap();
    assert_eq!(a.slope, b.slope);
    assert_eq!(b.intercept.den, a.intercept.den);
    assert_eq!(b.intercept.num, a.intercept.num + 100 * a.intercept.den);
    assert_eq!(r_squared(&x, &y).unwrap(), r_squared(&x, &y_up).unwrap());
}

#[test]
fn extreme_values_overflow() {
    // Thousands of rows at the extremes of i32 push the intercept
    // computation past i128.
    let mut x: Vec<i32> = Vec::new();
    let mut y: Vec<i32> = Vec::new();
    for i in 0..3000 {
        x.push(if i % 2 == 0 { i32::MAX } else { i32::MIN });
        y.push(i32::MAX);
    }
    assert_eq!(fit(&x, &y), Err(RegressionError::Overflow));
}

#[test]
fn negative_slope_exact() {
    // y = -3*x + 12 exactly.
    let x: Vec<i32> = vec![-2, 0, 2];
    let y: Vec<i32> = vec![18, 12, 6];
    let line = fit(&x, &y).unwrap();
    assert_eq!(line.slope.num, -3 * line.slope.den);
    assert_eq!(line.intercept.num, 12 * line.intercept.den);
    let r2 = r_squared(&x, &y).unwrap();
    assert_eq!(r2.num, r2.den);
}
