use rtl_scanner::charts::{peak_hold, rescale};
use rtl_scanner::error::ValidationError;

fn finite(values: &[i64]) -> Vec<Option<i64>> {
    values.iter().map(|v| Some(*v)).collect()
}

#[test]
fn ramp_of_a_thousand_on_a_hundred_columns() {
    let ramp: Vec<Option<i64>> = (0..1000).map(Some).collect();
    let series = rescale(100, 1, &ramp).unwrap();
    assert_eq!(100, series.len());
    assert_eq!(Some(0), series[0]);
    assert_eq!(Some(1), series[99]);
}

#[test]
fn ramp_keeps_its_shape_on_a_tall_display() {
    let ramp: Vec<Option<i64>> = (0..1000).map(Some).collect();
    let series = rescale(100, 990, &ramp).unwrap();
    // the peaks are 9, 19, .., 999: a range of 990
    for (j, value) in series.iter().enumerate() {
        assert_eq!(Some(10 * j as i64), *value);
    }
}

#[test]
fn peak_of_every_column() {
    let data = finite(&[3, 1, 4, 1, 5, 9, 2, 6]);
    assert_eq!(finite(&[3, 4, 9, 6]), peak_hold(&data, 4));
    assert_eq!(finite(&[4, 9]), peak_hold(&data, 2));
    assert_eq!(finite(&[9]), peak_hold(&data, 1));
    assert_eq!(data, peak_hold(&data, 8));
    assert_eq!(Vec::<Option<i64>>::new(), peak_hold(&data, 0));
}

#[test]
fn columns_of_uneven_width() {
    // 7 values on 3 columns: value i lies in column i * 3 / 7, so 0..=2, 3..=4, 5..=6
    let data = finite(&[1, 2, 3, 40, 50, 600, 700]);
    assert_eq!(finite(&[3, 50, 700]), peak_hold(&data, 3));
}

#[test]
fn more_columns_than_values() {
    // 2 values on 4 columns: value 0 lies in column 0, value 1 in column 2
    let data = finite(&[5, 7]);
    assert_eq!(vec![Some(5), None, Some(7), None], peak_hold(&data, 4));
    assert_eq!(Ok(vec![Some(0), None, Some(10), None]), rescale(4, 10, &data));
}

#[test]
fn scaling_rounds_down() {
    // peaks 1, 3, 5, 7: (v - 1) * 10 / 6
    let data = finite(&[0, 1, 2, 3, 4, 5, 6, 7]);
    assert_eq!(Ok(finite(&[0, 3, 6, 10])), rescale(4, 10, &data));
}

#[test]
fn negative_powers() {
    let data = finite(&[-900, -300, -600, -450]);
    assert_eq!(Ok(finite(&[100, 0])), rescale(2, 100, &data));
    assert_eq!(Ok(finite(&[0, 100, 50, 75])), rescale(4, 100, &data));
}

#[test]
fn values_that_are_not_finite_are_left_out_of_the_range() {
    let data = vec![None, Some(-40), None, None, Some(-20), Some(-30)];
    assert_eq!(Ok(vec![Some(0), None, Some(8)]), rescale(3, 8, &data));
    assert_eq!(vec![Some(-40), None, Some(-20)], peak_hold(&data, 3));
}

#[test]
fn extremes_of_the_machine() {
    let data = vec![Some(i64::MIN), Some(0), Some(i64::MAX)];
    assert_eq!(
        Ok(vec![Some(0), Some(i32::MAX as i64 / 2), Some(i32::MAX as i64)]),
        rescale(3, i32::MAX, &data)
    );
}

#[test]
fn height_of_nothing() {
    let data = finite(&[1, 2, 3, 4]);
    assert_eq!(Ok(finite(&[0, 0])), rescale(2, 0, &data));
}

#[test]
fn refuses_a_display_without_columns() {
    let data = finite(&[1, 2, 3, 4]);
    assert_eq!(Err(ValidationError::OutOfRange), rescale(0, 10, &data));
    assert_eq!(Err(ValidationError::OutOfRange), rescale(-1, 10, &data));
    assert_eq!(Err(ValidationError::OutOfRange), rescale(2, -1, &data));
}

#[test]
fn refuses_a_flat_series() {
    assert_eq!(Err(ValidationError::Flat), rescale(2, 10, &finite(&[7, 7, 7, 7])));
    assert_eq!(Err(ValidationError::Flat), rescale(1, 10, &finite(&[1, 2, 3, 4])));
    assert_eq!(Err(ValidationError::Flat), rescale(2, 10, &vec![None, None, None, None]));
    assert_eq!(Err(ValidationError::Flat), rescale(2, 10, &vec![None, None, Some(3), None]));
    assert_eq!(Err(ValidationError::Flat), rescale(2, 10, &Vec::new()));
}

#[test]
fn same_arguments_same_series() {
    let data: Vec<Option<i64>> =
        (0..5000i64).map(|i| if i % 17 == 0 { None } else { Some((i * 7919) % 1013 - 500) }).collect();
    let once = rescale(321, 200, &data);
    let again = rescale(321, 200, &data.clone());
    assert!(once.is_ok());
    assert_eq!(once, again);
    assert_eq!(321, once.unwrap().len());
}

#[test]
fn series_fills_the_height() {
    let data: Vec<Option<i64>> = (0..777i64).map(|i| Some((i * i) % 101 - 50)).collect();
    let series = rescale(50, 64, &data).unwrap();
    assert_eq!(50, series.len());
    assert!(series.iter().all(|v| matches!(v, Some(x) if 0 <= *x && *x <= 64)));
    assert!(series.contains(&Some(0)));
    assert!(series.contains(&Some(64)));
}
