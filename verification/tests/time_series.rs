use light_curve_feature::time_series::TimeSeries;

#[test]
fn parallel_channels_are_accepted() {
    let ts = TimeSeries::new(
        Some(vec![0, 1, 2]),
        Some(vec![10, 11, 12]),
        Some(vec![1, 1, 1]),
    );
    let ts = ts.unwrap();
    assert_eq!(ts.length(), 3);
}

#[test]
fn mismatched_channels_are_refused() {
    let ts = TimeSeries::new(Some(vec![0, 1, 2]), Some(vec![10, 11]), None);
    assert!(ts.is_none());
}

#[test]
fn length_without_time_channel() {
    let ts = TimeSeries::new(None, Some(vec![10, 11]), None).unwrap();
    assert_eq!(ts.length(), 2);
}

#[test]
fn empty_series_has_length_zero() {
    let ts = TimeSeries::new(None, None, None).unwrap();
    assert_eq!(ts.length(), 0);
}

#[test]
fn sortedness_is_reported() {
    let sorted = TimeSeries::new(Some(vec![1, 1, 2, 9]), None, None).unwrap();
    assert!(sorted.time_sorted());
    let unsorted = TimeSeries::new(Some(vec![1, 3, 2]), None, None).unwrap();
    assert!(!unsorted.time_sorted());
}

#[test]
fn channels_are_readable() {
    let ts = TimeSeries::new(Some(vec![0, 4]), Some(vec![17, 18]), None).unwrap();
    assert_eq!(ts.t().as_deref(), Some(&[0, 4][..]));
    assert_eq!(ts.m().as_deref(), Some(&[17, 18][..]));
    assert!(ts.w().is_none());
}
