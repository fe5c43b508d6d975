use light_curve_feature::duration::Duration;
use light_curve_feature::evaluator::{EvaluatorError, FeatureEvaluator};
use light_curve_feature::time_series::TimeSeries;

fn series(t: Vec<i64>) -> TimeSeries {
    TimeSeries::new(Some(t), None, None).unwrap()
}

#[test]
fn five_point_series_spans_four() {
    let ts = series(vec![0, 1, 2, 3, 4]);
    let r = Duration::new().evaluate(&ts);
    assert_eq!(r, Ok(vec![4]));
}

#[test]
fn single_observation_spans_zero() {
    let ts = series(vec![25]);
    let r = Duration::new().evaluate(&ts);
    assert_eq!(r, Ok(vec![0]));
}

#[test]
fn empty_series_is_short() {
    let ts = series(vec![]);
    let r = Duration::new().evaluate(&ts);
    assert_eq!(r, Err(EvaluatorError::ShortTimeSeries));
}

#[test]
fn unsorted_series_is_rejected() {
    let ts = series(vec![3, 1, 2]);
    let r = Duration::new().evaluate(&ts);
    assert_eq!(r, Err(EvaluatorError::UnsortedTimeSeries));
}

#[test]
fn missing_time_channel_is_rejected() {
    let ts = TimeSeries::new(None, Some(vec![7, 8]), None).unwrap();
    let r = Duration::new().evaluate(&ts);
    assert_eq!(r, Err(EvaluatorError::MissingChannel));
}

#[test]
fn negative_times_span_exactly() {
    let ts = series(vec![-30, -10, 15]);
    let r = Duration::new().evaluate(&ts);
    assert_eq!(r, Ok(vec![45]));
}

#[test]
fn overlong_span_saturates() {
    let ts = series(vec![i64::MIN, 0, i64::MAX]);
    let r = Duration::new().evaluate(&ts);
    assert_eq!(r, Ok(vec![i64::MAX]));
}

#[test]
fn evaluate_twice_is_identical() {
    let ts = series(vec![2, 3, 5, 8]);
    let d = Duration::new();
    let first = d.evaluate(&ts);
    let second = d.evaluate(&ts);
    assert_eq!(first, second);
    assert_eq!(first, Ok(vec![6]));
}

#[test]
fn info_matches_declaration() {
    let info = Duration::new().info();
    assert_eq!(info.size, 1);
    assert_eq!(info.min_ts_length, 1);
    assert!(info.t_required);
    assert!(!info.m_required);
    assert!(!info.w_required);
    assert!(info.sorting_required);
}

#[test]
fn names_and_descriptions_match_size() {
    let d = Duration::new();
    let names = d.names();
    let descriptions = d.descriptions();
    assert_eq!(names.len(), d.info().size);
    assert_eq!(descriptions.len(), d.info().size);
    assert_eq!(names[0], "ANTIFEATURE_duration");
    assert_eq!(descriptions[0], "time-series duration");
}

#[test]
fn names_are_stable_across_calls() {
    let d = Duration::new();
    assert_eq!(d.names(), d.names());
    assert_eq!(d.descriptions(), d.descriptions());
}

#[test]
fn doc_states_the_formula() {
    let doc = Duration::doc();
    assert!(doc.contains("t_{N-1} - t_0"));
    assert!(doc.contains("time"));
}
