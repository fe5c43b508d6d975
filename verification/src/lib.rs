//! Feature-evaluation protocol for light-curve time series.
//!
//! A light curve is held as a [`time_series::TimeSeries`]: up to three
//! parallel channels of integer samples (time, magnitude, weight).  Every
//! feature implements the [`evaluator::FeatureEvaluator`] contract: it
//! declares its structural requirements in an [`evaluator::EvaluatorInfo`],
//! and its `evaluate` entry point checks those requirements against the
//! series before running the feature's own pure computation.
//! [`duration::Duration`] is the simplest concrete feature: the span between
//! the first and the last time sample.

pub mod duration;
pub mod evaluator;
pub mod time_series;
