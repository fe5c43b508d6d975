//! The contract every feature implements, and the shared precondition
//! check that runs before any feature-specific computation.

use vstd::prelude::*;
use crate::time_series::{TimeSeries, TimeSeriesModel, channel_model};

verus! {

/// Static descriptor of a feature's structural requirements: how many
/// values it outputs, how many observations it needs, which channels must
/// be populated, and whether the time channel must be sorted.
#[derive(Clone, Copy, Debug, PartialEq, Eq, Structural)]
pub struct EvaluatorInfo {
    pub size: usize,
    pub min_ts_length: usize,
    pub t_required: bool,
    pub m_required: bool,
    pub w_required: bool,
    pub sorting_required: bool,
}

/// Why an evaluation was rejected.  Every failure is detected by the shared
/// precondition check, before any feature-specific computation runs.
#[derive(Clone, Copy, Debug, PartialEq, Eq, Structural)]
pub enum EvaluatorError {
    /// The series holds fewer observations than the feature's declared
    /// minimum.
    ShortTimeSeries,
    /// The feature needs a sorted time channel and the time channel is not
    /// non-decreasing.
    UnsortedTimeSeries,
    /// A channel the feature requires is absent or empty.
    MissingChannel,
}

/// A channel fails a populated-channel requirement when it is absent or
/// holds no samples.
pub open spec fn channel_missing(c: Option<Seq<i64>>) -> bool {
    match c {
        Option::Some(s) => s.len() == 0,
        Option::None => true,
    }
}

/// Some channel the descriptor requires is absent or empty.
pub open spec fn missing_required_channel(info: EvaluatorInfo, ts: TimeSeriesModel) -> bool {
    ||| info.t_required && channel_missing(ts.t)
    ||| info.m_required && channel_missing(ts.m)
    ||| info.w_required && channel_missing(ts.w)
}

/// The outcome of the shared precondition check: the first failure in the
/// fixed order short series, unsorted time channel, missing channel — or
/// `None` when the series satisfies the descriptor.
pub open spec fn precondition_outcome(info: EvaluatorInfo, ts: TimeSeriesModel) -> Option<
    EvaluatorError,
> {
    if ts.len() < info.min_ts_length {
        Some(EvaluatorError::ShortTimeSeries)
    } else if info.sorting_required && !ts.time_non_decreasing() {
        Some(EvaluatorError::UnsortedTimeSeries)
    } else if missing_required_channel(info, ts) {
        Some(EvaluatorError::MissingChannel)
    } else {
        None
    }
}

/// The series satisfies every structural requirement of the descriptor.
pub open spec fn preconditions_hold(info: EvaluatorInfo, ts: TimeSeriesModel) -> bool {
    precondition_outcome(info, ts) is None
}

/// The result `evaluate` owes the caller: the first precondition failure as
/// an error, otherwise the feature's own value.
pub open spec fn evaluation_outcome(
    info: EvaluatorInfo,
    ts: TimeSeriesModel,
    value: Seq<i64>,
) -> Result<Seq<i64>, EvaluatorError> {
    match precondition_outcome(info, ts) {
        Some(e) => Err(e),
        None => Ok(value),
    }
}

/// The mathematical content of an evaluation result.
pub open spec fn result_model(r: Result<Vec<i64>, EvaluatorError>) -> Result<
    Seq<i64>,
    EvaluatorError,
> {
    match r {
        Ok(v) => Ok(v@),
        Err(e) => Err(e),
    }
}

/// Whether one channel, as handed out by the series, is absent or empty.
fn channel_missing_exec(c: &Option<Vec<i64>>) -> (r: bool)
    ensures
        r == channel_missing(channel_model(*c)),
{
    match c {
        Some(v) => v.len() == 0,
        None => true,
    }
}

/// The shared precondition check, implemented once and reused by every
/// feature: compares the series against the descriptor and reports the
/// first failure, in the fixed order short series, unsorted time channel,
/// missing channel.
pub fn check_preconditions(info: EvaluatorInfo, ts: &TimeSeries) -> (r: Option<EvaluatorError>)
    ensures
        r == precondition_outcome(info, ts@),
{
    if ts.length() < info.min_ts_length {
        Some(EvaluatorError::ShortTimeSeries)
    } else if info.sorting_required && !ts.time_sorted() {
        Some(EvaluatorError::UnsortedTimeSeries)
    } else if (info.t_required && channel_missing_exec(ts.t())) || (info.m_required
        && channel_missing_exec(ts.m())) || (info.w_required && channel_missing_exec(ts.w())) {
        Some(EvaluatorError::MissingChannel)
    } else {
        None
    }
}

/// The uniform contract of a feature.
///
/// A feature is a pure function of the series contents: `spec_value` is
/// that function, `spec_info` its structural descriptor, and `spec_names` /
/// `spec_descriptions` the per-output metadata.  `evaluate` is the one
/// entry point a caller needs: it runs the shared precondition check and
/// only then produces the feature's value, exactly `spec_info().size`
/// samples long.
pub trait FeatureEvaluator {
    /// The feature's structural descriptor, one immutable value per
    /// feature.
    spec fn spec_info(&self) -> EvaluatorInfo;

    /// The stable identifier of each output, in output order.
    spec fn spec_names(&self) -> Seq<Seq<char>>;

    /// The human-readable description of each output, in output order.
    spec fn spec_descriptions(&self) -> Seq<Seq<char>>;

    /// The feature's own computation, a pure function of the series
    /// contents; `evaluate` returns exactly this value whenever the
    /// preconditions hold.
    spec fn spec_value(&self, ts: TimeSeriesModel) -> Seq<i64>;

    /// The structural descriptor.
    fn info(&self) -> (r: EvaluatorInfo)
        ensures
            r == self.spec_info(),
    ;

    /// Stable identifiers for the outputs, one per output, in output
    /// order.
    fn names(&self) -> (r: Vec<String>)
        ensures
            r@.map_values(|s: String| s@) == self.spec_names(),
            r@.len() == self.spec_info().size,
    ;

    /// Human-readable descriptions of the outputs, one per output, in
    /// output order.
    fn descriptions(&self) -> (r: Vec<String>)
        ensures
            r@.map_values(|s: String| s@) == self.spec_descriptions(),
            r@.len() == self.spec_info().size,
    ;

    /// Evaluates the feature on one series: checks the series against the
    /// descriptor, then returns the feature's value.
    fn evaluate(&self, ts: &TimeSeries) -> (r: Result<Vec<i64>, EvaluatorError>)
        requires
            ts@.well_formed(),
        ensures
            result_model(r) == evaluation_outcome(self.spec_info(), ts@, self.spec_value(ts@)),
            preconditions_hold(self.spec_info(), ts@) ==> self.spec_value(ts@).len()
                == self.spec_info().size,
    ;
}

/// A series shorter than the descriptor's minimum is always rejected as
/// `ShortTimeSeries`, whatever value the feature would have computed: the
/// feature-specific computation is never consulted.
pub proof fn lemma_short_series_rejected(info: EvaluatorInfo, ts: TimeSeriesModel, value: Seq<i64>)
    requires
        ts.len() < info.min_ts_length,
    ensures
        evaluation_outcome(info, ts, value) == Err::<Seq<i64>, EvaluatorError>(
            EvaluatorError::ShortTimeSeries,
        ),
{
}

/// A series that is long enough but whose time channel breaks a required
/// sort order is always rejected as `UnsortedTimeSeries`, whatever value
/// the feature would have computed.
pub proof fn lemma_unsorted_series_rejected(
    info: EvaluatorInfo,
    ts: TimeSeriesModel,
    value: Seq<i64>,
)
    requires
        info.min_ts_length <= ts.len(),
        info.sorting_required,
        !ts.time_non_decreasing(),
    ensures
        evaluation_outcome(info, ts, value) == Err::<Seq<i64>, EvaluatorError>(
            EvaluatorError::UnsortedTimeSeries,
        ),
{
}

/// Evaluation is idempotent: the `evaluate` contract admits exactly one
/// result for a given feature and series, so two calls on the same
/// unmutated series yield identical output.
pub proof fn lemma_evaluate_deterministic<F: FeatureEvaluator>(
    f: &F,
    ts: TimeSeriesModel,
    r1: Result<Seq<i64>, EvaluatorError>,
    r2: Result<Seq<i64>, EvaluatorError>,
)
    requires
        r1 == evaluation_outcome(f.spec_info(), ts, f.spec_value(ts)),
        r2 == evaluation_outcome(f.spec_info(), ts, f.spec_value(ts)),
    ensures
        r1 == r2,
{
}

} // verus!
