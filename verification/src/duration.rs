//! Time-series duration: the span between the first and the last time
//! sample.  The simplest concrete feature of the catalog, kept as a
//! canonical minimal implementer of the evaluator contract.

use vstd::prelude::*;
use crate::evaluator::{
    EvaluatorError, EvaluatorInfo, FeatureEvaluator, check_preconditions, evaluation_outcome,
    preconditions_hold, result_model,
};
use crate::time_series::{TimeSeries, TimeSeriesModel};

verus! {

/// Duration's structural descriptor: one output, at least one observation,
/// only the time channel, sorted.
pub open spec fn duration_info() -> EvaluatorInfo {
    EvaluatorInfo {
        size: 1,
        min_ts_length: 1,
        t_required: true,
        m_required: false,
        w_required: false,
        sorting_required: true,
    }
}

/// The duration of a time channel: its last sample minus its first,
/// saturating at the bounds of the sample type, and zero for an empty
/// channel.
pub open spec fn duration_value(t: Seq<i64>) -> i64 {
    if t.len() == 0 {
        0
    } else if t.last() - t.first() > i64::MAX {
        i64::MAX
    } else if t.last() - t.first() < i64::MIN {
        i64::MIN
    } else {
        (t.last() - t.first()) as i64
    }
}

/// The time channel of a series, or the empty sequence when absent.
pub open spec fn time_channel_or_empty(ts: TimeSeriesModel) -> Seq<i64> {
    match ts.t {
        Option::Some(s) => s,
        Option::None => Seq::empty(),
    }
}

/// Time-series duration.
///
/// The feature outputs one value, `t[N-1] - t[0]`: the time spanned by the
/// observations.  It needs at least one observation and a sorted time
/// channel; with exactly one observation it outputs zero.
#[derive(Clone, Copy, Debug, Default)]
pub struct Duration {}

impl Duration {
    /// A duration feature; it carries no parameters.
    pub fn new() -> (r: Self)
        ensures
            r == (Duration {  }),
    {
        Self {  }
    }

    /// The feature's documentation text: its formula and what it requires
    /// of a series.
    pub fn doc() -> (r: &'static str)
        ensures
            r@ == duration_doc(),
    {
        "Time-series duration\n\n$$\nt_{N-1} - t_0.\n$$\n\n- Depends on: **time**\n- Minimum number of observations: **1**\n- Number of features: **1**\n"
    }
}

/// The documentation text of [`Duration::doc`].
pub open spec fn duration_doc() -> Seq<char> {
    "Time-series duration\n\n$$\nt_{N-1} - t_0.\n$$\n\n- Depends on: **time**\n- Minimum number of observations: **1**\n- Number of features: **1**\n"@
}

impl FeatureEvaluator for Duration {
    open spec fn spec_info(&self) -> EvaluatorInfo {
        duration_info()
    }

    open spec fn spec_names(&self) -> Seq<Seq<char>> {
        seq!["ANTIFEATURE_duration"@]
    }

    open spec fn spec_descriptions(&self) -> Seq<Seq<char>> {
        seq!["time-series duration"@]
    }

    open spec fn spec_value(&self, ts: TimeSeriesModel) -> Seq<i64> {
        seq![duration_value(time_channel_or_empty(ts))]
    }

    fn info(&self) -> (r: EvaluatorInfo) {
        EvaluatorInfo {
            size: 1,
            min_ts_length: 1,
            t_required: true,
            m_required: false,
            w_required: false,
            sorting_required: true,
        }
    }

    fn names(&self) -> (r: Vec<String>) {
        let mut v: Vec<String> = Vec::new();
        v.push(String::from_str("ANTIFEATURE_duration"));
        proof {
            assert(v@.map_values(|s: String| s@) =~~= self.spec_names());
        }
        v
    }

    fn descriptions(&self) -> (r: Vec<String>) {
        let mut v: Vec<String> = Vec::new();
        v.push(String::from_str("time-series duration"));
        proof {
            assert(v@.map_values(|s: String| s@) =~~= self.spec_descriptions());
        }
        v
    }

    fn evaluate(&self, ts: &TimeSeries) -> (r: Result<Vec<i64>, EvaluatorError>) {
        if let Some(e) = check_preconditions(self.info(), ts) {
            return Err(e);
        }
        let n = ts.length();
        let first = ts.time_sample(0);
        let last = ts.time_sample(n - 1);
        let span: i128 = last as i128 - first as i128;
        let out: i64 = if span > i64::MAX as i128 {
            i64::MAX
        } else if span < i64::MIN as i128 {
            i64::MIN
        } else {
            span as i64
        };
        let mut v: Vec<i64> = Vec::new();
        v.push(out);
        proof {
            let tc = time_channel_or_empty(ts@);
            assert(tc == ts@.t->0);
            assert(tc.len() == ts@.len());
            assert(tc.last() == tc[n - 1] && tc.first() == tc[0]);
            assert(out == duration_value(tc));
            assert(v@ =~= self.spec_value(ts@));
        }
        Ok(v)
    }
}

/// Exactness of Duration: on every well-formed series that meets its
/// preconditions and whose time span fits the sample type, evaluation is
/// exactly `[t[N-1] - t[0]]`.
pub proof fn lemma_duration_exact(ts: TimeSeriesModel)
    requires
        ts.well_formed(),
        preconditions_hold(duration_info(), ts),
        ts.t->0.last() - ts.t->0.first() <= i64::MAX,
    ensures
        evaluation_outcome(duration_info(), ts, (Duration {  }).spec_value(ts)) == Ok::<
            Seq<i64>,
            EvaluatorError,
        >(seq![(ts.t->0.last() - ts.t->0.first()) as i64]),
{
    let s = ts.t->0;
    assert(s[0] <= s[s.len() - 1]);
    assert((Duration {  }).spec_value(ts) =~= seq![(s.last() - s.first()) as i64]);
}

} // verus!
