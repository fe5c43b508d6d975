//! The observation data a feature consumes: up to three parallel channels
//! (time, magnitude, weight) of integer samples.

use vstd::prelude::*;

verus! {

/// Mathematical content of a [`TimeSeries`]: each channel is either absent
/// or a sequence of samples.
pub ghost struct TimeSeriesModel {
    pub t: Option<Seq<i64>>,
    pub m: Option<Seq<i64>>,
    pub w: Option<Seq<i64>>,
}

/// A sequence is non-decreasing: no later sample is smaller than an
/// earlier one.
pub open spec fn non_decreasing(s: Seq<i64>) -> bool {
    forall|i: int, j: int| 0 <= i <= j < s.len() ==> s[i] <= s[j]
}

/// The mathematical content of one channel argument.
pub open spec fn channel_model(c: Option<Vec<i64>>) -> Option<Seq<i64>> {
    match c {
        Option::Some(v) => Option::Some(v@),
        Option::None => Option::None,
    }
}

impl TimeSeriesModel {
    /// The number of observations: the common length of the populated
    /// channels, or zero when none is populated.
    pub open spec fn len(self) -> nat {
        if self.t is Some {
            self.t->0.len()
        } else if self.m is Some {
            self.m->0.len()
        } else if self.w is Some {
            self.w->0.len()
        } else {
            0
        }
    }

    /// Every channel that is present holds the same number of samples.
    pub open spec fn well_formed(self) -> bool {
        &&& (self.t matches Some(s) ==> s.len() == self.len())
        &&& (self.m matches Some(s) ==> s.len() == self.len())
        &&& (self.w matches Some(s) ==> s.len() == self.len())
    }

    /// The time channel is non-decreasing; vacuously true when absent.
    pub open spec fn time_non_decreasing(self) -> bool {
        self.t matches Some(s) ==> non_decreasing(s)
    }
}

/// A validated light-curve: parallel channels of time, magnitude and weight
/// samples.  All present channels have the same length; the constructor
/// enforces this once, so features never re-check it.
pub struct TimeSeries {
    t: Option<Vec<i64>>,
    m: Option<Vec<i64>>,
    w: Option<Vec<i64>>,
}

impl View for TimeSeries {
    type V = TimeSeriesModel;

    closed spec fn view(&self) -> TimeSeriesModel {
        TimeSeriesModel {
            t: channel_model(self.t),
            m: channel_model(self.m),
            w: channel_model(self.w),
        }
    }
}

impl TimeSeries {
    /// Builds a series from its channels.  Rejects, with `None`, any
    /// combination in which two present channels differ in length; the
    /// returned series is always well formed.
    pub fn new(t: Option<Vec<i64>>, m: Option<Vec<i64>>, w: Option<Vec<i64>>) -> (r: Option<
        TimeSeries,
    >)
        ensures
            ({
                let model = TimeSeriesModel {
                    t: channel_model(t),
                    m: channel_model(m),
                    w: channel_model(w),
                };
                &&& r is Some <==> model.well_formed()
                &&& (r matches Some(ts) ==> ts@ == model)
            }),
    {
        let n: usize = if let Some(v) = &t {
            v.len()
        } else if let Some(v) = &m {
            v.len()
        } else if let Some(v) = &w {
            v.len()
        } else {
            0
        };
        let ok_t = match &t {
            Some(v) => v.len() == n,
            None => true,
        };
        let ok_m = match &m {
            Some(v) => v.len() == n,
            None => true,
        };
        let ok_w = match &w {
            Some(v) => v.len() == n,
            None => true,
        };
        if ok_t && ok_m && ok_w {
            Some(TimeSeries { t, m, w })
        } else {
            None
        }
    }

    /// The number of observations.
    pub fn length(&self) -> (n: usize)
        ensures
            n == self@.len(),
    {
        if let Some(v) = &self.t {
            v.len()
        } else if let Some(v) = &self.m {
            v.len()
        } else if let Some(v) = &self.w {
            v.len()
        } else {
            0
        }
    }

    /// Read access to the time channel.
    pub fn t(&self) -> (r: &Option<Vec<i64>>)
        ensures
            channel_model(*r) == self@.t,
    {
        &self.t
    }

    /// Read access to the magnitude channel.
    pub fn m(&self) -> (r: &Option<Vec<i64>>)
        ensures
            channel_model(*r) == self@.m,
    {
        &self.m
    }

    /// Read access to the weight channel.
    pub fn w(&self) -> (r: &Option<Vec<i64>>)
        ensures
            channel_model(*r) == self@.w,
    {
        &self.w
    }

    /// One sample of the time channel.
    pub fn time_sample(&self, i: usize) -> (r: i64)
        requires
            self@.t is Some,
            i < self@.t->0.len(),
        ensures
            r == self@.t->0[i as int],
    {
        match &self.t {
            Some(v) => v[i],
            None => unreached(),
        }
    }

    /// Whether the time channel is non-decreasing; a series without a time
    /// channel passes vacuously.
    pub fn time_sorted(&self) -> (r: bool)
        ensures
            r == self@.time_non_decreasing(),
    {
        match &self.t {
            None => true,
            Some(v) => {
                let mut k: usize = 1;
                while k < v.len()
                    invariant
                        self@.t == Some(v@),
                        1 <= k,
                        k <= v.len() || v.len() == 0,
                        forall|i: int, j: int| 0 <= i <= j < k && j < v.len() ==> v@[i] <= v@[j],
                    decreases v.len() - k,
                {
                    if v[k - 1] > v[k] {
                        proof {
                            assert(self@.t->0 == v@);
                            assert(self@.t->0[k - 1] > self@.t->0[k as int]);
                        }
                        return false;
                    }
                    k = k + 1;
                }
                true
            },
        }
    }
}

} // verus!
