use vstd::prelude::*;

verus! {

/// What a counter reports: nothing yet, or the mean as the exact fraction
/// `sum / count` with a spread of zero.
#[derive(Clone, Copy, Debug, PartialEq, Eq, Structural)]
pub enum Reading {
    NoData,
    Mean { sum: u64, count: u64 },
}

/// A running-mean accumulator: the sum of the samples and how many there were.
#[derive(Clone, Copy, Debug, PartialEq, Eq, Structural)]
pub struct Counter {
    pub value: u64,
    pub samples: u64,
}

impl Counter {
    /// A counter with no samples.
    pub open spec fn empty() -> Counter {
        Counter { value: 0, samples: 0 }
    }

    /// Whether `v` can be added without leaving the range of `u64`.
    pub open spec fn can_sample(self, v: u64) -> bool {
        self.value + v <= u64::MAX && self.samples + 1 <= u64::MAX
    }

    /// The counter after one sample `v`.
    pub open spec fn sampled(self, v: u64) -> Counter {
        Counter { value: (self.value + v) as u64, samples: (self.samples + 1) as u64 }
    }

    /// Whether every sample of `vs`, taken in order, fits.
    pub open spec fn can_sample_all(self, vs: Seq<u64>) -> bool
        decreases vs.len(),
    {
        if vs.len() == 0 {
            true
        } else {
            self.can_sample(vs[0]) && self.sampled(vs[0]).can_sample_all(vs.drop_first())
        }
    }

    /// The counter after the samples `vs`, taken in order.
    pub open spec fn sampled_all(self, vs: Seq<u64>) -> Counter
        decreases vs.len(),
    {
        if vs.len() == 0 {
            self
        } else {
            self.sampled(vs[0]).sampled_all(vs.drop_first())
        }
    }

    /// What `get` reports for this counter.
    pub open spec fn reading(self) -> Reading {
        if self.samples == 0 {
            Reading::NoData
        } else {
            Reading::Mean { sum: self.value, count: self.samples }
        }
    }

    pub fn new() -> (r: Counter)
        ensures
            r == Counter::empty(),
    {
        Counter { value: 0, samples: 0 }
    }

    /// Adds `v` to the sum and counts one more sample.
    pub fn sample(&mut self, v: u64)
        requires
            old(self).can_sample(v),
        ensures
            *final(self) == old(self).sampled(v),
    {
        self.value = self.value + v;
        self.samples = self.samples + 1;
    }

    /// The mean so far, or `NoData` before the first sample.
    pub fn get(&self) -> (r: Reading)
        ensures
            r == self.reading(),
    {
        if self.samples == 0 {
            Reading::NoData
        } else {
            Reading::Mean { sum: self.value, count: self.samples }
        }
    }
}

/// Taking `n` samples adds exactly `n` to the sample count, whatever the values.
pub proof fn lemma_sample_count(c: Counter, vs: Seq<u64>)
    requires
        c.can_sample_all(vs),
    ensures
        c.sampled_all(vs).samples == c.samples + vs.len(),
    decreases vs.len(),
{
    if vs.len() > 0 {
        lemma_sample_count(c.sampled(vs[0]), vs.drop_first());
    }
}

} // verus!
