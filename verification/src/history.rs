//! Fixed-capacity history of one metric on one device.
//!
//! Every successful tick appends one sample per device per metric; once the
//! series is full the oldest sample is evicted, so the series always holds
//! the most recent samples in arrival order.

use std::collections::VecDeque;
use vstd::prelude::*;

verus! {

/// Number of samples a series retains: one minute of charting at one tick per second.
pub const HISTORY_CAPACITY: usize = 60;

/// What one append leaves of a series: the sample goes to the back, and the
/// oldest samples are evicted from the front when the result would exceed the
/// capacity.
pub open spec fn series_roll(s: Seq<u64>, v: u64) -> Seq<u64> {
    let grown = s.push(v);
    if grown.len() <= HISTORY_CAPACITY {
        grown
    } else {
        grown.subrange(grown.len() - HISTORY_CAPACITY, grown.len() as int)
    }
}

/// The series left behind after appending `samples`, one by one in order,
/// to an empty series.
pub open spec fn series_after(samples: Seq<u64>) -> Seq<u64>
    decreases samples.len(),
{
    if samples.len() == 0 {
        Seq::empty()
    } else {
        series_roll(series_after(samples.drop_last()), samples.last())
    }
}

/// Index of the oldest sample of `samples` still retained after all of them
/// have been appended.
pub open spec fn retained_from(samples: Seq<u64>) -> int {
    if samples.len() <= HISTORY_CAPACITY {
        0
    } else {
        samples.len() - HISTORY_CAPACITY
    }
}

/// One bounded series of samples, oldest first, on a ring structure so that
/// eviction from the front is O(1).
pub struct HistorySeries {
    values: VecDeque<u64>,
}

impl View for HistorySeries {
    type V = Seq<u64>;

    closed spec fn view(&self) -> Seq<u64> {
        self.values@
    }
}

impl HistorySeries {
    /// The capacity bound that every append re-establishes.
    pub open spec fn wf(&self) -> bool {
        self@.len() <= HISTORY_CAPACITY
    }

    pub fn new() -> (r: HistorySeries)
        ensures
            r.wf(),
            r@ == Seq::<u64>::empty(),
    {
        HistorySeries { values: VecDeque::new() }
    }

    pub fn len(&self) -> (r: usize)
        ensures
            r == self@.len(),
    {
        self.values.len()
    }

    /// The samples, oldest first, for charting.
    pub fn values(&self) -> (r: Vec<u64>)
        ensures
            r@ == self@,
    {
        let mut r: Vec<u64> = Vec::new();
        let mut i: usize = 0;
        while i < self.values.len()
            invariant
                0 <= i <= self@.len(),
                r@ == self@.subrange(0, i as int),
            decreases self@.len() - i,
        {
            r.push(self.values[i]);
            proof {
                assert(r@ =~= self@.subrange(0, i as int + 1));
            }
            i += 1;
        }
        proof {
            assert(self@.subrange(0, self@.len() as int) =~= self@);
        }
        r
    }

    /// Append one sample, evicting the oldest if the series is full.
    pub fn append(&mut self, v: u64)
        requires
            old(self).wf(),
        ensures
            final(self).wf(),
            final(self)@ == series_roll(old(self)@, v),
    {
        if self.values.len() == HISTORY_CAPACITY {
            let _evicted = self.values.pop_front();
        }
        self.values.push_back(v);
        proof {
            assert(self@ =~= series_roll(old(self)@, v));
        }
    }
}

/// FIFO law: after appending any `samples` to an empty series, the series is
/// exactly the most recent `min(samples.len(), HISTORY_CAPACITY)` samples in
/// arrival order; the oldest is always the first evicted.
pub proof fn lemma_series_after_window(samples: Seq<u64>)
    ensures
        series_after(samples) == samples.subrange(retained_from(samples), samples.len() as int),
    decreases samples.len(),
{
    if samples.len() == 0 {
        assert(series_after(samples) =~= samples.subrange(0, 0));
    } else {
        let head = samples.drop_last();
        lemma_series_after_window(head);
        assert(series_after(samples) =~= samples.subrange(
            retained_from(samples),
            samples.len() as int,
        ));
    }
}

/// Length law: after `T` appends the series holds `min(T, HISTORY_CAPACITY)`
/// samples.
pub proof fn lemma_series_after_len(samples: Seq<u64>)
    ensures
        series_after(samples).len() == if samples.len() <= HISTORY_CAPACITY {
            samples.len()
        } else {
            HISTORY_CAPACITY as nat
        },
{
    lemma_series_after_window(samples);
}

} // verus!
