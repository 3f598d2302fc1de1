//! Running sum/count accumulator whose average is a destructive read:
//! computing it resets the accumulator, giving a "since last scrape" mean.
//! This is deliberately different from `SampleSet`'s retained window and the
//! two must not be unified: the rolling median smooths a retained window,
//! while this gives a clean per-interval mean for noisier, higher-rate
//! readings such as current draw.

use vstd::prelude::*;
use vstd::arithmetic::div_mod::lemma_multiply_divide_le;

verus! {

/// The average of a sum of milli values over a count, truncated toward
/// zero; 0 when nothing has been recorded.
pub open spec fn spec_avg(sum: int, count: int) -> int {
    if count == 0 {
        0
    } else if sum >= 0 {
        sum / count
    } else {
        -((-sum) / count)
    }
}

/// Sum and count of the samples recorded since the last read.
pub struct AverageSet {
    sum: i128,
    count: u64,
}

impl AverageSet {
    /// The sum of the samples recorded since the last read.
    pub closed spec fn spec_sum(self) -> int {
        self.sum as int
    }

    /// How many samples were recorded since the last read.
    pub closed spec fn spec_count(self) -> int {
        self.count as int
    }

    /// The sum stays within `count` samples' worth of the sample range, so
    /// it never overflows and the average always fits a sample.
    pub closed spec fn wf(self) -> bool {
        (self.count as int) * (i64::MIN as int) <= self.sum as int <= (self.count as int) * (
        i64::MAX as int)
    }

    pub fn new() -> (r: AverageSet)
        ensures
            r.wf(),
            r.spec_sum() == 0,
            r.spec_count() == 0,
    {
        AverageSet { sum: 0, count: 0 }
    }

    /// Accumulate one sample; never fails.
    pub fn record(&mut self, v: i64)
        requires
            old(self).wf(),
            old(self).spec_count() < u64::MAX,
        ensures
            final(self).wf(),
            final(self).spec_sum() == old(self).spec_sum() + v,
            final(self).spec_count() == old(self).spec_count() + 1,
    {
        self.sum = self.sum + (v as i128);
        self.count = self.count + 1;
    }

    /// The mean of the samples recorded since the last read, truncated
    /// toward zero, or 0 if there were none; reading resets the
    /// accumulator, so an immediately repeated call returns 0.
    pub fn avg(&mut self) -> (r: i64)
        requires
            old(self).wf(),
        ensures
            final(self).wf(),
            r == spec_avg(old(self).spec_sum(), old(self).spec_count()),
            final(self).spec_sum() == 0,
            final(self).spec_count() == 0,
    {
        if self.count == 0 {
            self.sum = 0;
            return 0;
        }
        let count = self.count;
        let neg = self.sum < 0;
        let mag: u128 = if neg {
            (-self.sum) as u128
        } else {
            self.sum as u128
        };
        let q: u128 = mag / (count as u128);
        proof {
            if neg {
                lemma_multiply_divide_le(mag as int, count as int, -(i64::MIN as int));
            } else {
                lemma_multiply_divide_le(mag as int, count as int, i64::MAX as int);
            }
        }
        let r: i64 = if neg {
            (-(q as i128)) as i64
        } else {
            q as i64
        };
        self.sum = 0;
        self.count = 0;
        r
    }
}

/// Immediately after a read (or at creation) the accumulator holds nothing,
/// so the next read returns 0.
pub proof fn lemma_avg_after_reset()
    ensures
        spec_avg(0, 0) == 0,
{
}

} // verus!
