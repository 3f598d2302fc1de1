//! Cumulative-bucket histogram with running sum and count, using the
//! Prometheus `le` semantics: every bucket whose upper bound is at least the
//! sampled value is incremented, and the highest bound is infinite so that
//! every sample is captured.  Buckets are never reset.

use vstd::prelude::*;

verus! {

/// A bucket's upper bound: a finite milli value, or the overflow bound that
/// captures every sample and renders as `+Inf`.
#[derive(Clone, Copy, PartialEq, Eq, Structural, Debug)]
pub enum Bound {
    Finite(i64),
    Inf,
}

/// Whether a sample falls into the bucket with the given upper bound.
pub open spec fn le_bound(v: i64, b: Bound) -> bool {
    match b {
        Bound::Finite(x) => v <= x,
        Bound::Inf => true,
    }
}

/// Ordering of bucket bounds, with the infinite bound greatest.
pub open spec fn bound_le(a: Bound, b: Bound) -> bool {
    match (a, b) {
        (Bound::Finite(x), Bound::Finite(y)) => x <= y,
        (Bound::Finite(_), Bound::Inf) => true,
        (Bound::Inf, Bound::Inf) => true,
        (Bound::Inf, Bound::Finite(_)) => false,
    }
}

/// Whether a sample falls into the bucket with the given upper bound.
pub fn bound_holds(v: i64, b: Bound) -> (r: bool)
    ensures
        r == le_bound(v, b),
{
    match b {
        Bound::Finite(x) => v <= x,
        Bound::Inf => true,
    }
}

/// One cumulative bucket: its upper bound and how many samples were at or
/// below that bound.
#[derive(Clone, Copy)]
pub struct Bucket {
    pub le: Bound,
    pub count: u64,
}

/// Fixed cumulative-bucket histogram with running sum and total count.
pub struct Histogram {
    buckets: Vec<Bucket>,
    sum: i128,
    count: u64,
}

impl Histogram {
    pub closed spec fn spec_buckets(self) -> Seq<Bucket> {
        self.buckets@
    }

    /// The sum of all samples ever recorded.
    pub closed spec fn spec_sum(self) -> int {
        self.sum as int
    }

    /// How many samples were ever recorded.
    pub closed spec fn spec_count(self) -> int {
        self.count as int
    }

    /// Bounds ascend and end in the overflow bound; bucket counts are
    /// cumulative, so they ascend too and never exceed the total count; the
    /// sum stays within `count` samples' worth of the sample range.
    pub closed spec fn wf(self) -> bool {
        &&& self.buckets@.len() >= 1
        &&& self.buckets@.last().le == Bound::Inf
        &&& forall|i: int, j: int|
            0 <= i < j < self.buckets@.len() ==> bound_le(
                #[trigger] self.buckets@[i].le,
                #[trigger] self.buckets@[j].le,
            )
        &&& forall|i: int, j: int|
            0 <= i < j < self.buckets@.len() ==> #[trigger] self.buckets@[i].count
                <= #[trigger] self.buckets@[j].count
        &&& forall|i: int|
            0 <= i < self.buckets@.len() ==> #[trigger] self.buckets@[i].count
                <= self.count
        &&& (self.count as int) * (i64::MIN as int) <= self.sum as int <= (self.count as int) * (
        i64::MAX as int)
    }

    /// A well-formed histogram's sum stays within `count` samples' worth of
    /// the sample range, and its count fits its counter.
    pub proof fn lemma_wf_sum_range(self)
        requires
            self.wf(),
        ensures
            self.spec_count() * (i64::MIN as int) <= self.spec_sum(),
            self.spec_sum() <= self.spec_count() * (i64::MAX as int),
            0 <= self.spec_count() <= u64::MAX,
    {
    }

    /// The buckets, in ascending bound order.
    pub fn buckets(&self) -> (r: &Vec<Bucket>)
        ensures
            r@ == self.spec_buckets(),
    {
        &self.buckets
    }

    /// The sum of all samples ever recorded.
    pub fn sum(&self) -> (r: i128)
        ensures
            r == self.spec_sum(),
    {
        self.sum
    }

    /// How many samples were ever recorded.
    pub fn count(&self) -> (r: u64)
        ensures
            r == self.spec_count(),
    {
        self.count
    }

    /// A histogram over the given ascending upper bounds, the last of which
    /// must be the overflow bound; all counts start at zero.
    pub fn new(limits: &Vec<Bound>) -> (r: Histogram)
        requires
            limits@.len() >= 1,
            limits@.last() == Bound::Inf,
            forall|i: int, j: int|
                0 <= i < j < limits@.len() ==> bound_le(
                    #[trigger] limits@[i],
                    #[trigger] limits@[j],
                ),
        ensures
            r.wf(),
            r.spec_buckets().len() == limits@.len(),
            forall|i: int|
                0 <= i < limits@.len() ==> #[trigger] r.spec_buckets()[i] == (Bucket {
                    le: limits@[i],
                    count: 0,
                }),
            r.spec_sum() == 0,
            r.spec_count() == 0,
    {
        let mut buckets: Vec<Bucket> = Vec::new();
        let n = limits.len();
        let mut i: usize = 0;
        while i < n
            invariant
                n == limits@.len(),
                i <= n,
                buckets@.len() == i,
                forall|k: int|
                    0 <= k < i as int ==> #[trigger] buckets@[k] == (Bucket {
                        le: limits@[k],
                        count: 0,
                    }),
            decreases n - i,
        {
            buckets.push(Bucket { le: limits[i], count: 0 });
            i = i + 1;
        }
        Histogram { buckets, sum: 0, count: 0 }
    }

    /// Record one sample: the sum and total count always advance, and every
    /// bucket whose bound is at least the sample advances; the rest are
    /// untouched.
    pub fn sample(&mut self, v: i64)
        requires
            old(self).wf(),
            old(self).spec_count() < u64::MAX,
        ensures
            final(self).wf(),
            final(self).spec_sum() == old(self).spec_sum() + v,
            final(self).spec_count() == old(self).spec_count() + 1,
            final(self).spec_buckets().len() == old(self).spec_buckets().len(),
            forall|i: int|
                0 <= i < old(self).spec_buckets().len() ==> #[trigger] final(self).spec_buckets()[
                    i
                ].le == old(self).spec_buckets()[i].le,
            forall|i: int|
                0 <= i < old(self).spec_buckets().len() ==> #[trigger] final(self).spec_buckets()[
                    i
                ].count == old(self).spec_buckets()[i].count + (
                if le_bound(v, old(self).spec_buckets()[i].le) {
                    1int
                } else {
                    0int
                }),
    {
        self.count = self.count + 1;
        self.sum = self.sum + (v as i128);
        let n = self.buckets.len();
        let mut i: usize = 0;
        while i < n
            invariant
                n == self.buckets@.len(),
                n == old(self).spec_buckets().len(),
                i <= n,
                self.count == old(self).spec_count() + 1,
                self.sum as int == old(self).spec_sum() + v,
                old(self).wf(),
                forall|k: int|
                    0 <= k < n as int ==> #[trigger] self.buckets@[k].le == old(
                        self,
                    ).spec_buckets()[k].le,
                forall|k: int|
                    0 <= k < i as int ==> #[trigger] self.buckets@[k].count == old(
                        self,
                    ).spec_buckets()[k].count + (
                    if le_bound(v, old(self).spec_buckets()[k].le) {
                        1int
                    } else {
                        0int
                    }),
                forall|k: int|
                    i as int <= k < n as int ==> #[trigger] self.buckets@[k].count == old(
                        self,
                    ).spec_buckets()[k].count,
                forall|k: int|
                    0 <= k < n as int ==> #[trigger] old(self).spec_buckets()[k].count <= old(
                        self,
                    ).spec_count(),
            decreases n - i,
        {
            let b = self.buckets[i];
            if bound_holds(v, b.le) {
                self.buckets.set(i, Bucket { le: b.le, count: b.count + 1 });
            }
            i = i + 1;
        }
        proof {
            assert forall|a: int, c: int|
                0 <= a < c < self.buckets@.len() implies #[trigger] self.buckets@[a].count
                <= #[trigger] self.buckets@[c].count by {
                assert(bound_le(old(self).spec_buckets()[a].le, old(self).spec_buckets()[c].le));
            }
        }
    }
}

} // verus!
