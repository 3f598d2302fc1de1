//! Fixed-capacity ring buffer of the most recent samples, with an on-demand
//! median.  Once full, each new sample overwrites the oldest one, so the
//! median always reflects the latest window of readings; it smooths noisy
//! gauge readings against transient glitches.

use vstd::prelude::*;
use vstd::relations::{sorted_by, total_ordering};
use vstd::seq_lib::lemma_sorted_unique;
use vstd::seq_lib::group_to_multiset_ensures;
use vstd::arithmetic::div_mod::{
    lemma_fundamental_div_mod, lemma_mod_add_multiples_vanish,
    lemma_mod_division_less_than_divisor, lemma_mod_multiples_vanish, lemma_mod_self_0,
    lemma_mod_sub_multiples_vanish, lemma_small_mod,
};

verus! {

/// The ordering by which samples are ranked for the median.
pub open spec fn milli_le() -> spec_fn(i64, i64) -> bool {
    |x: i64, y: i64| x <= y
}

pub proof fn lemma_milli_le_total()
    ensures
        total_ordering(milli_le()),
{
}

/// The window after one sample is recorded: appended while the set is
/// filling, otherwise the oldest sample is dropped to make room.
pub open spec fn spec_record(w: Seq<i64>, cap: int, v: i64) -> Seq<i64> {
    if w.len() < cap {
        w.push(v)
    } else {
        w.drop_first().push(v)
    }
}

/// The median of a window: the upper-middle element of the sorted window,
/// or 0 when nothing has been recorded yet.
pub open spec fn spec_median(w: Seq<i64>) -> i64 {
    if w.len() == 0 {
        0
    } else {
        w.sort_by(milli_le())[w.len() as int / 2]
    }
}

/// Ring buffer of the last `capacity` samples.  `buf` grows until it
/// reaches `capacity` and wraps afterwards; `count` counts every write,
/// so `count % capacity` is the slot the next sample lands in.
pub struct SampleSet {
    buf: Vec<i64>,
    count: u64,
    capacity: usize,
}

impl SampleSet {
    /// The capacity the set was created with.
    pub closed spec fn spec_capacity(self) -> int {
        self.capacity as int
    }

    /// The live samples, oldest first.
    pub closed spec fn samples(self) -> Seq<i64> {
        if self.count <= self.capacity {
            self.buf@
        } else {
            Seq::new(
                self.capacity as nat,
                |i: int| self.buf@[(self.count + i) % (self.capacity as int)],
            )
        }
    }

    /// How many samples have ever been recorded.
    pub closed spec fn count_spec(self) -> int {
        self.count as int
    }

    pub closed spec fn wf(self) -> bool {
        &&& self.capacity >= 1
        &&& self.buf@.len() == vstd::math::min(self.count as int, self.capacity as int)
    }

    pub fn new(capacity: usize) -> (r: SampleSet)
        requires
            capacity >= 1,
        ensures
            r.wf(),
            r.spec_capacity() == capacity,
            r.count_spec() == 0,
            r.samples() == Seq::<i64>::empty(),
    {
        let r = SampleSet { buf: Vec::new(), count: 0, capacity };
        proof {
            assert(r.samples() =~= Seq::<i64>::empty());
        }
        r
    }

    /// Record one sample, overwriting the oldest once the buffer is full.
    pub fn record(&mut self, v: i64)
        requires
            old(self).wf(),
            old(self).count_spec() < u64::MAX,
        ensures
            final(self).wf(),
            final(self).spec_capacity() == old(self).spec_capacity(),
            final(self).count_spec() == old(self).count_spec() + 1,
            final(self).samples() == spec_record(
                old(self).samples(),
                old(self).spec_capacity(),
                v,
            ),
    {
        let ghost pre = *self;
        if self.buf.len() < self.capacity {
            self.buf.push(v);
        } else {
            let idx = (self.count % (self.capacity as u64)) as usize;
            proof {
                lemma_mod_division_less_than_divisor(self.count as int, self.capacity as int);
            }
            self.buf.set(idx, v);
        }
        self.count = self.count + 1;
        proof {
            lemma_record_window(pre, *self, v);
        }
    }

    /// The median of the live samples; 0 when none have been recorded.
    pub fn median(&self) -> (r: i64)
        requires
            self.wf(),
        ensures
            r == spec_median(self.samples()),
    {
        let n = self.buf.len();
        if n == 0 {
            proof {
                assert(self.samples() =~= Seq::<i64>::empty());
            }
            return 0;
        }
        let start: usize = if self.count > (self.capacity as u64) {
            (self.count % (self.capacity as u64)) as usize
        } else {
            0
        };
        proof {
            if self.count > self.capacity {
                lemma_mod_division_less_than_divisor(self.count as int, self.capacity as int);
            }
        }
        let mut scratch: Vec<i64> = Vec::new();
        let mut i: usize = 0;
        while i < n
            invariant
                self.wf(),
                n == self.buf@.len(),
                n >= 1,
                start < n,
                self.count > self.capacity ==> start == (self.count as int) % (
                self.capacity as int),
                self.count <= self.capacity ==> start == 0,
                i <= n,
                scratch@ =~= self.samples().take(i as int),
            decreases n - i,
        {
            let idx = if i < n - start {
                start + i
            } else {
                i - (n - start)
            };
            proof {
                if self.count > self.capacity {
                    lemma_mod_shift(self.count as int, i as int, self.capacity as int);
                }
                assert(self.samples()[i as int] == self.buf@[idx as int]);
            }
            scratch.push(self.buf[idx]);
            i = i + 1;
        }
        proof {
            assert(scratch@ =~= self.samples());
        }
        sort_milli(&mut scratch);
        proof {
            lemma_milli_le_total();
            self.samples().lemma_sort_by_ensures(milli_le());
            lemma_sorted_unique(scratch@, self.samples().sort_by(milli_le()), milli_le());
        }
        scratch[n / 2]
    }
}

/// `(c + k) % m` written without the modulus, for one wrap at most.
proof fn lemma_mod_shift(c: int, k: int, m: int)
    requires
        m > 0,
        c >= 0,
        0 <= k < m,
    ensures
        (c + k) % m == if (c % m) + k < m {
            (c % m) + k
        } else {
            (c % m) + k - m
        },
{
    lemma_fundamental_div_mod(c, m);
    lemma_mod_division_less_than_divisor(c, m);
    lemma_mod_multiples_vanish(c / m, (c % m) + k, m);
    if (c % m) + k < m {
        lemma_small_mod(((c % m) + k) as nat, m as nat);
    } else {
        lemma_mod_sub_multiples_vanish((c % m) + k, m);
        lemma_small_mod(((c % m) + k - m) as nat, m as nat);
    }
}

/// After one write, the window is the recorded window of the state before.
proof fn lemma_record_window(pre: SampleSet, post: SampleSet, v: i64)
    requires
        pre.wf(),
        pre.count_spec() < u64::MAX,
        post.capacity == pre.capacity,
        post.count == pre.count + 1,
        pre.count < pre.capacity ==> post.buf@ == pre.buf@.push(v),
        pre.count >= pre.capacity ==> post.buf@ == pre.buf@.update(
            (pre.count as int) % (pre.capacity as int),
            v,
        ),
    ensures
        post.wf(),
        post.samples() == spec_record(pre.samples(), pre.spec_capacity(), v),
{
    let cap = pre.capacity as int;
    let cnt = pre.count as int;
    if pre.count < pre.capacity {
        assert(post.samples() =~= spec_record(pre.samples(), cap, v));
    } else {
        lemma_mod_division_less_than_divisor(cnt, cap);
        let r = cnt % cap;
        let w = Seq::new(cap as nat, |i: int| pre.buf@[(cnt + i) % cap]);
        assert forall|i: int| 0 <= i < cap implies w[i] == pre.samples()[i] by {
            if pre.count == pre.capacity {
                lemma_mod_self_0(cap);
                lemma_mod_shift(cnt, i, cap);
            }
        }
        assert(pre.samples() =~= w);
        assert forall|i: int| 0 <= i < cap implies post.samples()[i] == spec_record(
            pre.samples(),
            cap,
            v,
        )[i] by {
            assert(post.samples()[i] == post.buf@[(cnt + 1 + i) % cap]);
            if i + 1 < cap {
                lemma_mod_shift(cnt, i + 1, cap);
                assert(post.buf@[(cnt + 1 + i) % cap] == pre.buf@[(cnt + 1 + i) % cap]);
                assert(pre.samples()[i + 1] == w[i + 1]);
            } else {
                lemma_mod_add_multiples_vanish(cnt, cap);
                assert((cnt + 1 + i) % cap == r);
                assert(post.buf@[r] == v);
            }
        }
        assert(post.samples() =~= spec_record(pre.samples(), cap, v));
    }
}

/// The window after a whole sequence of samples is recorded in order.
pub open spec fn spec_record_all(w: Seq<i64>, cap: int, vs: Seq<i64>) -> Seq<i64>
    decreases vs.len(),
{
    if vs.len() == 0 {
        w
    } else {
        spec_record_all(spec_record(w, cap, vs[0]), cap, vs.drop_first())
    }
}

/// Recording a sequence keeps the last `cap` samples of window-plus-sequence.
proof fn lemma_record_all_window(w: Seq<i64>, cap: int, vs: Seq<i64>)
    requires
        1 <= cap,
        w.len() <= cap,
    ensures
        spec_record_all(w, cap, vs) == (w + vs).skip(
            if w.len() + vs.len() <= cap {
                0
            } else {
                w.len() + vs.len() - cap
            },
        ),
    decreases vs.len(),
{
    if vs.len() == 0 {
        assert((w + vs).skip(0) =~= w);
    } else {
        let v = vs[0];
        let rest = vs.drop_first();
        let w2 = spec_record(w, cap, v);
        lemma_record_all_window(w2, cap, rest);
        if w.len() < cap {
            assert(w2 + rest =~= w + vs);
            assert(spec_record_all(w, cap, vs) == spec_record_all(w2, cap, rest));
        } else {
            assert(w2 + rest =~= (w + vs).skip(1));
            let e2: int = if w2.len() + rest.len() <= cap {
                0
            } else {
                w2.len() + rest.len() - cap
            };
            let e: int = w.len() + vs.len() - cap;
            assert(e == e2 + 1);
            assert((w2 + rest).skip(e2) =~= (w + vs).skip(e));
        }
    }
}

/// When no more samples than the capacity have been recorded into a fresh
/// set, the window holds every sample in order, so the median is the
/// upper-middle element of the sorted recorded sequence.
pub proof fn lemma_median_within_capacity(cap: int, vs: Seq<i64>)
    requires
        1 <= cap,
        vs.len() <= cap,
    ensures
        spec_record_all(Seq::<i64>::empty(), cap, vs) == vs,
        vs.len() > 0 ==> spec_median(spec_record_all(Seq::<i64>::empty(), cap, vs))
            == vs.sort_by(milli_le())[vs.len() as int / 2],
{
    lemma_record_all_window(Seq::<i64>::empty(), cap, vs);
    assert((Seq::<i64>::empty() + vs).skip(0) =~= vs);
}

/// Once more samples than the capacity have been recorded into a fresh set,
/// the window holds exactly the most recent `cap` samples, so the median
/// reflects only those.
pub proof fn lemma_median_beyond_capacity(cap: int, vs: Seq<i64>)
    requires
        1 <= cap,
        vs.len() > cap,
    ensures
        spec_record_all(Seq::<i64>::empty(), cap, vs) == vs.skip(vs.len() - cap),
        spec_median(spec_record_all(Seq::<i64>::empty(), cap, vs)) == spec_median(
            vs.skip(vs.len() - cap),
        ),
{
    lemma_record_all_window(Seq::<i64>::empty(), cap, vs);
    assert((Seq::<i64>::empty() + vs).skip(vs.len() - cap) =~= vs.skip(vs.len() - cap));
}

/// Swapping two entries of a sequence keeps its multiset of elements.
proof fn lemma_swap_multiset(s: Seq<i64>, i: int, j: int)
    requires
        0 <= i < s.len(),
        0 <= j < s.len(),
        i != j,
    ensures
        s.update(i, s[j]).update(j, s[i]).to_multiset() == s.to_multiset(),
{
    broadcast use group_to_multiset_ensures;
    broadcast use vstd::multiset::group_multiset_axioms;

    let mid = s.update(i, s[j]);
    let fin = mid.update(j, s[i]);
    assert(mid.to_multiset() == s.to_multiset().insert(s[j]).remove(s[i]));
    assert(mid[j] == s[j]);
    assert(fin.to_multiset() == mid.to_multiset().insert(s[i]).remove(s[j]));
    assert(s.contains(s[i]));
    assert(s.to_multiset().count(s[i]) >= 1);
    assert forall|x: i64| fin.to_multiset().count(x) == s.to_multiset().count(x) by {
    }
    assert(fin.to_multiset() =~= s.to_multiset());
}

/// Sort a vector of samples in place, ascending.
fn sort_milli(v: &mut Vec<i64>)
    ensures
        final(v)@.len() == old(v)@.len(),
        sorted_by(final(v)@, milli_le()),
        final(v)@.to_multiset() == old(v)@.to_multiset(),
{
    broadcast use group_to_multiset_ensures;
    broadcast use vstd::multiset::group_multiset_axioms;

    let n = v.len();
    let mut i: usize = 1;
    while i < n
        invariant
            n == v@.len(),
            v@.to_multiset() == old(v)@.to_multiset(),
            1 <= i,
            sorted_by(v@.take(vstd::math::min(i as int, n as int)), milli_le()),
        decreases n - i,
    {
        proof {
            assert forall|a: int, b: int|
                0 <= a < b <= i as int && b != i as int implies #[trigger] milli_le()(
                v@[a],
                v@[b],
            ) by {
                assert(v@.take(vstd::math::min(i as int, n as int))[a] == v@[a]);
                assert(v@.take(vstd::math::min(i as int, n as int))[b] == v@[b]);
            }
        }
        let mut j: usize = i;
        let mut done = false;
        while !done && j > 0
            invariant
                n == v@.len(),
                v@.to_multiset() == old(v)@.to_multiset(),
                j <= i < n,
                forall|a: int, b: int|
                    0 <= a < b <= i as int && b != j as int ==> #[trigger] milli_le()(
                        v@[a],
                        v@[b],
                    ),
                done ==> (j == 0 || v@[j as int - 1] <= v@[j as int]),
            decreases (if done {
                0int
            } else {
                1int
            }), j,
        {
            let prev = v[j - 1];
            let cur = v[j];
            if prev > cur {
                let ghost before = v@;
                v.set(j - 1, cur);
                v.set(j, prev);
                proof {
                    lemma_swap_multiset(before, j as int - 1, j as int);
                    assert(v@ == before.update(j as int - 1, cur).update(j as int, prev));
                }
                j = j - 1;
            } else {
                done = true;
            }
        }
        proof {
            assert forall|a: int, b: int| 0 <= a < b <= i as int implies #[trigger] milli_le()(
                v@[a],
                v@[b],
            ) by {
                if b == j as int && j > 0 {
                    assert(milli_le()(v@[j as int - 1], v@[j as int]));
                    if a < j as int - 1 {
                        assert(milli_le()(v@[a], v@[j as int - 1]));
                    }
                }
            }
            assert(sorted_by(v@.take(vstd::math::min(i as int + 1, n as int)), milli_le()));
        }
        i = i + 1;
    }
    proof {
        if n >= 1 {
            assert(v@.take(vstd::math::min(n as int, n as int)) =~= v@);
        } else {
            assert(v@ =~= Seq::<i64>::empty());
        }
    }
}

} // verus!
