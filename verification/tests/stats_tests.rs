use pico_climate::average_set::AverageSet;
use pico_climate::histogram::{Bound, Histogram};
use pico_climate::sample_set::SampleSet;

#[test]
fn median_of_nothing_is_zero() {
    let s = SampleSet::new(11);
    assert_eq!(s.median(), 0);
}

#[test]
fn median_within_capacity_is_upper_middle() {
    let mut s = SampleSet::new(11);
    s.record(5000);
    s.record(1000);
    s.record(3000);
    // sorted: 1000 3000 5000, middle index 1
    assert_eq!(s.median(), 3000);
}

#[test]
fn median_of_even_count_picks_upper_middle() {
    let mut s = SampleSet::new(11);
    s.record(1000);
    s.record(2000);
    s.record(3000);
    s.record(4000);
    // sorted: 1000 2000 3000 4000, index 4 / 2 = 2
    assert_eq!(s.median(), 3000);
}

#[test]
fn median_beyond_capacity_reflects_last_window() {
    let mut s = SampleSet::new(3);
    s.record(1000);
    s.record(2000);
    s.record(3000);
    s.record(4000);
    s.record(5000);
    // live window: 3000 4000 5000
    assert_eq!(s.median(), 4000);
}

#[test]
fn ring_overwrites_oldest_repeatedly() {
    let mut s = SampleSet::new(2);
    for v in [9000, 1000, 8000, 2000, 7000] {
        s.record(v);
    }
    // live window: 2000 7000, upper middle is 7000
    assert_eq!(s.median(), 7000);
}

#[test]
fn avg_returns_mean_and_resets() {
    let mut a = AverageSet::new();
    a.record(3000);
    a.record(4000);
    a.record(5000);
    assert_eq!(a.avg(), 4000);
    // the read reset the accumulator, so an immediate second read is 0
    assert_eq!(a.avg(), 0);
}

#[test]
fn avg_of_nothing_is_zero() {
    let mut a = AverageSet::new();
    assert_eq!(a.avg(), 0);
}

#[test]
fn avg_truncates_toward_zero() {
    let mut a = AverageSet::new();
    a.record(3);
    a.record(4);
    assert_eq!(a.avg(), 3);
    a.record(-3);
    a.record(-4);
    assert_eq!(a.avg(), -3);
}

#[test]
fn histogram_sample_increments_every_bucket_at_or_above() {
    let mut limits: Vec<Bound> = Vec::new();
    let mut b: i64 = 10000;
    while b <= 100000 {
        limits.push(Bound::Finite(b));
        b += 10000;
    }
    limits.push(Bound::Inf);
    let mut h = Histogram::new(&limits);
    h.sample(15000);
    let buckets = h.buckets();
    assert_eq!(buckets.len(), 11);
    // the 10 bucket is untouched, every bound at or above 15 advances
    assert_eq!(buckets[0].count, 0);
    for i in 1..11 {
        assert_eq!(buckets[i].count, 1);
    }
    // count and sum advance unconditionally
    assert_eq!(h.count(), 1);
    assert_eq!(h.sum(), 15000);
}

#[test]
fn histogram_counts_are_cumulative_over_samples() {
    let limits = vec![Bound::Finite(10000), Bound::Finite(20000), Bound::Inf];
    let mut h = Histogram::new(&limits);
    h.sample(5000);
    h.sample(15000);
    h.sample(250000);
    let buckets = h.buckets();
    assert_eq!(buckets[0].count, 1);
    assert_eq!(buckets[1].count, 2);
    assert_eq!(buckets[2].count, 3);
    assert_eq!(h.count(), 3);
    assert_eq!(h.sum(), 270000);
}

#[test]
fn histogram_boundary_value_lands_in_its_bucket() {
    let limits = vec![Bound::Finite(10000), Bound::Inf];
    let mut h = Histogram::new(&limits);
    h.sample(10000);
    assert_eq!(h.buckets()[0].count, 1);
    assert_eq!(h.buckets()[1].count, 1);
}
