//! Typed metric descriptors: a sample with its label values, the metric
//! type, the HELP/TYPE comment data, and the family descriptors binding a
//! metric name, help text, label schema and data to be rendered.

use vstd::prelude::*;

use crate::histogram::{Bound, Histogram};

verus! {

/// The Prometheus metric type of a family.
#[derive(Clone, Copy, PartialEq, Eq, Structural)]
pub enum MetricType {
    Counter,
    Gauge,
    Histogram,
}

/// The token a metric type renders to in a `# TYPE` comment line.
pub open spec fn spec_metric_type_str(t: MetricType) -> Seq<char> {
    match t {
        MetricType::Counter => "counter"@,
        MetricType::Gauge => "gauge"@,
        MetricType::Histogram => "histogram"@,
    }
}

impl MetricType {
    /// The token this type renders to in a `# TYPE` comment line.
    pub fn to_str(&self) -> (r: &'static str)
        ensures
            r@ == spec_metric_type_str(*self),
    {
        match self {
            MetricType::Counter => "counter",
            MetricType::Gauge => "gauge",
            MetricType::Histogram => "histogram",
        }
    }
}

/// One sample of a gauge or counter: label values matching the family's
/// label schema positionally, and the current value in milli units.
pub struct Sample {
    label_values: Vec<String>,
    value: i64,
}

impl Sample {
    /// The label values, as sequences of characters.
    pub closed spec fn spec_labels(self) -> Seq<Seq<char>> {
        self.label_values.deep_view()
    }

    /// The current value in milli units.
    pub closed spec fn spec_value(self) -> int {
        self.value as int
    }

    pub fn new(label_values: Vec<String>, value: i64) -> (r: Sample)
        ensures
            r.spec_labels() == label_values.deep_view(),
            r.spec_value() == value,
    {
        Sample { label_values, value }
    }

    /// Replace the value.
    pub fn set(&mut self, value: i64)
        ensures
            final(self).spec_labels() == old(self).spec_labels(),
            final(self).spec_value() == value,
    {
        self.value = value;
    }

    /// Add to the value, saturating at the ends of the sample range.
    pub fn incr(&mut self, value: i64)
        ensures
            final(self).spec_labels() == old(self).spec_labels(),
            final(self).spec_value() == if old(self).spec_value() + value > i64::MAX {
                i64::MAX as int
            } else if old(self).spec_value() + value < i64::MIN {
                i64::MIN as int
            } else {
                old(self).spec_value() + value
            },
    {
        self.value = match self.value.checked_add(value) {
            Some(v) => v,
            None => if value >= 0 {
                i64::MAX
            } else {
                i64::MIN
            },
        };
    }

    /// The current value in milli units.
    pub fn get(&self) -> (r: i64)
        ensures
            r == self.spec_value(),
    {
        self.value
    }

    /// The label values, in schema order.
    pub fn get_label_values(&self) -> (r: &Vec<String>)
        ensures
            r.deep_view() == self.spec_labels(),
    {
        &self.label_values
    }
}

/// The help text and type that render as a family's `# HELP` and `# TYPE`
/// comment lines.
pub struct MetricComments {
    pub help: String,
    pub metric_type: MetricType,
}

impl MetricComments {
    pub fn new(help: String, metric_type: MetricType) -> (r: MetricComments)
        ensures
            r.help@ == help@,
            r.metric_type == metric_type,
    {
        MetricComments { help, metric_type }
    }
}

/// A gauge or counter family: name, comments, label schema, and samples,
/// consumed once by the renderer.
pub struct MetricFamily {
    pub name: String,
    pub comments: MetricComments,
    pub labels: Vec<String>,
    pub samples: Vec<Sample>,
}

impl MetricFamily {
    pub fn new(
        name: String,
        help: String,
        metric_type: MetricType,
        labels: Vec<String>,
        samples: Vec<Sample>,
    ) -> (r: MetricFamily)
        ensures
            r.name@ == name@,
            r.comments.help@ == help@,
            r.comments.metric_type == metric_type,
            r.labels.deep_view() == labels.deep_view(),
            r.samples@ == samples@,
    {
        MetricFamily { name, comments: MetricComments { help, metric_type }, labels, samples }
    }
}

/// A gauge family descriptor.
pub fn gauge(name: String, help: String, labels: Vec<String>, samples: Vec<Sample>) -> (r:
    MetricFamily)
    ensures
        r.name@ == name@,
        r.comments.help@ == help@,
        r.comments.metric_type == MetricType::Gauge,
        r.labels.deep_view() == labels.deep_view(),
        r.samples@ == samples@,
{
    MetricFamily::new(name, help, MetricType::Gauge, labels, samples)
}

/// A counter family descriptor.
pub fn counter(name: String, help: String, labels: Vec<String>, samples: Vec<Sample>) -> (r:
    MetricFamily)
    ensures
        r.name@ == name@,
        r.comments.help@ == help@,
        r.comments.metric_type == MetricType::Counter,
        r.labels.deep_view() == labels.deep_view(),
        r.samples@ == samples@,
{
    MetricFamily::new(name, help, MetricType::Counter, labels, samples)
}

/// One labelled series of a histogram family: label values plus the
/// cumulative buckets, sum and count they carry.
pub struct HistogramSamples {
    label_values: Vec<String>,
    hist: Histogram,
}

impl HistogramSamples {
    /// The label values, as sequences of characters.
    pub closed spec fn spec_labels(self) -> Seq<Seq<char>> {
        self.label_values.deep_view()
    }

    /// The histogram state carried for this label combination.
    pub closed spec fn spec_hist(self) -> Histogram {
        self.hist
    }

    pub closed spec fn wf(self) -> bool {
        self.hist.wf()
    }

    /// A series over the given ascending upper bounds, the last of which
    /// must be the overflow bound.
    pub fn new(label_values: Vec<String>, limits: &Vec<Bound>) -> (r: HistogramSamples)
        requires
            limits@.len() >= 1,
            limits@.last() == Bound::Inf,
            forall|i: int, j: int|
                0 <= i < j < limits@.len() ==> crate::histogram::bound_le(
                    #[trigger] limits@[i],
                    #[trigger] limits@[j],
                ),
        ensures
            r.wf(),
            r.spec_labels() == label_values.deep_view(),
            r.spec_hist().spec_buckets().len() == limits@.len(),
            forall|i: int|
                0 <= i < limits@.len() ==> #[trigger] r.spec_hist().spec_buckets()[i]
                    == (crate::histogram::Bucket { le: limits@[i], count: 0 }),
            r.spec_hist().spec_sum() == 0,
            r.spec_hist().spec_count() == 0,
    {
        HistogramSamples { label_values, hist: Histogram::new(limits) }
    }

    /// Record one sample into this series' histogram.
    pub fn sample(&mut self, v: i64)
        requires
            old(self).wf(),
            old(self).spec_hist().spec_count() < u64::MAX,
        ensures
            final(self).wf(),
            final(self).spec_labels() == old(self).spec_labels(),
            final(self).spec_hist().spec_sum() == old(self).spec_hist().spec_sum() + v,
            final(self).spec_hist().spec_count() == old(self).spec_hist().spec_count() + 1,
            final(self).spec_hist().spec_buckets().len() == old(self)
                .spec_hist().spec_buckets().len(),
            forall|i: int|
                0 <= i < old(self).spec_hist().spec_buckets().len() ==> #[trigger] final(self)
                    .spec_hist().spec_buckets()[i].le == old(self).spec_hist().spec_buckets()[
                    i
                ].le,
            forall|i: int|
                0 <= i < old(self).spec_hist().spec_buckets().len() ==> #[trigger] final(self)
                    .spec_hist().spec_buckets()[i].count == old(self).spec_hist().spec_buckets()[
                    i
                ].count + (
                if crate::histogram::le_bound(v, old(self).spec_hist().spec_buckets()[i].le) {
                    1int
                } else {
                    0int
                }),
    {
        self.hist.sample(v);
    }

    /// A well-formed series carries a well-formed histogram.
    pub proof fn lemma_wf_hist(self)
        requires
            self.wf(),
        ensures
            self.spec_hist().wf(),
    {
    }

    /// Borrow the histogram state for rendering.
    pub fn hist(&self) -> (r: &Histogram)
        ensures
            *r == self.spec_hist(),
    {
        &self.hist
    }

    /// The label values, in schema order.
    pub fn get_label_values(&self) -> (r: &Vec<String>)
        ensures
            r.deep_view() == self.spec_labels(),
    {
        &self.label_values
    }
}

/// A histogram family: name, comments, label schema, and one labelled
/// series per label combination.
pub struct HistogramFamily {
    pub name: String,
    pub comments: MetricComments,
    pub labels: Vec<String>,
    pub samples: Vec<HistogramSamples>,
}

impl HistogramFamily {
    pub fn new(
        name: String,
        help: String,
        metric_type: MetricType,
        labels: Vec<String>,
        samples: Vec<HistogramSamples>,
    ) -> (r: HistogramFamily)
        ensures
            r.name@ == name@,
            r.comments.help@ == help@,
            r.comments.metric_type == metric_type,
            r.labels.deep_view() == labels.deep_view(),
            r.samples@ == samples@,
    {
        HistogramFamily { name, comments: MetricComments { help, metric_type }, labels, samples }
    }
}

/// A histogram family descriptor.
pub fn histogram(
    name: String,
    help: String,
    labels: Vec<String>,
    samples: Vec<HistogramSamples>,
) -> (r: HistogramFamily)
    ensures
        r.name@ == name@,
        r.comments.help@ == help@,
        r.comments.metric_type == MetricType::Histogram,
        r.labels.deep_view() == labels.deep_view(),
        r.samples@ == samples@,
{
    HistogramFamily::new(name, help, MetricType::Histogram, labels, samples)
}

} // verus!
