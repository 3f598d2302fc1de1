//! Rendering of metric families into the Prometheus text exposition format.
//!
//! Every family renders as a `# HELP` comment line, a `# TYPE` comment
//! line, and one line per sample: the metric name, the label block (omitted
//! entirely, braces included, when the family has no label dimensions), a
//! space, the value, and a newline.  A histogram series renders one
//! `_bucket` line per bucket in ascending bound order with the extra `le`
//! label (the overflow bound as the literal `+Inf`), then `_sum` and
//! `_count` lines; a series that has observed nothing renders nothing.
//!
//! Each line is a `String` of its own, so a caller can push the output to a
//! byte sink incrementally; `render_*` functions return whole sections for
//! convenience.

use vstd::prelude::*;

use crate::histogram::{Bound, Bucket};
use crate::metric::{
    HistogramFamily, HistogramSamples, MetricComments, MetricFamily, MetricType, Sample,
    spec_metric_type_str,
};
use crate::text::{format_milli, format_milli_wide, format_u64, spec_dec_nat, spec_milli};

verus! {

/// The content type of a metrics response.
pub fn content_type() -> (r: &'static str)
    ensures
        r@ == "text/plain; version=0.0.4; charset=utf-8; escaping=underscores"@,
{
    "text/plain; version=0.0.4; charset=utf-8; escaping=underscores"
}

/// The HELP and TYPE comment lines of a family.
pub open spec fn spec_comments_text(name: Seq<char>, help: Seq<char>, t: MetricType) -> Seq<char> {
    "# HELP "@ + name + " "@ + help + "\n"@ + "# TYPE "@ + name + " "@ + spec_metric_type_str(t)
        + "\n"@
}

/// One rendered label: `name="value"`.
pub open spec fn spec_label_pair(name: Seq<char>, value: Seq<char>) -> Seq<char> {
    name + "=\""@ + value + "\""@
}

/// The comma-separated label pairs, in declared label-name order.
pub open spec fn spec_label_pairs(names: Seq<Seq<char>>, values: Seq<Seq<char>>) -> Seq<char>
    decreases names.len(),
{
    if names.len() == 0 {
        Seq::<char>::empty()
    } else if names.len() == 1 {
        spec_label_pair(names[0], values[0])
    } else {
        spec_label_pair(names[0], values[0]) + ","@ + spec_label_pairs(
            names.drop_first(),
            values.drop_first(),
        )
    }
}

/// The label block of a line: the pairs in braces, or nothing at all when
/// the family has no label dimensions.
pub open spec fn spec_label_block(names: Seq<Seq<char>>, values: Seq<Seq<char>>) -> Seq<char> {
    if names.len() == 0 {
        Seq::<char>::empty()
    } else {
        "{"@ + spec_label_pairs(names, values) + "}"@
    }
}

/// One metric line: name, label block, a space, the value, a newline.
pub open spec fn spec_metric_line(
    full_name: Seq<char>,
    names: Seq<Seq<char>>,
    values: Seq<Seq<char>>,
    value_text: Seq<char>,
) -> Seq<char> {
    full_name + spec_label_block(names, values) + " "@ + value_text + "\n"@
}

/// The line of one gauge or counter sample.
pub open spec fn spec_sample_line(name: Seq<char>, names: Seq<Seq<char>>, s: Sample) -> Seq<char> {
    spec_metric_line(name, names, s.spec_labels(), spec_milli(s.spec_value()))
}

/// The lines of all samples of a family, in order.
pub open spec fn spec_samples_text(
    name: Seq<char>,
    names: Seq<Seq<char>>,
    samples: Seq<Sample>,
) -> Seq<char>
    decreases samples.len(),
{
    if samples.len() == 0 {
        Seq::<char>::empty()
    } else {
        spec_sample_line(name, names, samples[0]) + spec_samples_text(
            name,
            names,
            samples.drop_first(),
        )
    }
}

/// The full text of a gauge or counter family.
pub open spec fn spec_family_text(f: MetricFamily) -> Seq<char> {
    spec_comments_text(f.name@, f.comments.help@, f.comments.metric_type) + spec_samples_text(
        f.name@,
        f.labels.deep_view(),
        f.samples@,
    )
}

/// A bucket bound's label value: the milli value, or `+Inf` for the
/// overflow bound.
pub open spec fn spec_bound_text(b: Bound) -> Seq<char> {
    match b {
        Bound::Finite(m) => spec_milli(m as int),
        Bound::Inf => "+Inf"@,
    }
}

/// One `_bucket` line: the series' labels with `le` appended.
pub open spec fn spec_bucket_line(
    name: Seq<char>,
    names: Seq<Seq<char>>,
    values: Seq<Seq<char>>,
    b: Bucket,
) -> Seq<char> {
    spec_metric_line(
        name + "_bucket"@,
        names.push("le"@),
        values.push(spec_bound_text(b.le)),
        spec_dec_nat(b.count as nat),
    )
}

/// The `_bucket` lines of one series, in ascending bound order.
pub open spec fn spec_bucket_lines(
    name: Seq<char>,
    names: Seq<Seq<char>>,
    values: Seq<Seq<char>>,
    buckets: Seq<Bucket>,
) -> Seq<char>
    decreases buckets.len(),
{
    if buckets.len() == 0 {
        Seq::<char>::empty()
    } else {
        spec_bucket_line(name, names, values, buckets[0]) + spec_bucket_lines(
            name,
            names,
            values,
            buckets.drop_first(),
        )
    }
}

/// The lines of one histogram series: its bucket lines, then `_sum` and
/// `_count` — or nothing at all when the series has observed no sample.
pub open spec fn spec_histogram_block(
    name: Seq<char>,
    names: Seq<Seq<char>>,
    hs: HistogramSamples,
) -> Seq<char> {
    if hs.spec_hist().spec_count() == 0 {
        Seq::<char>::empty()
    } else {
        spec_bucket_lines(name, names, hs.spec_labels(), hs.spec_hist().spec_buckets())
            + spec_metric_line(
            name + "_sum"@,
            names,
            hs.spec_labels(),
            spec_milli(hs.spec_hist().spec_sum()),
        ) + spec_metric_line(
            name + "_count"@,
            names,
            hs.spec_labels(),
            spec_dec_nat(hs.spec_hist().spec_count() as nat),
        )
    }
}

/// The blocks of all series of a histogram family, in order.
pub open spec fn spec_histogram_blocks(
    name: Seq<char>,
    names: Seq<Seq<char>>,
    samples: Seq<HistogramSamples>,
) -> Seq<char>
    decreases samples.len(),
{
    if samples.len() == 0 {
        Seq::<char>::empty()
    } else {
        spec_histogram_block(name, names, samples[0]) + spec_histogram_blocks(
            name,
            names,
            samples.drop_first(),
        )
    }
}

/// The full text of a histogram family.
pub open spec fn spec_histogram_family_text(f: HistogramFamily) -> Seq<char> {
    spec_comments_text(f.name@, f.comments.help@, f.comments.metric_type)
        + spec_histogram_blocks(f.name@, f.labels.deep_view(), f.samples@)
}

/// The HELP and TYPE comment lines of a family.
pub fn render_comments(name: &str, c: &MetricComments) -> (r: String)
    ensures
        r@ == spec_comments_text(name@, c.help@, c.metric_type),
{
    let mut s = String::from_str("# HELP ");
    s.append(name);
    s.append(" ");
    s.append(c.help.as_str());
    s.append("\n");
    s.append("# TYPE ");
    s.append(name);
    s.append(" ");
    s.append(c.metric_type.to_str());
    s.append("\n");
    proof {
        assert(s@ =~= spec_comments_text(name@, c.help@, c.metric_type));
    }
    s
}

/// The comma-separated label pairs from position `i` on.
fn render_label_pairs(names: &Vec<String>, values: &Vec<String>, i: usize) -> (r: String)
    requires
        names@.len() == values@.len(),
        i <= names@.len(),
    ensures
        r@ == spec_label_pairs(
            names.deep_view().skip(i as int),
            values.deep_view().skip(i as int),
        ),
    decreases names@.len() - i,
{
    if i == names.len() {
        proof {
            assert(names.deep_view().skip(i as int) =~= Seq::<Seq<char>>::empty());
        }
        String::new()
    } else {
        let mut s = String::from_str(names[i].as_str());
        s.append("=\"");
        s.append(values[i].as_str());
        s.append("\"");
        proof {
            assert(names.deep_view().skip(i as int)[0] == names@[i as int]@);
            assert(values.deep_view().skip(i as int)[0] == values@[i as int]@);
        }
        if i + 1 == names.len() {
            proof {
                assert(s@ =~= spec_label_pairs(
                    names.deep_view().skip(i as int),
                    values.deep_view().skip(i as int),
                ));
            }
            s
        } else {
            s.append(",");
            let rest = render_label_pairs(names, values, i + 1);
            s.append(rest.as_str());
            proof {
                assert(names.deep_view().skip(i as int).drop_first() =~= names.deep_view().skip(
                    i as int + 1,
                ));
                assert(values.deep_view().skip(i as int).drop_first() =~= values.deep_view().skip(
                    i as int + 1,
                ));
                assert(s@ =~= spec_label_pairs(
                    names.deep_view().skip(i as int),
                    values.deep_view().skip(i as int),
                ));
            }
            s
        }
    }
}

/// The label block of a line.
fn render_label_block(names: &Vec<String>, values: &Vec<String>) -> (r: String)
    requires
        names@.len() == values@.len(),
    ensures
        r@ == spec_label_block(names.deep_view(), values.deep_view()),
{
    if names.len() == 0 {
        let s = String::new();
        proof {
            assert(s@ =~= spec_label_block(names.deep_view(), values.deep_view()));
        }
        s
    } else {
        let mut s = String::from_str("{");
        let pairs = render_label_pairs(names, values, 0);
        s.append(pairs.as_str());
        s.append("}");
        proof {
            assert(names.deep_view().skip(0) =~= names.deep_view());
            assert(values.deep_view().skip(0) =~= values.deep_view());
            assert(s@ =~= spec_label_block(names.deep_view(), values.deep_view()));
        }
        s
    }
}

/// One metric line.
pub fn render_metric_line(
    full_name: &str,
    names: &Vec<String>,
    values: &Vec<String>,
    value_text: &str,
) -> (r: String)
    requires
        names@.len() == values@.len(),
    ensures
        r@ == spec_metric_line(full_name@, names.deep_view(), values.deep_view(), value_text@),
{
    let mut s = String::from_str(full_name);
    let block = render_label_block(names, values);
    s.append(block.as_str());
    s.append(" ");
    s.append(value_text);
    s.append("\n");
    proof {
        assert(s@ =~= spec_metric_line(
            full_name@,
            names.deep_view(),
            values.deep_view(),
            value_text@,
        ));
    }
    s
}

/// The sample lines of a family from position `i` on.
fn render_samples(name: &str, names: &Vec<String>, samples: &Vec<Sample>, i: usize) -> (r: String)
    requires
        i <= samples@.len(),
        forall|k: int|
            i as int <= k < samples@.len() ==> (#[trigger] samples@[k].spec_labels()).len()
                == names@.len(),
    ensures
        r@ == spec_samples_text(name@, names.deep_view(), samples@.skip(i as int)),
    decreases samples@.len() - i,
{
    if i == samples.len() {
        proof {
            assert(samples@.skip(i as int) =~= Seq::<Sample>::empty());
        }
        String::new()
    } else {
        let smp = &samples[i];
        let value_text = format_milli(smp.get());
        let mut s = render_metric_line(name, names, smp.get_label_values(), value_text.as_str());
        let rest = render_samples(name, names, samples, i + 1);
        s.append(rest.as_str());
        proof {
            assert(samples@.skip(i as int).drop_first() =~= samples@.skip(i as int + 1));
            assert(samples@.skip(i as int)[0] == samples@[i as int]);
            assert(s@ =~= spec_samples_text(name@, names.deep_view(), samples@.skip(i as int)));
        }
        s
    }
}

/// The full text of a gauge or counter family: HELP and TYPE comment lines,
/// then one line per sample.
pub fn render_family(f: &MetricFamily) -> (r: String)
    requires
        forall|k: int|
            0 <= k < f.samples@.len() ==> (#[trigger] f.samples@[k].spec_labels()).len()
                == f.labels@.len(),
    ensures
        r@ == spec_family_text(*f),
{
    let mut s = render_comments(f.name.as_str(), &f.comments);
    let body = render_samples(f.name.as_str(), &f.labels, &f.samples, 0);
    s.append(body.as_str());
    proof {
        assert(f.samples@.skip(0) =~= f.samples@);
        assert(s@ =~= spec_family_text(*f));
    }
    s
}

/// A bucket bound's label value.
pub fn format_bound(b: Bound) -> (r: String)
    ensures
        r@ == spec_bound_text(b),
{
    match b {
        Bound::Finite(m) => format_milli(m),
        Bound::Inf => String::from_str("+Inf"),
    }
}

/// A copy of the label values with one more appended.
fn with_extra(values: &Vec<String>, extra: String) -> (r: Vec<String>)
    ensures
        r.deep_view() == values.deep_view().push(extra@),
{
    let mut out: Vec<String> = Vec::new();
    let n = values.len();
    let mut i: usize = 0;
    while i < n
        invariant
            n == values@.len(),
            i <= n,
            out@.len() == i as int,
            out.deep_view() =~= values.deep_view().take(i as int),
        decreases n - i,
    {
        let ghost prev_elems = out@;
        let ghost prev_dv = out.deep_view();
        out.push(String::from_str(values[i].as_str()));
        proof {
            assert forall|k: int| 0 <= k <= i as int implies out.deep_view()[k]
                == values.deep_view().take(i as int + 1)[k] by {
                assert(out.deep_view()[k] == out@[k]@);
                if k < i as int {
                    assert(out@[k] == prev_elems[k]);
                    assert(prev_dv[k] == prev_elems[k]@);
                    assert(prev_dv[k] == values.deep_view().take(i as int)[k]);
                }
            }
            assert(out.deep_view() =~= values.deep_view().take(i as int + 1));
        }
        i = i + 1;
    }
    let ghost prev_elems = out@;
    let ghost prev_dv = out.deep_view();
    out.push(extra);
    proof {
        assert(values.deep_view().take(n as int) =~= values.deep_view());
        assert forall|k: int| 0 <= k < n as int implies out.deep_view()[k] == values.deep_view()[k]
            by {
            assert(out.deep_view()[k] == out@[k]@);
            assert(out@[k] == prev_elems[k]);
            assert(prev_dv[k] == prev_elems[k]@);
            assert(prev_dv[k] == values.deep_view()[k]);
        }
        assert(out.deep_view()[n as int] == extra@);
        assert(out.deep_view() =~= values.deep_view().push(extra@));
    }
    out
}

/// One `_bucket` line of a histogram series.
fn render_bucket_line(name: &str, names: &Vec<String>, values: &Vec<String>, b: Bucket) -> (r:
    String)
    requires
        names@.len() == values@.len(),
    ensures
        r@ == spec_bucket_line(name@, names.deep_view(), values.deep_view(), b),
{
    let mut full = String::from_str(name);
    full.append("_bucket");
    let ln = with_extra(names, String::from_str("le"));
    let lv = with_extra(values, format_bound(b.le));
    let vt = format_u64(b.count);
    proof {
        assert(ln.deep_view().len() == ln@.len());
        assert(lv.deep_view().len() == lv@.len());
        assert(names.deep_view().len() == names@.len());
        assert(values.deep_view().len() == values@.len());
        assert(ln@.len() == lv@.len());
    }
    let r = render_metric_line(full.as_str(), &ln, &lv, vt.as_str());
    proof {
        assert(r@ =~= spec_bucket_line(name@, names.deep_view(), values.deep_view(), b));
    }
    r
}

/// The `_bucket` lines of a series from position `i` on.
fn render_bucket_lines(
    name: &str,
    names: &Vec<String>,
    values: &Vec<String>,
    buckets: &Vec<Bucket>,
    i: usize,
) -> (r: String)
    requires
        names@.len() == values@.len(),
        i <= buckets@.len(),
    ensures
        r@ == spec_bucket_lines(
            name@,
            names.deep_view(),
            values.deep_view(),
            buckets@.skip(i as int),
        ),
    decreases buckets@.len() - i,
{
    if i == buckets.len() {
        proof {
            assert(buckets@.skip(i as int) =~= Seq::<Bucket>::empty());
        }
        String::new()
    } else {
        let mut s = render_bucket_line(name, names, values, buckets[i]);
        let rest = render_bucket_lines(name, names, values, buckets, i + 1);
        s.append(rest.as_str());
        proof {
            assert(buckets@.skip(i as int).drop_first() =~= buckets@.skip(i as int + 1));
            assert(buckets@.skip(i as int)[0] == buckets@[i as int]);
            assert(s@ =~= spec_bucket_lines(
                name@,
                names.deep_view(),
                values.deep_view(),
                buckets@.skip(i as int),
            ));
        }
        s
    }
}

/// The lines of one histogram series; empty when it has observed nothing.
fn render_histogram_block(name: &str, names: &Vec<String>, hs: &HistogramSamples) -> (r: String)
    requires
        hs.wf(),
        hs.spec_labels().len() == names@.len(),
    ensures
        r@ == spec_histogram_block(name@, names.deep_view(), *hs),
{
    let h = hs.hist();
    if h.count() == 0 {
        let s = String::new();
        proof {
            assert(s@ =~= spec_histogram_block(name@, names.deep_view(), *hs));
        }
        return s;
    }
    let values = hs.get_label_values();
    let mut s = render_bucket_lines(name, names, values, h.buckets(), 0);
    proof {
        assert(h.spec_buckets().skip(0) =~= h.spec_buckets());
    }
    let mut sum_name = String::from_str(name);
    sum_name.append("_sum");
    proof {
        hs.lemma_wf_hist();
        hs.spec_hist().lemma_wf_sum_range();
        assert(hs.spec_hist().spec_sum() > i128::MIN);
    }
    let sum_text = format_milli_wide(h.sum());
    let sum_line = render_metric_line(sum_name.as_str(), names, values, sum_text.as_str());
    s.append(sum_line.as_str());
    let mut count_name = String::from_str(name);
    count_name.append("_count");
    let count_text = format_u64(h.count());
    let count_line = render_metric_line(count_name.as_str(), names, values, count_text.as_str());
    s.append(count_line.as_str());
    proof {
        assert(s@ =~= spec_histogram_block(name@, names.deep_view(), *hs));
    }
    s
}

/// The blocks of a histogram family's series from position `i` on.
pub fn render_histogram_blocks(
    name: &str,
    names: &Vec<String>,
    samples: &Vec<HistogramSamples>,
    i: usize,
) -> (r: String)
    requires
        i <= samples@.len(),
        forall|k: int| i as int <= k < samples@.len() ==> (#[trigger] samples@[k]).wf(),
        forall|k: int|
            i as int <= k < samples@.len() ==> (#[trigger] samples@[k].spec_labels()).len()
                == names@.len(),
    ensures
        r@ == spec_histogram_blocks(name@, names.deep_view(), samples@.skip(i as int)),
    decreases samples@.len() - i,
{
    if i == samples.len() {
        proof {
            assert(samples@.skip(i as int) =~= Seq::<HistogramSamples>::empty());
        }
        String::new()
    } else {
        let mut s = render_histogram_block(name, names, &samples[i]);
        let rest = render_histogram_blocks(name, names, samples, i + 1);
        s.append(rest.as_str());
        proof {
            assert(samples@.skip(i as int).drop_first() =~= samples@.skip(i as int + 1));
            assert(samples@.skip(i as int)[0] == samples@[i as int]);
            assert(s@ =~= spec_histogram_blocks(
                name@,
                names.deep_view(),
                samples@.skip(i as int),
            ));
        }
        s
    }
}

/// The full text of a histogram family: HELP and TYPE comment lines, then
/// the bucket, `_sum` and `_count` lines of every series that has observed
/// at least one sample.
pub fn render_histogram_family(f: &HistogramFamily) -> (r: String)
    requires
        forall|k: int| 0 <= k < f.samples@.len() ==> (#[trigger] f.samples@[k]).wf(),
        forall|k: int|
            0 <= k < f.samples@.len() ==> (#[trigger] f.samples@[k].spec_labels()).len()
                == f.labels@.len(),
    ensures
        r@ == spec_histogram_family_text(*f),
{
    let mut s = render_comments(f.name.as_str(), &f.comments);
    let body = render_histogram_blocks(f.name.as_str(), &f.labels, &f.samples, 0);
    s.append(body.as_str());
    proof {
        assert(f.samples@.skip(0) =~= f.samples@);
        assert(s@ =~= spec_histogram_family_text(*f));
    }
    s
}

/// A histogram family none of whose series has observed a sample renders as
/// its HELP and TYPE comment lines alone: no bucket, `_sum` or `_count`
/// line is emitted for an unobserved label set.
pub proof fn lemma_unobserved_histogram_family(f: HistogramFamily)
    requires
        forall|k: int|
            0 <= k < f.samples@.len() ==> (#[trigger] f.samples@[k]).spec_hist().spec_count() == 0,
    ensures
        spec_histogram_family_text(f) == spec_comments_text(
            f.name@,
            f.comments.help@,
            f.comments.metric_type,
        ),
{
    lemma_unobserved_blocks(f.name@, f.labels.deep_view(), f.samples@);
    assert(spec_comments_text(f.name@, f.comments.help@, f.comments.metric_type)
        + Seq::<char>::empty() =~= spec_comments_text(
        f.name@,
        f.comments.help@,
        f.comments.metric_type,
    ));
}

proof fn lemma_unobserved_blocks(name: Seq<char>, names: Seq<Seq<char>>, samples: Seq<
    HistogramSamples,
>)
    requires
        forall|k: int|
            0 <= k < samples.len() ==> (#[trigger] samples[k]).spec_hist().spec_count() == 0,
    ensures
        spec_histogram_blocks(name, names, samples) == Seq::<char>::empty(),
    decreases samples.len(),
{
    if samples.len() > 0 {
        lemma_unobserved_blocks(name, names, samples.drop_first());
        assert(spec_histogram_block(name, names, samples[0]) == Seq::<char>::empty());
        assert(Seq::<char>::empty() + Seq::<char>::empty() =~= Seq::<char>::empty());
    }
}

} // verus!
