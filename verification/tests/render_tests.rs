use pico_climate::histogram::Bound;
use pico_climate::metric::{
    counter, gauge, histogram, HistogramSamples, MetricType, Sample,
};
use pico_climate::render::{
    content_type, format_bound, render_family, render_histogram_family,
};

fn strings(values: &[&str]) -> Vec<String> {
    values.iter().map(|v| String::from(*v)).collect()
}

#[test]
fn metric_type_tokens() {
    assert_eq!(MetricType::Counter.to_str(), "counter");
    assert_eq!(MetricType::Gauge.to_str(), "gauge");
    assert_eq!(MetricType::Histogram.to_str(), "histogram");
}

#[test]
fn content_type_names_the_exposition_version() {
    assert_eq!(
        content_type(),
        "text/plain; version=0.0.4; charset=utf-8; escaping=underscores"
    );
}

#[test]
fn gauge_family_renders_exactly() {
    let samples = vec![Sample::new(strings(&["C"]), 21500)];
    let f = gauge(
        String::from("room_temperature"),
        String::from("Current room temperature"),
        strings(&["unit"]),
        samples,
    );
    assert_eq!(
        render_family(&f),
        "# HELP room_temperature Current room temperature\n\
         # TYPE room_temperature gauge\n\
         room_temperature{unit=\"C\"} 21.5\n"
    );
}

#[test]
fn zero_label_dimensions_omit_the_braces() {
    let samples = vec![Sample::new(strings(&[]), 3000)];
    let f = counter(
        String::from("requests"),
        String::from("Requests seen"),
        strings(&[]),
        samples,
    );
    assert_eq!(
        render_family(&f),
        "# HELP requests Requests seen\n# TYPE requests counter\nrequests 3\n"
    );
}

#[test]
fn several_labels_join_with_commas_in_schema_order() {
    let samples = vec![Sample::new(strings(&["a", "1"]), 1000)];
    let f = gauge(
        String::from("m"),
        String::from("h"),
        strings(&["ssid", "channel"]),
        samples,
    );
    assert_eq!(
        render_family(&f),
        "# HELP m h\n# TYPE m gauge\nm{ssid=\"a\",channel=\"1\"} 1\n"
    );
}

#[test]
fn unobserved_histogram_family_renders_comments_only() {
    let limits = vec![Bound::Finite(10000), Bound::Inf];
    let series = vec![HistogramSamples::new(strings(&["1"]), &limits)];
    let f = histogram(
        String::from("lat"),
        String::from("request latency"),
        strings(&["ch"]),
        series,
    );
    assert_eq!(
        render_histogram_family(&f),
        "# HELP lat request latency\n# TYPE lat histogram\n"
    );
}

#[test]
fn observed_histogram_series_renders_buckets_then_sum_then_count() {
    let limits = vec![Bound::Finite(10000), Bound::Inf];
    let mut series = HistogramSamples::new(strings(&["1"]), &limits);
    series.sample(15000);
    let f = histogram(
        String::from("lat"),
        String::from("request latency"),
        strings(&["ch"]),
        vec![series],
    );
    assert_eq!(
        render_histogram_family(&f),
        "# HELP lat request latency\n\
         # TYPE lat histogram\n\
         lat_bucket{ch=\"1\",le=\"10\"} 0\n\
         lat_bucket{ch=\"1\",le=\"+Inf\"} 1\n\
         lat_sum{ch=\"1\"} 15\n\
         lat_count{ch=\"1\"} 1\n"
    );
}

#[test]
fn unobserved_series_is_skipped_while_observed_ones_render() {
    let limits = vec![Bound::Inf];
    let silent = HistogramSamples::new(strings(&["1"]), &limits);
    let mut active = HistogramSamples::new(strings(&["2"]), &limits);
    active.sample(1000);
    let f = histogram(
        String::from("sig"),
        String::from("signal"),
        strings(&["ch"]),
        vec![silent, active],
    );
    assert_eq!(
        render_histogram_family(&f),
        "# HELP sig signal\n\
         # TYPE sig histogram\n\
         sig_bucket{ch=\"2\",le=\"+Inf\"} 1\n\
         sig_sum{ch=\"2\"} 1\n\
         sig_count{ch=\"2\"} 1\n"
    );
}

#[test]
fn bound_labels() {
    assert_eq!(format_bound(Bound::Inf), "+Inf");
    assert_eq!(format_bound(Bound::Finite(20000)), "20");
    assert_eq!(format_bound(Bound::Finite(2500)), "2.5");
}

#[test]
fn sample_accessors_and_saturating_incr() {
    let mut s = Sample::new(strings(&["x"]), 100);
    assert_eq!(s.get(), 100);
    s.set(-400);
    assert_eq!(s.get(), -400);
    s.incr(1400);
    assert_eq!(s.get(), 1000);
    s.incr(i64::MAX);
    s.incr(i64::MAX);
    assert_eq!(s.get(), i64::MAX);
    assert_eq!(s.get_label_values().len(), 1);
    assert_eq!(s.get_label_values()[0], "x");
}
