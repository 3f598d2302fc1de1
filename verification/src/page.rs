//! The full `/metrics` page: every family the exporter serves, rendered in
//! order from one set of prepared values.  The caller reads the sensors and
//! snapshots the shared state first, then renders; nothing here blocks, so
//! no lock is held while the page is written out.

use vstd::prelude::*;

use crate::adc;
use crate::arith::{counter_milli, spec_counter_milli};
use crate::histogram::Bound;
use crate::ina237;
use crate::metric::{HistogramSamples, MetricComments, MetricType};
use crate::render::{
    render_comments, render_histogram_blocks, render_metric_line, spec_comments_text,
    spec_histogram_blocks, spec_metric_line,
};
use crate::sht30;
use crate::text::{format_milli, format_u64, spec_dec_nat, spec_milli};

verus! {

/// A boolean gauge value: 1 for a set flag, 0 for a clear one.
pub open spec fn spec_flag_milli(b: bool) -> int {
    if b {
        1000
    } else {
        0
    }
}

/// A boolean gauge value.
pub fn flag_milli(b: bool) -> (r: i64)
    ensures
        r == spec_flag_milli(b),
{
    if b {
        1000
    } else {
        0
    }
}

/// An empty label schema.
fn labels0() -> (r: Vec<String>)
    ensures
        r.deep_view() == Seq::<Seq<char>>::empty(),
        r@.len() == 0,
{
    let r: Vec<String> = Vec::new();
    proof {
        assert(r.deep_view() =~= Seq::<Seq<char>>::empty());
    }
    r
}

/// A one-name label schema or label-value row.
fn labels1(a: &str) -> (r: Vec<String>)
    ensures
        r.deep_view() == seq![a@],
        r@.len() == 1,
{
    let mut r: Vec<String> = Vec::new();
    r.push(String::from_str(a));
    proof {
        assert(r.deep_view()[0] == r@[0]@);
        assert(r.deep_view() =~= seq![a@]);
    }
    r
}

/// A three-name label schema or label-value row.
fn labels3(a: &str, b: &str, c: &str) -> (r: Vec<String>)
    ensures
        r.deep_view() == seq![a@, b@, c@],
        r@.len() == 3,
{
    let mut r: Vec<String> = Vec::new();
    r.push(String::from_str(a));
    r.push(String::from_str(b));
    r.push(String::from_str(c));
    proof {
        assert(r.deep_view()[0] == r@[0]@);
        assert(r.deep_view()[1] == r@[1]@);
        assert(r.deep_view()[2] == r@[2]@);
        assert(r.deep_view() =~= seq![a@, b@, c@]);
    }
    r
}

/// The Wi-Fi signal histograms' bucket bound at one position: ten finite
/// bounds from 10 to 100 units, then the overflow bound.
pub open spec fn spec_wifi_bound(i: int) -> Bound {
    if i < 10 {
        Bound::Finite((10000 * (i + 1)) as i64)
    } else {
        Bound::Inf
    }
}

/// The metric-kind label of a Wi-Fi signal series.
pub open spec fn spec_wifi_metric(j: int) -> Seq<char> {
    if j == 0 {
        "rssi"@
    } else if j == 1 {
        "phy_noise"@
    } else {
        "snr"@
    }
}

/// The Wi-Fi signal histograms' bucket bounds.
pub fn wifi_bounds() -> (r: Vec<Bound>)
    ensures
        r@.len() == 11,
        forall|i: int| 0 <= i < 11 ==> #[trigger] r@[i] == spec_wifi_bound(i),
{
    let mut r: Vec<Bound> = Vec::new();
    let mut i: usize = 0;
    while i < 10
        invariant
            i <= 10,
            r@.len() == i,
            forall|k: int| 0 <= k < i as int ==> #[trigger] r@[k] == spec_wifi_bound(k),
        decreases 10 - i,
    {
        r.push(Bound::Finite((i as i64 + 1) * 10000));
        i = i + 1;
    }
    r.push(Bound::Inf);
    r
}

/// One Wi-Fi signal series per combination of channel 1 to 14 and metric
/// kind (`rssi`, `phy_noise`, `snr`), each with the standard bounds and
/// nothing observed yet; the signal-strength table the exporter starts
/// with.
pub fn build_wifi_histograms(ssid: &str) -> (r: Vec<HistogramSamples>)
    ensures
        r@.len() == 42,
        forall|k: int| 0 <= k < 42 ==> (#[trigger] r@[k]).wf(),
        forall|k: int|
            0 <= k < 42 ==> (#[trigger] r@[k]).spec_labels() == seq![
                ssid@,
                spec_dec_nat((k % 14 + 1) as nat),
                spec_wifi_metric(k / 14),
            ],
        forall|k: int| 0 <= k < 42 ==> (#[trigger] r@[k]).spec_hist().spec_count() == 0,
        forall|k: int|
            0 <= k < 42 ==> (#[trigger] r@[k]).spec_hist().spec_buckets().len() == 11,
        forall|k: int, i: int|
            0 <= k < 42 && 0 <= i < 11 ==> #[trigger] r@[k].spec_hist().spec_buckets()[i]
                == (crate::histogram::Bucket { le: spec_wifi_bound(i), count: 0u64 }),
{
    let bounds = wifi_bounds();
    proof {
        assert forall|i: int, j: int| 0 <= i < j < bounds@.len() implies crate::histogram::bound_le(
            #[trigger] bounds@[i],
            #[trigger] bounds@[j],
        ) by {
            assert(bounds@[i] == spec_wifi_bound(i));
            assert(bounds@[j] == spec_wifi_bound(j));
        }
        assert(bounds@.last() == Bound::Inf);
    }
    let mut r: Vec<HistogramSamples> = Vec::new();
    let mut k: usize = 0;
    while k < 42
        invariant
            k <= 42,
            r@.len() == k,
            bounds@.len() == 11,
            forall|i: int| 0 <= i < 11 ==> #[trigger] bounds@[i] == spec_wifi_bound(i),
            bounds@.last() == Bound::Inf,
            forall|i: int, j: int|
                0 <= i < j < bounds@.len() ==> crate::histogram::bound_le(
                    #[trigger] bounds@[i],
                    #[trigger] bounds@[j],
                ),
            forall|q: int| 0 <= q < k as int ==> (#[trigger] r@[q]).wf(),
            forall|q: int|
                0 <= q < k as int ==> (#[trigger] r@[q]).spec_labels() == seq![
                    ssid@,
                    spec_dec_nat((q % 14 + 1) as nat),
                    spec_wifi_metric(q / 14),
                ],
            forall|q: int| 0 <= q < k as int ==> (#[trigger] r@[q]).spec_hist().spec_count() == 0,
            forall|q: int|
                0 <= q < k as int ==> (#[trigger] r@[q]).spec_hist().spec_buckets().len() == 11,
            forall|q: int, i: int|
                0 <= q < k as int && 0 <= i < 11 ==> #[trigger] r@[q].spec_hist().spec_buckets()[
                    i
                ] == (crate::histogram::Bucket { le: spec_wifi_bound(i), count: 0u64 }),
        decreases 42 - k,
    {
        let metric_name: &str = if k < 14 {
            "rssi"
        } else if k < 28 {
            "phy_noise"
        } else {
            "snr"
        };
        let channel: u64 = (k % 14) as u64 + 1;
        let channel_text = format_u64(channel);
        let lv = labels3(ssid, channel_text.as_str(), metric_name);
        proof {
            assert(lv.deep_view() =~= seq![
                ssid@,
                spec_dec_nat((k as int % 14 + 1) as nat),
                spec_wifi_metric(k as int / 14),
            ]);
        }
        let hs = HistogramSamples::new(lv, &bounds);
        r.push(hs);
        k = k + 1;
    }
    r
}

/// Everything one render of the page consumes: the request counter's
/// current value, the Wi-Fi signal table, what each sensor read just
/// produced (or nothing, when the read failed), and the per-sensor error
/// counts.
pub struct MetricsInput {
    /// The request counter's value, in milli units.
    pub request_count: i64,
    pub wifi_signal: Vec<HistogramSamples>,
    pub adc: Option<adc::Value>,
    pub sht30: Option<sht30::Reading>,
    pub sht30_errors: u64,
    pub has_ina237: bool,
    pub ina237: Option<ina237::Reading>,
    pub ina237_errors: u64,
}

/// The request-count family.
pub open spec fn spec_request_section(m: MetricsInput) -> Seq<char> {
    spec_comments_text(
        "http_request_count"@,
        "Number of http requests recieved"@,
        MetricType::Counter,
    ) + spec_metric_line(
        "http_request_count"@,
        Seq::<Seq<char>>::empty(),
        Seq::<Seq<char>>::empty(),
        spec_milli(m.request_count as int),
    )
}

/// The Wi-Fi signal-strength histogram family.
pub open spec fn spec_wifi_section(m: MetricsInput) -> Seq<char> {
    spec_comments_text("wifi_signal_strength"@, "Wifi signal strength"@, MetricType::Histogram)
        + spec_histogram_blocks(
        "wifi_signal_strength"@,
        seq!["ssid"@, "channel"@, "metric"@],
        m.wifi_signal@,
    )
}

/// The onboard-ADC gauge family; absent when the read failed.
pub open spec fn spec_adc_section(m: MetricsInput) -> Seq<char> {
    match m.adc {
        Some(v) => spec_comments_text(
            "adc_temp_sensor"@,
            "Value of onboard temp sensor"@,
            MetricType::Gauge,
        ) + spec_metric_line(
            "adc_temp_sensor"@,
            seq!["unit"@],
            seq!["C"@],
            spec_milli(v.temp_celsius as int),
        ) + spec_metric_line(
            "adc_temp_sensor"@,
            seq!["unit"@],
            seq!["volts"@],
            spec_milli(v.volt as int),
        ) + spec_metric_line(
            "adc_temp_sensor"@,
            seq!["unit"@],
            seq!["raw"@],
            spec_milli(v.raw as int * 1000),
        ),
        None => Seq::<char>::empty(),
    }
}

/// The SHT30 reading and status gauge families; absent when the read
/// failed.
pub open spec fn spec_sht30_section(m: MetricsInput) -> Seq<char> {
    match m.sht30 {
        Some(r) => spec_comments_text(
            "sht30_reading"@,
            "Reading from SHT30 Sensor"@,
            MetricType::Gauge,
        ) + spec_metric_line(
            "sht30_reading"@,
            seq!["sensor"@],
            seq!["temperature"@],
            spec_milli(r.temperature as int),
        ) + spec_metric_line(
            "sht30_reading"@,
            seq!["sensor"@],
            seq!["humidity"@],
            spec_milli(r.humidity as int),
        ) + spec_comments_text("sht30_status"@, "SHT30 Status Registers"@, MetricType::Gauge)
            + spec_metric_line(
            "sht30_status"@,
            seq!["feature"@],
            seq!["heater_status"@],
            spec_milli(spec_flag_milli(r.heater_status)),
        ) + spec_metric_line(
            "sht30_status"@,
            seq!["feature"@],
            seq!["humidity_tracking_alert"@],
            spec_milli(spec_flag_milli(r.humidity_tracking_alert)),
        ) + spec_metric_line(
            "sht30_status"@,
            seq!["feature"@],
            seq!["temperature_tracking_alert"@],
            spec_milli(spec_flag_milli(r.temperature_tracking_alert)),
        ) + spec_metric_line(
            "sht30_status"@,
            seq!["feature"@],
            seq!["command_status_success"@],
            spec_milli(spec_flag_milli(r.command_status_success)),
        ) + spec_metric_line(
            "sht30_status"@,
            seq!["feature"@],
            seq!["write_data_checksum_status"@],
            spec_milli(spec_flag_milli(r.write_data_checksum_status)),
        ),
        None => Seq::<char>::empty(),
    }
}

/// The SHT30 error-count family, rendered whether or not the read worked.
pub open spec fn spec_sht30_errors_section(m: MetricsInput) -> Seq<char> {
    spec_comments_text("sht30_error"@, "Errors reading from SHT30 Sensor"@, MetricType::Counter)
        + spec_metric_line(
        "sht30_error"@,
        Seq::<Seq<char>>::empty(),
        Seq::<Seq<char>>::empty(),
        spec_milli(spec_counter_milli(m.sht30_errors as nat)),
    )
}

/// The INA237 families: the register gauges when the device answered, and
/// its error count; nothing at all when the device was marked absent at
/// initialization.
pub open spec fn spec_ina237_section(m: MetricsInput) -> Seq<char> {
    if m.has_ina237 {
        (match m.ina237 {
            Some(r) => spec_comments_text(
                "ina237_reading"@,
                "register values from INA237 Sensor"@,
                MetricType::Gauge,
            ) + spec_metric_line(
                "ina237_reading"@,
                seq!["register"@],
                seq!["bus_voltage"@],
                spec_milli(r.bus_voltage as int),
            ) + spec_metric_line(
                "ina237_reading"@,
                seq!["register"@],
                seq!["shunt_voltage"@],
                spec_milli(r.shunt_voltage as int),
            ) + spec_metric_line(
                "ina237_reading"@,
                seq!["register"@],
                seq!["current"@],
                spec_milli(r.current as int),
            ) + spec_metric_line(
                "ina237_reading"@,
                seq!["register"@],
                seq!["power"@],
                spec_milli(r.power as int),
            ) + spec_metric_line(
                "ina237_reading"@,
                seq!["register"@],
                seq!["die_temperature"@],
                spec_milli(r.die_temperature as int),
            ),
            None => Seq::<char>::empty(),
        }) + spec_comments_text(
            "ina237_errors"@,
            "Errors reading from ina237"@,
            MetricType::Counter,
        ) + spec_metric_line(
            "ina237_errors"@,
            Seq::<Seq<char>>::empty(),
            Seq::<Seq<char>>::empty(),
            spec_milli(spec_counter_milli(m.ina237_errors as nat)),
        )
    } else {
        Seq::<char>::empty()
    }
}

/// The whole page, family by family.
pub open spec fn spec_page(m: MetricsInput) -> Seq<char> {
    spec_request_section(m) + spec_wifi_section(m) + spec_adc_section(m) + spec_sht30_section(m)
        + spec_sht30_errors_section(m) + spec_ina237_section(m)
}

fn render_request_section(m: &MetricsInput) -> (r: String)
    ensures
        r@ == spec_request_section(*m),
{
    let comments = MetricComments::new(
        String::from_str("Number of http requests recieved"),
        MetricType::Counter,
    );
    let mut out = render_comments("http_request_count", &comments);
    let l0 = labels0();
    let value_text = format_milli(m.request_count);
    let line = render_metric_line("http_request_count", &l0, &l0, value_text.as_str());
    out.append(line.as_str());
    proof {
        assert(l0.deep_view().len() == l0@.len());
        assert(out@ =~= spec_request_section(*m));
    }
    out
}

fn render_wifi_section(m: &MetricsInput) -> (r: String)
    requires
        forall|k: int| 0 <= k < m.wifi_signal@.len() ==> (#[trigger] m.wifi_signal@[k]).wf(),
        forall|k: int|
            0 <= k < m.wifi_signal@.len() ==> (#[trigger] m.wifi_signal@[k].spec_labels()).len()
                == 3,
    ensures
        r@ == spec_wifi_section(*m),
{
    let comments = MetricComments::new(
        String::from_str("Wifi signal strength"),
        MetricType::Histogram,
    );
    let mut out = render_comments("wifi_signal_strength", &comments);
    let names = labels3("ssid", "channel", "metric");
    proof {
        assert(names.deep_view().len() == names@.len());
    }
    let blocks = render_histogram_blocks("wifi_signal_strength", &names, &m.wifi_signal, 0);
    out.append(blocks.as_str());
    proof {
        assert(m.wifi_signal@.skip(0) =~= m.wifi_signal@);
        assert(out@ =~= spec_wifi_section(*m));
    }
    out
}

fn render_adc_section(m: &MetricsInput) -> (r: String)
    ensures
        r@ == spec_adc_section(*m),
{
    if m.adc.is_none() {
        let out = String::new();
        proof {
            assert(out@ =~= spec_adc_section(*m));
        }
        return out;
    }
    let v = *m.adc.as_ref().unwrap();
    let comments = MetricComments::new(
        String::from_str("Value of onboard temp sensor"),
        MetricType::Gauge,
    );
    let mut out = render_comments("adc_temp_sensor", &comments);
    let names = labels1("unit");
    proof {
        assert(names.deep_view().len() == names@.len());
    }
    let row_c = labels1("C");
    let text_c = format_milli(v.temp_celsius);
    let line_c = render_metric_line("adc_temp_sensor", &names, &row_c, text_c.as_str());
    out.append(line_c.as_str());
    let row_volts = labels1("volts");
    let text_volts = format_milli(v.volt);
    let line_volts = render_metric_line("adc_temp_sensor", &names, &row_volts, text_volts.as_str());
    out.append(line_volts.as_str());
    let row_raw = labels1("raw");
    let text_raw = format_milli((v.raw as i64) * 1000);
    let line_raw = render_metric_line("adc_temp_sensor", &names, &row_raw, text_raw.as_str());
    out.append(line_raw.as_str());
    proof {
        assert(out@ =~= spec_adc_section(*m));
    }
    out
}

fn render_sht30_section(m: &MetricsInput) -> (r: String)
    ensures
        r@ == spec_sht30_section(*m),
{
    if m.sht30.is_none() {
        let out = String::new();
        proof {
            assert(out@ =~= spec_sht30_section(*m));
        }
        return out;
    }
    let rd = *m.sht30.as_ref().unwrap();
    let comments = MetricComments::new(
        String::from_str("Reading from SHT30 Sensor"),
        MetricType::Gauge,
    );
    let mut out = render_comments("sht30_reading", &comments);
    let sensor = labels1("sensor");
    proof {
        assert(sensor.deep_view().len() == sensor@.len());
    }
    let row_t = labels1("temperature");
    let text_t = format_milli(rd.temperature);
    let line_t = render_metric_line("sht30_reading", &sensor, &row_t, text_t.as_str());
    out.append(line_t.as_str());
    let row_h = labels1("humidity");
    let text_h = format_milli(rd.humidity);
    let line_h = render_metric_line("sht30_reading", &sensor, &row_h, text_h.as_str());
    out.append(line_h.as_str());
    let status_comments = MetricComments::new(
        String::from_str("SHT30 Status Registers"),
        MetricType::Gauge,
    );
    let status = render_comments("sht30_status", &status_comments);
    out.append(status.as_str());
    let feature = labels1("feature");
    proof {
        assert(feature.deep_view().len() == feature@.len());
    }
    let row_heater = labels1("heater_status");
    let text_heater = format_milli(flag_milli(rd.heater_status));
    let line_heater = render_metric_line("sht30_status", &feature, &row_heater, text_heater.as_str());
    out.append(line_heater.as_str());
    let row_ha = labels1("humidity_tracking_alert");
    let text_ha = format_milli(flag_milli(rd.humidity_tracking_alert));
    let line_ha = render_metric_line("sht30_status", &feature, &row_ha, text_ha.as_str());
    out.append(line_ha.as_str());
    let row_ta = labels1("temperature_tracking_alert");
    let text_ta = format_milli(flag_milli(rd.temperature_tracking_alert));
    let line_ta = render_metric_line("sht30_status", &feature, &row_ta, text_ta.as_str());
    out.append(line_ta.as_str());
    let row_cs = labels1("command_status_success");
    let text_cs = format_milli(flag_milli(rd.command_status_success));
    let line_cs = render_metric_line("sht30_status", &feature, &row_cs, text_cs.as_str());
    out.append(line_cs.as_str());
    let row_wd = labels1("write_data_checksum_status");
    let text_wd = format_milli(flag_milli(rd.write_data_checksum_status));
    let line_wd = render_metric_line("sht30_status", &feature, &row_wd, text_wd.as_str());
    out.append(line_wd.as_str());
    proof {
        assert(out@ =~= spec_sht30_section(*m));
    }
    out
}

fn render_sht30_errors_section(m: &MetricsInput) -> (r: String)
    ensures
        r@ == spec_sht30_errors_section(*m),
{
    let comments = MetricComments::new(
        String::from_str("Errors reading from SHT30 Sensor"),
        MetricType::Counter,
    );
    let mut out = render_comments("sht30_error", &comments);
    let l0 = labels0();
    let value_text = format_milli(counter_milli(m.sht30_errors));
    let line = render_metric_line("sht30_error", &l0, &l0, value_text.as_str());
    out.append(line.as_str());
    proof {
        assert(l0.deep_view().len() == l0@.len());
        assert(out@ =~= spec_sht30_errors_section(*m));
    }
    out
}

fn render_ina237_section(m: &MetricsInput) -> (r: String)
    ensures
        r@ == spec_ina237_section(*m),
{
    if !m.has_ina237 {
        let out = String::new();
        proof {
            assert(out@ =~= spec_ina237_section(*m));
        }
        return out;
    }
    let mut out = String::new();
    if m.ina237.is_some() {
        let rd = *m.ina237.as_ref().unwrap();
        let comments = MetricComments::new(
            String::from_str("register values from INA237 Sensor"),
            MetricType::Gauge,
        );
        let header = render_comments("ina237_reading", &comments);
        out.append(header.as_str());
        let register = labels1("register");
        proof {
            assert(register.deep_view().len() == register@.len());
        }
        let row_bus = labels1("bus_voltage");
        let text_bus = format_milli(rd.bus_voltage);
        let line_bus = render_metric_line("ina237_reading", &register, &row_bus, text_bus.as_str());
        out.append(line_bus.as_str());
        let row_shunt = labels1("shunt_voltage");
        let text_shunt = format_milli(rd.shunt_voltage);
        let line_shunt = render_metric_line(
            "ina237_reading",
            &register,
            &row_shunt,
            text_shunt.as_str(),
        );
        out.append(line_shunt.as_str());
        let row_cur = labels1("current");
        let text_cur = format_milli(rd.current);
        let line_cur = render_metric_line("ina237_reading", &register, &row_cur, text_cur.as_str());
        out.append(line_cur.as_str());
        let row_pow = labels1("power");
        let text_pow = format_milli(rd.power);
        let line_pow = render_metric_line("ina237_reading", &register, &row_pow, text_pow.as_str());
        out.append(line_pow.as_str());
        let row_die = labels1("die_temperature");
        let text_die = format_milli(rd.die_temperature);
        let line_die = render_metric_line("ina237_reading", &register, &row_die, text_die.as_str());
        out.append(line_die.as_str());
    }
    let err_comments = MetricComments::new(
        String::from_str("Errors reading from ina237"),
        MetricType::Counter,
    );
    let err_header = render_comments("ina237_errors", &err_comments);
    out.append(err_header.as_str());
    let l0 = labels0();
    let err_text = format_milli(counter_milli(m.ina237_errors));
    let err_line = render_metric_line("ina237_errors", &l0, &l0, err_text.as_str());
    out.append(err_line.as_str());
    proof {
        assert(l0.deep_view().len() == l0@.len());
        assert(out@ =~= spec_ina237_section(*m));
    }
    out
}

/// Render the page as one chunk per family section, in page order, so a
/// caller can push each chunk to its byte sink and flush as it goes,
/// abandoning the remainder on the first write error; writing every chunk
/// in order writes exactly the page.
pub fn render_metrics_page_chunks(m: &MetricsInput) -> (r: Vec<String>)
    requires
        forall|k: int| 0 <= k < m.wifi_signal@.len() ==> (#[trigger] m.wifi_signal@[k]).wf(),
        forall|k: int|
            0 <= k < m.wifi_signal@.len() ==> (#[trigger] m.wifi_signal@[k].spec_labels()).len()
                == 3,
    ensures
        r@.len() == 6,
        r@[0]@ == spec_request_section(*m),
        r@[1]@ == spec_wifi_section(*m),
        r@[2]@ == spec_adc_section(*m),
        r@[3]@ == spec_sht30_section(*m),
        r@[4]@ == spec_sht30_errors_section(*m),
        r@[5]@ == spec_ina237_section(*m),
        spec_page(*m) == r@[0]@ + r@[1]@ + r@[2]@ + r@[3]@ + r@[4]@ + r@[5]@,
{
    let mut r: Vec<String> = Vec::new();
    r.push(render_request_section(m));
    r.push(render_wifi_section(m));
    r.push(render_adc_section(m));
    r.push(render_sht30_section(m));
    r.push(render_sht30_errors_section(m));
    r.push(render_ina237_section(m));
    r
}

/// Render the whole page from one set of prepared values.
pub fn render_metrics_page(m: &MetricsInput) -> (r: String)
    requires
        forall|k: int| 0 <= k < m.wifi_signal@.len() ==> (#[trigger] m.wifi_signal@[k]).wf(),
        forall|k: int|
            0 <= k < m.wifi_signal@.len() ==> (#[trigger] m.wifi_signal@[k].spec_labels()).len()
                == 3,
    ensures
        r@ == spec_page(*m),
{
    let mut out = render_request_section(m);
    let wifi = render_wifi_section(m);
    out.append(wifi.as_str());
    let adc_text = render_adc_section(m);
    out.append(adc_text.as_str());
    let sht = render_sht30_section(m);
    out.append(sht.as_str());
    let sht_err = render_sht30_errors_section(m);
    out.append(sht_err.as_str());
    let ina = render_ina237_section(m);
    out.append(ina.as_str());
    proof {
        assert(out@ =~= spec_page(*m));
    }
    out
}

/// A metrics response: the prepared values and the page they render to,
/// with the content type the HTTP layer must send.
pub struct MetricsResponse {
    pub input: MetricsInput,
}

impl MetricsResponse {
    pub fn new(input: MetricsInput) -> (r: MetricsResponse)
        ensures
            r.input == input,
    {
        MetricsResponse { input }
    }

    /// The content type of the response.
    pub fn content_type(&self) -> (r: &'static str)
        ensures
            r@ == "text/plain; version=0.0.4; charset=utf-8; escaping=underscores"@,
    {
        crate::render::content_type()
    }

    /// The response body.
    pub fn render(&self) -> (r: String)
        requires
            forall|k: int|
                0 <= k < self.input.wifi_signal@.len() ==> (
                #[trigger] self.input.wifi_signal@[k]).wf(),
            forall|k: int|
                0 <= k < self.input.wifi_signal@.len() ==> (
                #[trigger] self.input.wifi_signal@[k].spec_labels()).len() == 3,
        ensures
            r@ == spec_page(self.input),
    {
        render_metrics_page(&self.input)
    }
}

} // verus!
