use pico_climate::adc;
use pico_climate::histogram::Bound;
use pico_climate::ina237;
use pico_climate::page::{
    build_wifi_histograms, render_metrics_page, render_metrics_page_chunks, MetricsInput,
    MetricsResponse,
};
use pico_climate::sht30;

fn empty_input() -> MetricsInput {
    MetricsInput {
        request_count: 3000,
        wifi_signal: Vec::new(),
        adc: None,
        sht30: None,
        sht30_errors: 0,
        has_ina237: false,
        ina237: None,
        ina237_errors: 0,
    }
}

#[test]
fn wifi_table_covers_every_channel_and_metric() {
    let table = build_wifi_histograms("attic");
    assert_eq!(table.len(), 42);
    let first = table[0].get_label_values();
    assert_eq!(first[0], "attic");
    assert_eq!(first[1], "1");
    assert_eq!(first[2], "rssi");
    let mid = table[14].get_label_values();
    assert_eq!(mid[1], "1");
    assert_eq!(mid[2], "phy_noise");
    let last = table[41].get_label_values();
    assert_eq!(last[1], "14");
    assert_eq!(last[2], "snr");
    for series in &table {
        let h = series.hist();
        assert_eq!(h.count(), 0);
        let buckets = h.buckets();
        assert_eq!(buckets.len(), 11);
        assert_eq!(buckets[0].le, Bound::Finite(10000));
        assert_eq!(buckets[9].le, Bound::Finite(100000));
        assert_eq!(buckets[10].le, Bound::Inf);
    }
}

#[test]
fn minimal_page_renders_required_families_only() {
    let m = empty_input();
    assert_eq!(
        render_metrics_page(&m),
        "# HELP http_request_count Number of http requests recieved\n\
         # TYPE http_request_count counter\n\
         http_request_count 3\n\
         # HELP wifi_signal_strength Wifi signal strength\n\
         # TYPE wifi_signal_strength histogram\n\
         # HELP sht30_error Errors reading from SHT30 Sensor\n\
         # TYPE sht30_error counter\n\
         sht30_error 0\n"
    );
}

#[test]
fn adc_and_sht30_families_render_when_reads_succeed() {
    let mut m = empty_input();
    m.adc = Some(adc::Value { temp_celsius: 21500, volt: 706, raw: 879 });
    m.sht30 = Some(sht30::Reading {
        temperature: 25000,
        humidity: 50000,
        heater_status: true,
        humidity_tracking_alert: false,
        temperature_tracking_alert: false,
        command_status_success: true,
        write_data_checksum_status: false,
    });
    m.sht30_errors = 2;
    let page = render_metrics_page(&m);
    assert!(page.contains(
        "# HELP adc_temp_sensor Value of onboard temp sensor\n\
         # TYPE adc_temp_sensor gauge\n\
         adc_temp_sensor{unit=\"C\"} 21.5\n\
         adc_temp_sensor{unit=\"volts\"} 0.706\n\
         adc_temp_sensor{unit=\"raw\"} 879\n"
    ));
    assert!(page.contains(
        "# HELP sht30_reading Reading from SHT30 Sensor\n\
         # TYPE sht30_reading gauge\n\
         sht30_reading{sensor=\"temperature\"} 25\n\
         sht30_reading{sensor=\"humidity\"} 50\n"
    ));
    assert!(page.contains(
        "sht30_status{feature=\"heater_status\"} 1\n\
         sht30_status{feature=\"humidity_tracking_alert\"} 0\n\
         sht30_status{feature=\"temperature_tracking_alert\"} 0\n\
         sht30_status{feature=\"command_status_success\"} 1\n\
         sht30_status{feature=\"write_data_checksum_status\"} 0\n"
    ));
    assert!(page.contains("sht30_error 2\n"));
}

#[test]
fn ina237_families_render_only_when_present() {
    let mut m = empty_input();
    m.ina237 = Some(ina237::Reading {
        bus_voltage: 12000,
        shunt_voltage: -3000,
        current: 1500,
        power: 0,
        die_temperature: 32125,
    });
    m.ina237_errors = 1;
    // the device was marked absent at initialization: nothing renders
    let absent = render_metrics_page(&m);
    assert!(!absent.contains("ina237"));
    m.has_ina237 = true;
    let present = render_metrics_page(&m);
    assert!(present.contains(
        "# HELP ina237_reading register values from INA237 Sensor\n\
         # TYPE ina237_reading gauge\n\
         ina237_reading{register=\"bus_voltage\"} 12\n\
         ina237_reading{register=\"shunt_voltage\"} -3\n\
         ina237_reading{register=\"current\"} 1.5\n\
         ina237_reading{register=\"power\"} 0\n\
         ina237_reading{register=\"die_temperature\"} 32.125\n"
    ));
    assert!(present.contains(
        "# HELP ina237_errors Errors reading from ina237\n\
         # TYPE ina237_errors counter\n\
         ina237_errors 1\n"
    ));
}

#[test]
fn ina237_read_failure_still_renders_the_error_counter() {
    let mut m = empty_input();
    m.has_ina237 = true;
    m.ina237 = None;
    m.ina237_errors = 4;
    let page = render_metrics_page(&m);
    assert!(!page.contains("ina237_reading"));
    assert!(page.contains("ina237_errors 4\n"));
}

#[test]
fn observed_wifi_series_render_their_blocks() {
    let mut table = build_wifi_histograms("attic");
    table[0].sample(35000);
    let mut m = empty_input();
    m.wifi_signal = table;
    let page = render_metrics_page(&m);
    assert!(page.contains(
        "wifi_signal_strength_bucket{ssid=\"attic\",channel=\"1\",metric=\"rssi\",le=\"30\"} 0\n\
         wifi_signal_strength_bucket{ssid=\"attic\",channel=\"1\",metric=\"rssi\",le=\"40\"} 1\n"
    ));
    assert!(page.contains(
        "wifi_signal_strength_bucket{ssid=\"attic\",channel=\"1\",metric=\"rssi\",le=\"+Inf\"} 1\n\
         wifi_signal_strength_sum{ssid=\"attic\",channel=\"1\",metric=\"rssi\"} 35\n\
         wifi_signal_strength_count{ssid=\"attic\",channel=\"1\",metric=\"rssi\"} 1\n"
    ));
    // the 41 unobserved series render nothing
    assert!(!page.contains("channel=\"2\""));
}

#[test]
fn chunks_concatenate_to_the_page() {
    let mut m = empty_input();
    m.adc = Some(adc::Value { temp_celsius: 20000, volt: 700, raw: 870 });
    m.has_ina237 = true;
    let chunks = render_metrics_page_chunks(&m);
    assert_eq!(chunks.len(), 6);
    let joined: String = chunks.concat();
    assert_eq!(joined, render_metrics_page(&m));
    // an empty section renders an empty chunk, not a placeholder
    assert_eq!(chunks[3], "");
}

#[test]
fn response_carries_content_type_and_body() {
    let response = MetricsResponse::new(empty_input());
    assert_eq!(
        response.content_type(),
        "text/plain; version=0.0.4; charset=utf-8; escaping=underscores"
    );
    let body = response.render();
    assert!(body.starts_with("# HELP http_request_count"));
    assert!(body.ends_with("sht30_error 0\n"));
}
