use pico_climate::adc;
use pico_climate::ina237;
use pico_climate::sht30;
use pico_climate::sht30::{PollAction, ReadOutcome};

fn reading(temperature: i64, humidity: i64) -> sht30::Reading {
    sht30::Reading {
        temperature,
        humidity,
        heater_status: false,
        humidity_tracking_alert: false,
        temperature_tracking_alert: false,
        command_status_success: false,
        write_data_checksum_status: false,
    }
}

#[test]
fn record_feeds_medians_and_counters() {
    let mut state = sht30::SharedState::new();
    state.record(&reading(21000, 40000));
    state.record(&reading(23000, 42000));
    state.record(&reading(22000, 41000));
    let out = state.snapshot();
    assert_eq!(out.successes, 3);
    assert_eq!(out.temperature, 22000);
    assert_eq!(out.humidity, 41000);
    assert_eq!(out.zeros, 0);
}

#[test]
fn zero_reading_is_counted_and_kept_out_of_the_window() {
    let mut state = sht30::SharedState::new();
    state.record(&reading(0, 40000));
    let out = state.snapshot();
    assert_eq!(out.zeros, 1);
    // the suspect temperature was excluded, so its window is still empty
    assert_eq!(out.temperature, 0);
    assert_eq!(out.humidity, 40000);
    assert_eq!(out.successes, 1);
}

#[test]
fn status_flags_advance_their_counters() {
    let mut state = sht30::SharedState::new();
    let mut r = reading(21000, 40000);
    r.heater_status = true;
    r.command_status_success = true;
    state.record(&r);
    let out = state.snapshot();
    assert_eq!(out.heater_status_count, 1);
    assert_eq!(out.command_status_success_count, 1);
    assert_eq!(out.humidity_tracking_alert_count, 0);
    assert_eq!(out.temperature_tracking_alert_count, 0);
    assert_eq!(out.write_data_checksum_status_count, 0);
}

#[test]
fn error_timeout_and_reset_counters_are_independent() {
    let mut state = sht30::SharedState::new();
    state.record_error();
    state.record_timeout();
    state.record_timeout();
    state.record_reset();
    let out = state.snapshot();
    assert_eq!(out.recoverable_errors, 1);
    assert_eq!(out.timeouts, 2);
    assert_eq!(out.resets, 1);
    assert_eq!(out.successes, 0);
}

#[test]
fn snapshot_is_a_value_not_a_view() {
    let mut state = sht30::SharedState::new();
    state.record(&reading(21000, 40000));
    let before = state.snapshot();
    state.record(&reading(99000, 99000));
    let after = state.snapshot();
    // the earlier snapshot is untouched by later mutation
    assert_eq!(before.successes, 1);
    assert_eq!(before.temperature, 21000);
    assert_eq!(after.successes, 2);
}

#[test]
fn poll_outcomes_drive_the_state_machine() {
    let mut state = sht30::SharedState::new();
    let ok = ReadOutcome::Success(reading(21000, 40000));
    assert_eq!(sht30::apply_read_outcome(&mut state, &ok), PollAction::Continue);
    assert_eq!(
        sht30::apply_read_outcome(&mut state, &ReadOutcome::BusError),
        PollAction::Restart
    );
    assert_eq!(
        sht30::apply_read_outcome(&mut state, &ReadOutcome::Timeout),
        PollAction::Restart
    );
    let out = state.snapshot();
    assert_eq!(out.successes, 1);
    assert_eq!(out.recoverable_errors, 1);
    assert_eq!(out.timeouts, 1);
    assert_eq!(out.resets, 2);
}

#[test]
fn transient_errors_get_three_attempts() {
    assert!(sht30::should_retry(0));
    assert!(sht30::should_retry(1));
    assert!(sht30::should_retry(2));
    assert!(!sht30::should_retry(3));
    assert!(!sht30::should_retry(200));
}

#[test]
fn parse_reading_converts_words_and_flags() {
    let measurement: [u8; 6] = [0x66, 0x66, 0, 0x80, 0x00, 0];
    let r = sht30::parse_reading(&measurement, 0x4002);
    // raw 0x6666: -45 + 175 * 26214 / 65535 = 25 degrees exactly
    assert_eq!(r.temperature, 25000);
    // raw 0x8000: 100 * 32768 / 65535 = 50.000 percent
    assert_eq!(r.humidity, 50000);
    assert!(r.heater_status);
    assert!(r.command_status_success);
    assert!(!r.humidity_tracking_alert);
    assert!(!r.temperature_tracking_alert);
    assert!(!r.write_data_checksum_status);
}

#[test]
fn sht30_commands_and_device() {
    assert_eq!(sht30::cmd_measure(), [0x24, 0x00]);
    assert_eq!(sht30::cmd_read_status(), [0xf3, 0x2d]);
    assert_eq!(sht30::cmd_clear_status(), [0x30, 0x41]);
    assert_eq!(sht30::cmd_soft_reset(), [0x30, 0xa2]);
    let device = sht30::Sht30Device::new((), sht30::SHT30_ADDR);
    assert_eq!(device.addr, 0x44);
}

#[test]
fn ina237_register_scaling() {
    // bus voltage LSB is 3.125 mV: 1600 counts are 5 V
    assert_eq!(ina237::bus_voltage_milli(1600), 5000);
    assert_eq!(ina237::bus_voltage_milli(-8), -25);
    // die temperature uses the upper 12 bits at 125 m°C per LSB
    assert_eq!(ina237::die_temperature_milli(4096), 32000);
    assert_eq!(ina237::die_temperature_milli(-16), -125);
    // shunt voltage is carried as the raw count
    assert_eq!(ina237::shunt_voltage_milli(-3), -3000);
    // current LSB is 100 A / 2^15
    assert_eq!(ina237::current_milli(32767), 99996);
    assert_eq!(ina237::current_milli(-32768), -100000);
    // power LSB is 3.2 times the current LSB
    assert_eq!(ina237::power_milli(64), 625);
    assert_eq!(ina237::power_milli(100), 976);
}

#[test]
fn ina237_identity_and_readiness() {
    assert!(ina237::validate_manufacturer_id(21577).is_ok());
    assert_eq!(
        ina237::validate_manufacturer_id(0),
        Err(ina237::Ina237Error::InvalidDeviceId)
    );
    assert!(ina237::conversion_ready(0x0002));
    assert!(ina237::conversion_ready(0x0003));
    assert!(!ina237::conversion_ready(0x0001));
}

#[test]
fn e2e_bus_voltage_median_not_mean() {
    let mut state = ina237::SharedState::new(1000);
    state.record_bus_voltage(11900);
    state.record_bus_voltage(12000);
    state.record_bus_voltage(12100);
    let out = state.snapshot();
    assert_eq!(out.bus_voltage, 12000);
}

#[test]
fn low_bus_voltage_is_suspect() {
    let mut state = ina237::SharedState::new(1000);
    state.record_bus_voltage(12000);
    state.record_bus_voltage(5);
    state.record_bus_voltage(12200);
    let out = state.snapshot();
    assert_eq!(out.zeros, 1);
    // the glitch stayed out of the window: median of 12000 and 12200
    assert_eq!(out.bus_voltage, 12200);
}

#[test]
fn current_mean_resets_between_scrapes() {
    let mut state = ina237::SharedState::new(0);
    state.record_current(3000);
    state.record_current(4000);
    state.record_current(5000);
    let first = state.snapshot();
    assert_eq!(first.current, 4000);
    let second = state.snapshot();
    assert_eq!(second.current, 0);
}

#[test]
fn power_state_counters() {
    let mut state = ina237::SharedState::new(0);
    state.record_success();
    state.record_error();
    state.record_timeout();
    state.record_reset();
    state.record_shunt_voltage(-3000);
    state.record_die_temperature(32000);
    let out = state.snapshot();
    assert_eq!(out.successes, 1);
    assert_eq!(out.recoverable_errors, 1);
    assert_eq!(out.timeouts, 1);
    assert_eq!(out.resets, 1);
    assert_eq!(out.shunt_voltage, -3000);
    assert_eq!(out.die_temperature, 32000);
}

#[test]
fn adc_conversion() {
    let v = adc::convert(1024);
    assert_eq!(v.raw, 1024);
    // 1024 * 3290 / 4096 = 822 mV, truncated
    assert_eq!(v.volt, 822);
    // 27000 - (822 - 706) * 1000000 / 1721 = -40402 milli-degrees
    assert_eq!(v.temp_celsius, -40402);
}

#[test]
fn adc_conversion_at_zero() {
    let v = adc::convert(0);
    assert_eq!(v.volt, 0);
    assert_eq!(v.temp_celsius, 27000 + 410226);
}
