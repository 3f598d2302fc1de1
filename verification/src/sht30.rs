//! The SHT30 humidity/temperature sensor: conversion of its raw measurement
//! frames into readings, the per-sensor aggregate state fed by the polling
//! task, and the decision step of the polling loop.  The I2C transactions
//! themselves are the caller's: this module turns the bytes they move into
//! values and the outcomes they observe into state.

use vstd::prelude::*;

use crate::sample_set::{spec_median, spec_record, SampleSet};

verus! {

/// The sensor's I2C address.
pub const SHT30_ADDR: u8 = 0x44;

/// How many recent samples the per-reading windows retain.
pub const SAMPLE_WINDOW: usize = 11;

/// The command that triggers a high-repeatability measurement without
/// clock stretching.
pub fn cmd_measure() -> (r: [u8; 2])
    ensures
        r@ == seq![0x24u8, 0x00u8],
{
    let r: [u8; 2] = [0x24, 0x00];
    proof {
        assert(r@ =~= seq![0x24u8, 0x00u8]);
    }
    r
}

/// The command that reads the status register.
pub fn cmd_read_status() -> (r: [u8; 2])
    ensures
        r@ == seq![0xf3u8, 0x2du8],
{
    let r: [u8; 2] = [0xf3, 0x2d];
    proof {
        assert(r@ =~= seq![0xf3u8, 0x2du8]);
    }
    r
}

/// The command that clears the status register.
pub fn cmd_clear_status() -> (r: [u8; 2])
    ensures
        r@ == seq![0x30u8, 0x41u8],
{
    let r: [u8; 2] = [0x30, 0x41];
    proof {
        assert(r@ =~= seq![0x30u8, 0x41u8]);
    }
    r
}

/// The command that soft-resets the device.
pub fn cmd_soft_reset() -> (r: [u8; 2])
    ensures
        r@ == seq![0x30u8, 0xa2u8],
{
    let r: [u8; 2] = [0x30, 0xa2];
    proof {
        assert(r@ =~= seq![0x30u8, 0xa2u8]);
    }
    r
}

/// A big-endian 16-bit word from two bytes.
pub fn word_from_be(hi: u8, lo: u8) -> (r: u16)
    ensures
        r == hi as int * 256 + lo as int,
{
    (hi as u16) * 256 + (lo as u16)
}

/// Temperature in milli-degrees Celsius from the raw 16-bit reading, per
/// the datasheet formula -45 + 175 * raw / 65535, truncated to milli
/// precision.
pub open spec fn spec_temperature_milli(raw: int) -> int {
    -45000 + (175000 * raw) / 65535
}

/// Relative humidity in milli-percent from the raw 16-bit reading, per the
/// datasheet formula 100 * raw / 65535, truncated to milli precision.
pub open spec fn spec_humidity_milli(raw: int) -> int {
    (100000 * raw) / 65535
}

/// Temperature in milli-degrees Celsius from the raw reading.
pub fn temperature_milli(raw: u16) -> (r: i64)
    ensures
        r == spec_temperature_milli(raw as int),
{
    let scaled: u64 = 175000 * (raw as u64);
    let q: u64 = scaled / 65535;
    -45000 + (q as i64)
}

/// Relative humidity in milli-percent from the raw reading.
pub fn humidity_milli(raw: u16) -> (r: i64)
    ensures
        r == spec_humidity_milli(raw as int),
{
    let scaled: u64 = 100000 * (raw as u64);
    let q: u64 = scaled / 65535;
    q as i64
}

/// One decoded measurement: the converted values and the status-register
/// flags read alongside them.
#[derive(Clone, Copy, PartialEq, Eq, Structural, Debug)]
pub struct Reading {
    pub temperature: i64,
    pub humidity: i64,
    pub heater_status: bool,
    pub humidity_tracking_alert: bool,
    pub temperature_tracking_alert: bool,
    pub command_status_success: bool,
    pub write_data_checksum_status: bool,
}

/// A reading from a 6-byte measurement frame (big-endian temperature word,
/// CRC, big-endian humidity word, CRC; the CRC bytes are not checked) and
/// the 16-bit status register.
pub fn parse_reading(measurement: &[u8; 6], status: u16) -> (r: Reading)
    ensures
        r.temperature == spec_temperature_milli(
            measurement@[0] as int * 256 + measurement@[1] as int,
        ),
        r.humidity == spec_humidity_milli(measurement@[3] as int * 256 + measurement@[4] as int),
        r.heater_status == ((status & 0x4000) != 0),
        r.humidity_tracking_alert == ((status & 0x1000) != 0),
        r.temperature_tracking_alert == ((status & 0x0800) != 0),
        r.command_status_success == ((status & 0x0002) != 0),
        r.write_data_checksum_status == ((status & 0x0001) != 0),
{
    let temp_raw = word_from_be(measurement[0], measurement[1]);
    let hum_raw = word_from_be(measurement[3], measurement[4]);
    Reading {
        temperature: temperature_milli(temp_raw),
        humidity: humidity_milli(hum_raw),
        heater_status: (status & 0x4000) != 0,
        humidity_tracking_alert: (status & 0x1000) != 0,
        temperature_tracking_alert: (status & 0x0800) != 0,
        command_status_success: (status & 0x0002) != 0,
        write_data_checksum_status: (status & 0x0001) != 0,
    }
}

/// The sensor device: its bus handle and address.  The I2C transactions on
/// it are the caller's; this crate only describes the bytes they move.
pub struct Sht30Device<I> {
    pub addr: u8,
    pub i2c: I,
}

impl<I> Sht30Device<I> {
    pub fn new(i2c: I, addr: u8) -> (r: Sht30Device<I>)
        ensures
            r.addr == addr,
            r.i2c == i2c,
    {
        Sht30Device { addr, i2c }
    }
}

/// The aggregate state of one sensor as a plain value: the retained sample
/// windows and the monotonic event counters.
pub ghost struct StateView {
    pub temperatures: Seq<i64>,
    pub humidities: Seq<i64>,
    pub successes: u64,
    pub timeouts: u64,
    pub zeros: u64,
    pub recoverable_errors: u64,
    pub resets: u64,
    pub heater_status_count: u64,
    pub humidity_tracking_alert_count: u64,
    pub temperature_tracking_alert_count: u64,
    pub command_status_success_count: u64,
    pub write_data_checksum_status_count: u64,
}

/// A counter bumped by one, held at the top of its range rather than
/// wrapping.
pub open spec fn inc64(c: u64) -> u64 {
    if c < u64::MAX {
        (c + 1) as u64
    } else {
        c
    }
}

/// The state after one successful reading is recorded: the success counter
/// advances, each nonzero value joins its sample window while a zero value
/// is treated as suspect — counted in `zeros` and kept out of the window —
/// and each set status flag advances its counter.
pub open spec fn spec_apply_record(v: StateView, r: Reading) -> StateView {
    StateView {
        successes: inc64(v.successes),
        temperatures: if r.temperature != 0 {
            spec_record(v.temperatures, SAMPLE_WINDOW as int, r.temperature)
        } else {
            v.temperatures
        },
        humidities: if r.humidity != 0 {
            spec_record(v.humidities, SAMPLE_WINDOW as int, r.humidity)
        } else {
            v.humidities
        },
        zeros: if r.temperature == 0 || r.humidity == 0 {
            inc64(v.zeros)
        } else {
            v.zeros
        },
        heater_status_count: if r.heater_status {
            inc64(v.heater_status_count)
        } else {
            v.heater_status_count
        },
        humidity_tracking_alert_count: if r.humidity_tracking_alert {
            inc64(v.humidity_tracking_alert_count)
        } else {
            v.humidity_tracking_alert_count
        },
        temperature_tracking_alert_count: if r.temperature_tracking_alert {
            inc64(v.temperature_tracking_alert_count)
        } else {
            v.temperature_tracking_alert_count
        },
        command_status_success_count: if r.command_status_success {
            inc64(v.command_status_success_count)
        } else {
            v.command_status_success_count
        },
        write_data_checksum_status_count: if r.write_data_checksum_status {
            inc64(v.write_data_checksum_status_count)
        } else {
            v.write_data_checksum_status_count
        },
        ..v
    }
}

/// The immutable snapshot a render consumes: medians of the retained
/// windows (0 while a window is empty) and the counters, copied out.
#[derive(Clone, Copy, PartialEq, Eq, Structural, Debug)]
pub struct Output {
    pub temperature: i64,
    pub humidity: i64,
    pub successes: u64,
    pub timeouts: u64,
    pub zeros: u64,
    pub recoverable_errors: u64,
    pub resets: u64,
    pub heater_status_count: u64,
    pub humidity_tracking_alert_count: u64,
    pub temperature_tracking_alert_count: u64,
    pub command_status_success_count: u64,
    pub write_data_checksum_status_count: u64,
}

/// The snapshot a state yields: a pure function of the state, so two
/// snapshots of the same state are the same value.
pub open spec fn spec_snapshot(v: StateView) -> Output {
    Output {
        temperature: spec_median(v.temperatures),
        humidity: spec_median(v.humidities),
        successes: v.successes,
        timeouts: v.timeouts,
        zeros: v.zeros,
        recoverable_errors: v.recoverable_errors,
        resets: v.resets,
        heater_status_count: v.heater_status_count,
        humidity_tracking_alert_count: v.humidity_tracking_alert_count,
        temperature_tracking_alert_count: v.temperature_tracking_alert_count,
        command_status_success_count: v.command_status_success_count,
        write_data_checksum_status_count: v.write_data_checksum_status_count,
    }
}

/// The mutable aggregate of one sensor: written only by its polling task,
/// snapshotted by the render path.  The caller guards it with its mutex;
/// every mutation here is a single in-memory step, safe to perform inside
/// a short critical section.
pub struct SharedState {
    temperatures: SampleSet,
    humidities: SampleSet,
    successes: u64,
    timeouts: u64,
    zeros: u64,
    recoverable_errors: u64,
    resets: u64,
    heater_status_count: u64,
    humidity_tracking_alert_count: u64,
    temperature_tracking_alert_count: u64,
    command_status_success_count: u64,
    write_data_checksum_status_count: u64,
}

impl SharedState {
    /// The state as a plain value.
    pub closed spec fn state(self) -> StateView {
        StateView {
            temperatures: self.temperatures.samples(),
            humidities: self.humidities.samples(),
            successes: self.successes,
            timeouts: self.timeouts,
            zeros: self.zeros,
            recoverable_errors: self.recoverable_errors,
            resets: self.resets,
            heater_status_count: self.heater_status_count,
            humidity_tracking_alert_count: self.humidity_tracking_alert_count,
            temperature_tracking_alert_count: self.temperature_tracking_alert_count,
            command_status_success_count: self.command_status_success_count,
            write_data_checksum_status_count: self.write_data_checksum_status_count,
        }
    }

    pub closed spec fn wf(self) -> bool {
        &&& self.temperatures.wf()
        &&& self.humidities.wf()
        &&& self.temperatures.spec_capacity() == SAMPLE_WINDOW as int
        &&& self.humidities.spec_capacity() == SAMPLE_WINDOW as int
        &&& self.temperatures.count_spec() <= self.successes
        &&& self.humidities.count_spec() <= self.successes
    }

    pub fn new() -> (r: SharedState)
        ensures
            r.wf(),
            r.state() == (StateView {
                temperatures: Seq::<i64>::empty(),
                humidities: Seq::<i64>::empty(),
                successes: 0u64,
                timeouts: 0u64,
                zeros: 0u64,
                recoverable_errors: 0u64,
                resets: 0u64,
                heater_status_count: 0u64,
                humidity_tracking_alert_count: 0u64,
                temperature_tracking_alert_count: 0u64,
                command_status_success_count: 0u64,
                write_data_checksum_status_count: 0u64,
            }),
    {
        SharedState {
            temperatures: SampleSet::new(SAMPLE_WINDOW),
            humidities: SampleSet::new(SAMPLE_WINDOW),
            successes: 0,
            timeouts: 0,
            zeros: 0,
            recoverable_errors: 0,
            resets: 0,
            heater_status_count: 0,
            humidity_tracking_alert_count: 0,
            temperature_tracking_alert_count: 0,
            command_status_success_count: 0,
            write_data_checksum_status_count: 0,
        }
    }

    /// Record one successful reading.
    pub fn record(&mut self, reading: &Reading)
        requires
            old(self).wf(),
            old(self).state().successes < u64::MAX,
        ensures
            final(self).wf(),
            final(self).state() == spec_apply_record(old(self).state(), *reading),
    {
        self.successes = self.successes + 1;
        if reading.temperature != 0 {
            self.temperatures.record(reading.temperature);
        }
        if reading.humidity != 0 {
            self.humidities.record(reading.humidity);
        }
        if reading.temperature == 0 || reading.humidity == 0 {
            self.zeros = self.zeros.saturating_add(1);
        }
        if reading.heater_status {
            self.heater_status_count = self.heater_status_count.saturating_add(1);
        }
        if reading.humidity_tracking_alert {
            self.humidity_tracking_alert_count = self.humidity_tracking_alert_count.saturating_add(
                1,
            );
        }
        if reading.temperature_tracking_alert {
            self.temperature_tracking_alert_count =
                self.temperature_tracking_alert_count.saturating_add(1);
        }
        if reading.command_status_success {
            self.command_status_success_count = self.command_status_success_count.saturating_add(
                1,
            );
        }
        if reading.write_data_checksum_status {
            self.write_data_checksum_status_count =
                self.write_data_checksum_status_count.saturating_add(1);
        }
    }

    /// Count one recoverable bus error.
    pub fn record_error(&mut self)
        requires
            old(self).wf(),
        ensures
            final(self).wf(),
            final(self).state() == (StateView {
                recoverable_errors: inc64(old(self).state().recoverable_errors),
                ..old(self).state()
            }),
    {
        self.recoverable_errors = self.recoverable_errors.saturating_add(1);
    }

    /// Count one timed-out transaction.
    pub fn record_timeout(&mut self)
        requires
            old(self).wf(),
        ensures
            final(self).wf(),
            final(self).state() == (StateView {
                timeouts: inc64(old(self).state().timeouts),
                ..old(self).state()
            }),
    {
        self.timeouts = self.timeouts.saturating_add(1);
    }

    /// Count one device reset.
    pub fn record_reset(&mut self)
        requires
            old(self).wf(),
        ensures
            final(self).wf(),
            final(self).state() == (StateView {
                resets: inc64(old(self).state().resets),
                ..old(self).state()
            }),
    {
        self.resets = self.resets.saturating_add(1);
    }

    /// An immutable copy-out of the state at this instant: a value, not a
    /// reference, so the caller releases the lock before rendering it.
    pub fn snapshot(&self) -> (out: Output)
        requires
            self.wf(),
        ensures
            out == spec_snapshot(self.state()),
    {
        Output {
            temperature: self.temperatures.median(),
            humidity: self.humidities.median(),
            successes: self.successes,
            timeouts: self.timeouts,
            zeros: self.zeros,
            recoverable_errors: self.recoverable_errors,
            resets: self.resets,
            heater_status_count: self.heater_status_count,
            humidity_tracking_alert_count: self.humidity_tracking_alert_count,
            temperature_tracking_alert_count: self.temperature_tracking_alert_count,
            command_status_success_count: self.command_status_success_count,
            write_data_checksum_status_count: self.write_data_checksum_status_count,
        }
    }
}

/// What one pass of the polling loop observed.
pub enum ReadOutcome {
    /// The measurement and status reads both completed.
    Success(Reading),
    /// A bus transaction failed; the device is reset and polling restarts.
    BusError,
    /// A transaction timed out; the device is presumed wedged, reset, and
    /// polling restarts.
    Timeout,
}

/// What the polling loop does next.
#[derive(Clone, Copy, PartialEq, Eq, Structural, Debug)]
pub enum PollAction {
    /// Keep polling at the tick interval.
    Continue,
    /// Soft-reset the device and re-enter the polling loop.
    Restart,
}

/// The state after one poll outcome is absorbed.
pub open spec fn spec_apply_outcome(v: StateView, outcome: ReadOutcome) -> StateView {
    match outcome {
        ReadOutcome::Success(r) => spec_apply_record(v, r),
        ReadOutcome::BusError => StateView {
            recoverable_errors: inc64(v.recoverable_errors),
            resets: inc64(v.resets),
            ..v
        },
        ReadOutcome::Timeout => StateView {
            timeouts: inc64(v.timeouts),
            resets: inc64(v.resets),
            ..v
        },
    }
}

/// The action one poll outcome demands.
pub open spec fn spec_outcome_action(outcome: ReadOutcome) -> PollAction {
    match outcome {
        ReadOutcome::Success(_) => PollAction::Continue,
        ReadOutcome::BusError => PollAction::Restart,
        ReadOutcome::Timeout => PollAction::Restart,
    }
}

/// How many attempts a transient bus error is given before it escalates.
pub const MAX_READ_ATTEMPTS: u8 = 3;

/// Whether a failed transaction should be retried: transient bus errors
/// get a bounded number of attempts with short backoff; after that the
/// failure escalates and `apply_read_outcome` absorbs it.
pub fn should_retry(attempts_made: u8) -> (r: bool)
    ensures
        r == (attempts_made < MAX_READ_ATTEMPTS),
{
    attempts_made < MAX_READ_ATTEMPTS
}

/// The decision step of the polling loop: absorb one outcome into the
/// state and say whether to keep polling or to reset the device first.
/// Errors never propagate further; they are absorbed into the counters and
/// surfaced only as metrics.
pub fn apply_read_outcome(state: &mut SharedState, outcome: &ReadOutcome) -> (r: PollAction)
    requires
        old(state).wf(),
        old(state).state().successes < u64::MAX,
    ensures
        final(state).wf(),
        final(state).state() == spec_apply_outcome(old(state).state(), *outcome),
        r == spec_outcome_action(*outcome),
{
    match outcome {
        ReadOutcome::Success(reading) => {
            state.record(reading);
            PollAction::Continue
        },
        ReadOutcome::BusError => {
            state.record_error();
            state.record_reset();
            PollAction::Restart
        },
        ReadOutcome::Timeout => {
            state.record_timeout();
            state.record_reset();
            PollAction::Restart
        },
    }
}

} // verus!
