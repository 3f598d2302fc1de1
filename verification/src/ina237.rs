//! The INA237 power monitor: register addresses and configuration words,
//! the scaling of raw register words into milli-unit values, and the
//! per-sensor aggregate state of its readings.  The I2C transactions are
//! the caller's; this module owns what the moved bytes mean.
//!
//! Scaling follows the datasheet with a calibration for a 15 milliohm shunt
//! and 100 A full-scale current: the shunt calibration word is
//! 819.2e6 * (100 / 2^15) * 0.015 = 37500 exactly.

use vstd::prelude::*;

use crate::arith::{div_trunc, spec_div_trunc};
use crate::average_set::{spec_avg, AverageSet};
use crate::sample_set::{spec_median, spec_record, SampleSet};
use crate::sht30::{inc64, SAMPLE_WINDOW};

verus! {

pub const INA237_REG_CONFIG: u8 = 0x00;

pub const INA237_REG_ADC_CONFIG: u8 = 0x01;

pub const INA237_REG_SHUNT_CAL: u8 = 0x02;

pub const INA237_REG_SHUNT_VOLTAGE: u8 = 0x04;

pub const INA237_REG_BUS_VOLTAGE: u8 = 0x05;

pub const INA237_REG_DIE_TEMP: u8 = 0x06;

pub const INA237_REG_CURRENT: u8 = 0x07;

pub const INA237_REG_POWER: u8 = 0x08;

pub const INA237_REG_DIAG_ALRT: u8 = 0x0b;

pub const INA237_REG_MANUFACTURER_ID: u8 = 0x3e;

/// The device's default I2C address.
pub const INA237_DEFAULT_ADDR: u8 = 0x40;

/// The manufacturer id word a genuine device answers.
pub const INA237_MANUFACTURER_ID: u16 = 21577;

/// The configuration word that resets the device and its accumulators.
pub const INA237_CONFIG_RESET: u16 = 0x8000;

/// The operating configuration written at initialization.
pub const INA237_CONFIG_INIT: u16 = 0x0080;

/// The ADC configuration that triggers a one-shot conversion of every
/// channel.
pub const INA237_ADC_CONFIG_TRIGGER: u16 = 0x7002;

/// The shunt calibration word for the 15 milliohm shunt.
pub const INA237_SHUNT_CAL: u16 = 37500;

/// What went wrong talking to the device.
#[derive(Clone, Copy, PartialEq, Eq, Structural, Debug)]
pub enum Ina237Error {
    /// An I2C transaction failed.
    I2cError,
    /// The manufacturer id register held the wrong word.
    InvalidDeviceId,
    /// The calibration could not be written.
    CalibrationError,
    /// A transaction timed out.
    Timeout,
}

/// One set of converted register readings, in milli units.
#[derive(Clone, Copy, PartialEq, Eq, Structural, Debug)]
pub struct Reading {
    pub bus_voltage: i64,
    pub shunt_voltage: i64,
    pub current: i64,
    pub power: i64,
    pub die_temperature: i64,
}

/// Bus voltage in milli-volts: the register LSB is 3.125 mV, so the raw
/// word scales by 25/8.
pub fn bus_voltage_milli(raw: i16) -> (r: i64)
    ensures
        r == spec_div_trunc(raw as int * 25, 8),
{
    div_trunc((raw as i64) * 25, 8)
}

/// Die temperature in milli-degrees Celsius: the upper 12 bits hold the
/// value with an LSB of 125 m°C.
pub fn die_temperature_milli(raw: i16) -> (r: i64)
    ensures
        r == (raw >> 4) as int * 125,
{
    ((raw >> 4) as i64) * 125
}

/// Shunt voltage as the raw register count, carried at milli precision.
pub fn shunt_voltage_milli(raw: i16) -> (r: i64)
    ensures
        r == raw as int * 1000,
{
    (raw as i64) * 1000
}

/// Current in milli-amperes: the LSB is 100 A / 2^15.
pub fn current_milli(raw: i16) -> (r: i64)
    ensures
        r == spec_div_trunc(raw as int * 100000, 32768),
{
    div_trunc((raw as i64) * 100000, 32768)
}

/// Power in milli-watts: the LSB is 3.2 times the current LSB.
pub fn power_milli(raw: u16) -> (r: i64)
    ensures
        r == (raw as int * 625) / 64,
{
    ((raw as u64) * 625 / 64) as i64
}

/// Whether the conversion-ready flag of the diagnostic register is set.
pub fn conversion_ready(diag: u16) -> (r: bool)
    ensures
        r == ((diag & 0x0002) != 0),
{
    (diag & 0x0002) != 0
}

/// Checks the manufacturer id read at initialization; a mismatch marks the
/// device absent rather than aborting the exporter.
pub fn validate_manufacturer_id(id: u16) -> (r: Result<(), Ina237Error>)
    ensures
        id == INA237_MANUFACTURER_ID <==> r is Ok,
        id != INA237_MANUFACTURER_ID ==> r == Result::<(), Ina237Error>::Err(
            Ina237Error::InvalidDeviceId,
        ),
{
    if id == INA237_MANUFACTURER_ID {
        Ok(())
    } else {
        Err(Ina237Error::InvalidDeviceId)
    }
}

/// The power monitor's aggregate state as a plain value.
pub ghost struct PowerView {
    pub bus_voltages: Seq<i64>,
    pub bus_recorded: int,
    pub shunt_voltages: Seq<i64>,
    pub shunt_recorded: int,
    pub die_temperatures: Seq<i64>,
    pub die_recorded: int,
    pub current_sum: int,
    pub current_count: int,
    pub min_bus_voltage: i64,
    pub successes: u64,
    pub timeouts: u64,
    pub zeros: u64,
    pub recoverable_errors: u64,
    pub resets: u64,
}

/// The immutable snapshot a render consumes: medians of the retained
/// voltage and temperature windows, the since-last-scrape mean current,
/// and the counters.
#[derive(Clone, Copy, PartialEq, Eq, Structural, Debug)]
pub struct Output {
    pub bus_voltage: i64,
    pub shunt_voltage: i64,
    pub current: i64,
    pub die_temperature: i64,
    pub successes: u64,
    pub timeouts: u64,
    pub zeros: u64,
    pub recoverable_errors: u64,
    pub resets: u64,
}

/// The snapshot a state yields: a pure function of the state.
pub open spec fn spec_snapshot(v: PowerView) -> Output {
    Output {
        bus_voltage: spec_median(v.bus_voltages),
        shunt_voltage: spec_median(v.shunt_voltages),
        current: spec_avg(v.current_sum, v.current_count) as i64,
        die_temperature: spec_median(v.die_temperatures),
        successes: v.successes,
        timeouts: v.timeouts,
        zeros: v.zeros,
        recoverable_errors: v.recoverable_errors,
        resets: v.resets,
    }
}

/// The mutable aggregate of the power monitor: voltage and temperature
/// readings smooth through retained median windows, while current — noisier
/// and higher-rate — accumulates into a destructive-read average; the two
/// behaviours are deliberately distinct.  Written only by the polling task,
/// snapshotted by the render path under the caller's mutex.
pub struct SharedState {
    bus_voltages: SampleSet,
    shunt_voltages: SampleSet,
    die_temperatures: SampleSet,
    currents: AverageSet,
    min_bus_voltage: i64,
    successes: u64,
    timeouts: u64,
    zeros: u64,
    recoverable_errors: u64,
    resets: u64,
}

impl SharedState {
    /// The state as a plain value.
    pub closed spec fn state(self) -> PowerView {
        PowerView {
            bus_voltages: self.bus_voltages.samples(),
            bus_recorded: self.bus_voltages.count_spec(),
            shunt_voltages: self.shunt_voltages.samples(),
            shunt_recorded: self.shunt_voltages.count_spec(),
            die_temperatures: self.die_temperatures.samples(),
            die_recorded: self.die_temperatures.count_spec(),
            current_sum: self.currents.spec_sum(),
            current_count: self.currents.spec_count(),
            min_bus_voltage: self.min_bus_voltage,
            successes: self.successes,
            timeouts: self.timeouts,
            zeros: self.zeros,
            recoverable_errors: self.recoverable_errors,
            resets: self.resets,
        }
    }

    pub closed spec fn wf(self) -> bool {
        &&& self.bus_voltages.wf()
        &&& self.shunt_voltages.wf()
        &&& self.die_temperatures.wf()
        &&& self.currents.wf()
        &&& self.bus_voltages.spec_capacity() == SAMPLE_WINDOW as int
        &&& self.shunt_voltages.spec_capacity() == SAMPLE_WINDOW as int
        &&& self.die_temperatures.spec_capacity() == SAMPLE_WINDOW as int
    }

    /// A fresh state; bus voltages below `min_bus_voltage` are treated as
    /// suspect samples.
    pub fn new(min_bus_voltage: i64) -> (r: SharedState)
        ensures
            r.wf(),
            r.state() == (PowerView {
                bus_voltages: Seq::<i64>::empty(),
                bus_recorded: 0,
                shunt_voltages: Seq::<i64>::empty(),
                shunt_recorded: 0,
                die_temperatures: Seq::<i64>::empty(),
                die_recorded: 0,
                current_sum: 0,
                current_count: 0,
                min_bus_voltage: min_bus_voltage,
                successes: 0u64,
                timeouts: 0u64,
                zeros: 0u64,
                recoverable_errors: 0u64,
                resets: 0u64,
            }),
    {
        SharedState {
            bus_voltages: SampleSet::new(SAMPLE_WINDOW),
            shunt_voltages: SampleSet::new(SAMPLE_WINDOW),
            die_temperatures: SampleSet::new(SAMPLE_WINDOW),
            currents: AverageSet::new(),
            min_bus_voltage,
            successes: 0,
            timeouts: 0,
            zeros: 0,
            recoverable_errors: 0,
            resets: 0,
        }
    }

    /// Record one bus-voltage sample.  A reading below the physical
    /// minimum is suspect: it is counted in `zeros` and kept out of the
    /// window, so a glitch cannot corrupt the median.
    pub fn record_bus_voltage(&mut self, v: i64)
        requires
            old(self).wf(),
            old(self).state().bus_recorded < u64::MAX,
        ensures
            final(self).wf(),
            final(self).state() == if v < old(self).state().min_bus_voltage {
                PowerView { zeros: inc64(old(self).state().zeros), ..old(self).state() }
            } else {
                PowerView {
                    bus_voltages: spec_record(
                        old(self).state().bus_voltages,
                        SAMPLE_WINDOW as int,
                        v,
                    ),
                    bus_recorded: old(self).state().bus_recorded + 1,
                    ..old(self).state()
                }
            },
    {
        if v < self.min_bus_voltage {
            self.zeros = self.zeros.saturating_add(1);
        } else {
            self.bus_voltages.record(v);
        }
    }

    /// Record one shunt-voltage sample.
    pub fn record_shunt_voltage(&mut self, v: i64)
        requires
            old(self).wf(),
            old(self).state().shunt_recorded < u64::MAX,
        ensures
            final(self).wf(),
            final(self).state() == (PowerView {
                shunt_voltages: spec_record(
                    old(self).state().shunt_voltages,
                    SAMPLE_WINDOW as int,
                    v,
                ),
                shunt_recorded: old(self).state().shunt_recorded + 1,
                ..old(self).state()
            }),
    {
        self.shunt_voltages.record(v);
    }

    /// Record one die-temperature sample.
    pub fn record_die_temperature(&mut self, v: i64)
        requires
            old(self).wf(),
            old(self).state().die_recorded < u64::MAX,
        ensures
            final(self).wf(),
            final(self).state() == (PowerView {
                die_temperatures: spec_record(
                    old(self).state().die_temperatures,
                    SAMPLE_WINDOW as int,
                    v,
                ),
                die_recorded: old(self).state().die_recorded + 1,
                ..old(self).state()
            }),
    {
        self.die_temperatures.record(v);
    }

    /// Record one current sample into the destructive-read average.
    pub fn record_current(&mut self, v: i64)
        requires
            old(self).wf(),
            old(self).state().current_count < u64::MAX,
        ensures
            final(self).wf(),
            final(self).state() == (PowerView {
                current_sum: old(self).state().current_sum + v,
                current_count: old(self).state().current_count + 1,
                ..old(self).state()
            }),
    {
        self.currents.record(v);
    }

    /// Count one successful reading.
    pub fn record_success(&mut self)
        requires
            old(self).wf(),
        ensures
            final(self).wf(),
            final(self).state() == (PowerView {
                successes: inc64(old(self).state().successes),
                ..old(self).state()
            }),
    {
        self.successes = self.successes.saturating_add(1);
    }

    /// Count one recoverable bus error.
    pub fn record_error(&mut self)
        requires
            old(self).wf(),
        ensures
            final(self).wf(),
            final(self).state() == (PowerView {
                recoverable_errors: inc64(old(self).state().recoverable_errors),
                ..old(self).state()
            }),
    {
        self.recoverable_errors = self.recoverable_errors.saturating_add(1);
    }

    /// Count one timed-out transaction.
    pub fn record_timeout(&mut self)
        requires
            old(self).wf(),
        ensures
            final(self).wf(),
            final(self).state() == (PowerView {
                timeouts: inc64(old(self).state().timeouts),
                ..old(self).state()
            }),
    {
        self.timeouts = self.timeouts.saturating_add(1);
    }

    /// Count one device reset.
    pub fn record_reset(&mut self)
        requires
            old(self).wf(),
        ensures
            final(self).wf(),
            final(self).state() == (PowerView {
                resets: inc64(old(self).state().resets),
                ..old(self).state()
            }),
    {
        self.resets = self.resets.saturating_add(1);
    }

    /// An immutable copy-out of the state at this instant.  Reading the
    /// mean current resets its accumulator, so it is a since-last-scrape
    /// mean; the median windows are retained.
    pub fn snapshot(&mut self) -> (out: Output)
        requires
            old(self).wf(),
        ensures
            final(self).wf(),
            out == spec_snapshot(old(self).state()),
            final(self).state() == (PowerView {
                current_sum: 0,
                current_count: 0,
                ..old(self).state()
            }),
    {
        let current = self.currents.avg();
        Output {
            bus_voltage: self.bus_voltages.median(),
            shunt_voltage: self.shunt_voltages.median(),
            current,
            die_temperature: self.die_temperatures.median(),
            successes: self.successes,
            timeouts: self.timeouts,
            zeros: self.zeros,
            recoverable_errors: self.recoverable_errors,
            resets: self.resets,
        }
    }
}

} // verus!
