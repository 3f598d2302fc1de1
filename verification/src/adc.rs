//! The onboard temperature sensor behind the ADC: conversion of a raw
//! 12-bit sample into voltage and temperature, per the RP2040 datasheet
//! formula T = 27 - (V - 0.706) / 0.001721 with a 3.3 V reference.

use vstd::prelude::*;

use crate::arith::{div_trunc, spec_div_trunc};

verus! {

/// What went wrong reading the ADC.
#[derive(Clone, Copy, PartialEq, Eq, Structural, Debug)]
pub enum AdcError {
    /// The ADC conversion failed.
    Adc,
    /// The conversion timed out.
    Timeout,
}

/// One converted ADC sample.
#[derive(Clone, Copy, PartialEq, Eq, Structural, Debug)]
pub struct Value {
    /// Temperature in milli-degrees Celsius.
    pub temp_celsius: i64,
    /// ADC input voltage in milli-volts.
    pub volt: i64,
    /// The raw 12-bit sample.
    pub raw: u16,
}

/// ADC voltage in milli-volts: the raw 12-bit sample against the 3.29 V
/// measured reference.
pub open spec fn spec_adc_volt_milli(raw: int) -> int {
    (raw * 3290) / 4096
}

/// Temperature in milli-degrees Celsius from the voltage, truncated toward
/// zero.
pub open spec fn spec_adc_temp_milli(volt_milli: int) -> int {
    27000 - spec_div_trunc((volt_milli - 706) * 1000000, 1721)
}

/// Convert one raw ADC sample.
pub fn convert(raw: u16) -> (r: Value)
    ensures
        r.raw == raw,
        r.volt == spec_adc_volt_milli(raw as int),
        r.temp_celsius == spec_adc_temp_milli(r.volt as int),
{
    let volt: i64 = (((raw as u64) * 3290) / 4096) as i64;
    let temp: i64 = 27000 - div_trunc((volt - 706) * 1000000, 1721);
    Value { temp_celsius: temp, volt, raw }
}

} // verus!
