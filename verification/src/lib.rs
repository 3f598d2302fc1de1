//! Metrics aggregation and Prometheus text-exposition core for a small
//! sensor exporter.
//!
//! Readings are carried as fixed-point integers in thousandths of a unit
//! ("milli" values, e.g. 21.5 degrees is 21500), so that every statistic and
//! every rendered byte has an exact contract.  Rendering uses one consistent
//! decimal formatting: the milli value printed with up to three fractional
//! digits, trailing zeros trimmed and the decimal point omitted for whole
//! numbers.

pub mod adc;
pub mod arith;
pub mod average_set;
pub mod histogram;
pub mod ina237;
pub mod metric;
pub mod page;
pub mod render;
pub mod sample_set;
pub mod sht30;
pub mod text;
