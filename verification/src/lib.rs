//! Threshold analysis of device log records.
//!
//! A record carries optional telemetry; [`analyzer::analyze_log`] turns it
//! into a verdict with one alert per breached threshold.

pub mod analyzer;
pub mod http;
pub mod record;
pub mod temperature;
pub mod text;
