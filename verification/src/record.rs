//! The log record that comes in and the verdict that goes out.

use crate::temperature::{Temperature, TemperatureView};
use vstd::prelude::*;

verus! {

/// The device identifier of a record that names none.
pub open spec fn unknown_device() -> Seq<char> {
    "unknown"@
}

/// The device identifier that a record gets when it carries none.
pub fn default_device_id() -> (id: String)
    ensures
        id@ == unknown_device(),
{
    String::from_str("unknown")
}

/// One structured event submitted by a device. Only the device identifier is
/// always there; every telemetry field may be absent.
#[derive(Clone, Debug)]
pub struct Log {
    pub device_id: String,
    pub level: Option<String>,
    /// Milliseconds.
    pub response_time: Option<u32>,
    /// Degrees Celsius.
    pub temperature: Option<Temperature>,
    pub message: Option<String>,
}

/// The mathematical content of a [`Log`].
pub struct LogView {
    pub device_id: Seq<char>,
    pub level: Option<Seq<char>>,
    pub response_time: Option<nat>,
    pub temperature: Option<TemperatureView>,
    pub message: Option<Seq<char>>,
}

/// The content of an optional text.
pub open spec fn text_of(field: Option<String>) -> Option<Seq<char>> {
    match field {
        Some(text) => Some(text@),
        None => None,
    }
}

/// The content of an optional response time.
pub open spec fn millis_of(field: Option<u32>) -> Option<nat> {
    match field {
        Some(millis) => Some(millis as nat),
        None => None,
    }
}

/// The content of an optional temperature reading.
pub open spec fn reading_of(field: Option<Temperature>) -> Option<TemperatureView> {
    match field {
        Some(reading) => Some(reading@),
        None => None,
    }
}

impl View for Log {
    type V = LogView;

    open spec fn view(&self) -> LogView {
        LogView {
            device_id: self.device_id@,
            level: text_of(self.level),
            response_time: millis_of(self.response_time),
            temperature: reading_of(self.temperature),
            message: text_of(self.message),
        }
    }
}

impl Log {
    /// A record of the given device with no telemetry at all.
    pub fn new(device_id: String) -> (log: Log)
        ensures
            log@ == (LogView {
                device_id: device_id@,
                level: None,
                response_time: None,
                temperature: None,
                message: None,
            }),
    {
        Log { device_id, level: None, response_time: None, temperature: None, message: None }
    }
}

/// The contents of a list of texts, in order.
pub open spec fn texts(list: Seq<String>) -> Seq<Seq<char>> {
    Seq::new(list.len(), |i: int| list[i]@)
}

/// The verdict on one record.
#[derive(Clone, Debug)]
pub struct AnalysisResult {
    /// `"ALERT"` when a threshold was breached, `"OK"` otherwise.
    pub status: String,
    /// One text for each breached threshold, in the order of evaluation.
    pub alerts: Vec<String>,
    pub device_id: String,
}

/// The mathematical content of an [`AnalysisResult`].
pub struct AnalysisView {
    pub status: Seq<char>,
    pub alerts: Seq<Seq<char>>,
    pub device_id: Seq<char>,
}

impl View for AnalysisResult {
    type V = AnalysisView;

    open spec fn view(&self) -> AnalysisView {
        AnalysisView {
            status: self.status@,
            alerts: texts(self.alerts@),
            device_id: self.device_id@,
        }
    }
}

} // verus!
