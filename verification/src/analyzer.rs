//! The analyzer: three independent threshold checks on one record.
//!
//! The checks run in a fixed order (error level, response time, temperature)
//! and none of them hides another. Each breached threshold adds one alert.

use crate::record::{
    millis_of, reading_of, text_of, texts, unknown_device, AnalysisResult, AnalysisView, Log,
    LogView,
};
use crate::temperature::{
    above_threshold, lemma_threshold_encoding, Temperature, TemperatureView,
    TEMPERATURE_THRESHOLD, TEMPERATURE_THRESHOLD_BITS,
};
use crate::text::{decimal, decimal_text, starts_with};
use vstd::prelude::*;

verus! {

/// The response time above which a record raises an alert, in milliseconds.
pub const RESPONSE_TIME_THRESHOLD: u32 = 2000;

/// The level that marks an error. The match is exact and case-sensitive.
pub open spec fn error_level() -> Seq<char> {
    "ERROR"@
}

/// The message of a record, empty when it has none.
pub open spec fn message_text(message: Option<Seq<char>>) -> Seq<char> {
    match message {
        Some(text) => text,
        None => Seq::empty(),
    }
}

/// The alert text for an error with the given message.
pub open spec fn error_text(message: Seq<char>) -> Seq<char> {
    "Error detected: "@ + message
}

/// The alert text for a response time of `millis`.
pub open spec fn response_time_text(millis: nat) -> Seq<char> {
    "High response time: "@ + decimal(millis) + "ms (threshold: "@ + decimal(
        RESPONSE_TIME_THRESHOLD as nat,
    ) + "ms)"@
}

/// The alert text for a temperature that is shown as `reading`.
pub open spec fn temperature_text(reading: Seq<char>) -> Seq<char> {
    "High temperature: "@ + reading + "C (threshold: "@ + decimal(TEMPERATURE_THRESHOLD as nat)
        + "C)"@
}

/// The alert of the error-level check, if it fires.
pub open spec fn error_alert(level: Option<Seq<char>>, message: Option<Seq<char>>) -> Option<
    Seq<char>,
> {
    if level == Some(error_level()) {
        Some(error_text(message_text(message)))
    } else {
        None
    }
}

/// The alert of the response-time check, if it fires.
pub open spec fn response_time_alert(response_time: Option<nat>) -> Option<Seq<char>> {
    match response_time {
        Some(millis) => if millis > RESPONSE_TIME_THRESHOLD {
            Some(response_time_text(millis))
        } else {
            None
        },
        None => None,
    }
}

/// The alert of the temperature check, if it fires.
pub open spec fn temperature_alert(temperature: Option<TemperatureView>) -> Option<Seq<char>> {
    match temperature {
        Some(reading) => if above_threshold(reading.bits) {
            Some(temperature_text(reading.text))
        } else {
            None
        },
        None => None,
    }
}

/// The alerts that one check contributes: its alert, or nothing.
pub open spec fn raised(alert: Option<Seq<char>>) -> Seq<Seq<char>> {
    match alert {
        Some(text) => seq![text],
        None => Seq::empty(),
    }
}

/// The alerts of a record: what each check raised, in the order of evaluation.
pub open spec fn alerts_of(log: LogView) -> Seq<Seq<char>> {
    raised(error_alert(log.level, log.message)) + raised(response_time_alert(log.response_time))
        + raised(temperature_alert(log.temperature))
}

/// The status that goes with a list of alerts.
pub open spec fn status_of(alerts: Seq<Seq<char>>) -> Seq<char> {
    if alerts.len() > 0 {
        "ALERT"@
    } else {
        "OK"@
    }
}

/// The verdict on a record.
pub open spec fn analysis_of(log: LogView) -> AnalysisView {
    AnalysisView {
        status: status_of(alerts_of(log)),
        alerts: alerts_of(log),
        device_id: log.device_id,
    }
}

/// The thresholds as they appear in alert texts.
pub proof fn lemma_threshold_texts()
    ensures
        decimal(RESPONSE_TIME_THRESHOLD as nat) == "2000"@,
        decimal(TEMPERATURE_THRESHOLD as nat) == "80"@,
        forall|millis: nat|
            #[trigger] response_time_text(millis) == "High response time: "@ + decimal(millis)
                + "ms (threshold: 2000ms)"@,
        forall|reading: Seq<char>|
            #[trigger] temperature_text(reading) == "High temperature: "@ + reading
                + "C (threshold: 80C)"@,
{
    reveal_with_fuel(decimal, 4);
    reveal_strlit("2000");
    reveal_strlit("80");
    reveal_strlit("ms (threshold: ");
    reveal_strlit("ms)");
    reveal_strlit("ms (threshold: 2000ms)");
    reveal_strlit("C (threshold: ");
    reveal_strlit("C)");
    reveal_strlit("C (threshold: 80C)");
    assert(decimal(2000) =~= "2000"@);
    assert(decimal(80) =~= "80"@);
    let slow_tail = "ms (threshold: "@ + "2000"@ + "ms)"@;
    let hot_tail = "C (threshold: "@ + "80"@ + "C)"@;
    assert(slow_tail =~= "ms (threshold: 2000ms)"@);
    assert(hot_tail =~= "C (threshold: 80C)"@);
    assert forall|millis: nat|
        #[trigger] response_time_text(millis) == "High response time: "@ + decimal(millis)
            + "ms (threshold: 2000ms)"@ by {
        assert(response_time_text(millis) =~= "High response time: "@ + decimal(millis)
            + slow_tail);
    }
    assert forall|reading: Seq<char>|
        #[trigger] temperature_text(reading) == "High temperature: "@ + reading
            + "C (threshold: 80C)"@ by {
        assert(temperature_text(reading) =~= "High temperature: "@ + reading + hot_tail);
    }
}

/// Each kind of alert is told from the others by how its text begins.
pub proof fn lemma_alert_prefixes(message: Seq<char>, millis: nat, reading: Seq<char>)
    ensures
        starts_with(error_text(message), "Error detected: "@),
        !starts_with(error_text(message), "High response time: "@),
        !starts_with(error_text(message), "High temperature: "@),
        starts_with(response_time_text(millis), "High response time: "@),
        !starts_with(response_time_text(millis), "Error detected: "@),
        !starts_with(response_time_text(millis), "High temperature: "@),
        starts_with(temperature_text(reading), "High temperature: "@),
        !starts_with(temperature_text(reading), "Error detected: "@),
        !starts_with(temperature_text(reading), "High response time: "@),
{
    reveal_strlit("Error detected: ");
    reveal_strlit("High response time: ");
    reveal_strlit("High temperature: ");
    let error = "Error detected: "@;
    let slow = "High response time: "@;
    let hot = "High temperature: "@;
    let e = error_text(message);
    let s = response_time_text(millis);
    let h = temperature_text(reading);
    assert(e.subrange(0, 16) =~= error);
    assert(s.subrange(0, 20) =~= slow);
    assert(h.subrange(0, 18) =~= hot);
    assert(e[0] == 'E' && s[0] == 'H' && h[0] == 'H');
    assert(s[5] == 'r' && h[5] == 't');
    if starts_with(e, slow) {
        assert(e.subrange(0, 20)[0] == slow[0]);
    }
    if starts_with(e, hot) {
        assert(e.subrange(0, 18)[0] == hot[0]);
    }
    if starts_with(s, error) {
        assert(s.subrange(0, 16)[0] == error[0]);
    }
    if starts_with(s, hot) {
        assert(s.subrange(0, 18)[5] == hot[5]);
    }
    if starts_with(h, error) {
        assert(h.subrange(0, 16)[0] == error[0]);
    }
    if starts_with(h, slow) {
        assert(h.subrange(0, 20)[5] == slow[5]);
    }
}

/// The status is `"ALERT"` exactly when there is an alert, and `"OK"`
/// exactly when there is none.
pub proof fn lemma_status_tells_alerts(log: LogView)
    ensures
        analysis_of(log).status == "ALERT"@ <==> analysis_of(log).alerts.len() > 0,
        analysis_of(log).status == "OK"@ <==> analysis_of(log).alerts.len() == 0,
{
    reveal_strlit("ALERT");
    reveal_strlit("OK");
    assert("ALERT"@.len() != "OK"@.len());
}

/// A record with no level, no response time and no temperature is in order:
/// no alert, status `"OK"`.
pub proof fn lemma_record_without_telemetry_is_ok(log: LogView)
    requires
        log.level is None,
        log.response_time is None,
        log.temperature is None,
    ensures
        analysis_of(log).status == "OK"@,
        analysis_of(log).alerts == Seq::<Seq<char>>::empty(),
{
    assert(alerts_of(log) =~= Seq::<Seq<char>>::empty());
}

/// A record at level `"ERROR"` has exactly one alert that begins with
/// `"Error detected: "`, whatever its other fields hold: the first one, which
/// carries the message.
pub proof fn lemma_error_level_raises_one_error_alert(log: LogView)
    requires
        log.level == Some("ERROR"@),
    ensures
        analysis_of(log).alerts.len() >= 1,
        analysis_of(log).alerts[0] == "Error detected: "@ + message_text(log.message),
        forall|i: int|
            0 <= i < analysis_of(log).alerts.len() ==> (starts_with(
                #[trigger] analysis_of(log).alerts[i],
                "Error detected: "@,
            ) <==> i == 0),
{
    let alerts = alerts_of(log);
    assert forall|i: int| 0 <= i < alerts.len() implies (starts_with(
        #[trigger] alerts[i],
        "Error detected: "@,
    ) <==> i == 0) by {
        lemma_evaluation_order(log);
        let millis = if log.response_time is Some { log.response_time->0 } else { 0 };
        let reading = if log.temperature is Some { log.temperature->0.text } else { Seq::empty() };
        lemma_alert_prefixes(message_text(log.message), millis, reading);
    }
}

/// A response time above 2000 is reported, with its value.
pub proof fn lemma_slow_response_is_reported(log: LogView, millis: nat)
    requires
        log.response_time == Some(millis),
        millis > 2000,
    ensures
        analysis_of(log).alerts.contains(
            "High response time: "@ + decimal(millis) + "ms (threshold: 2000ms)"@,
        ),
        analysis_of(log).status == "ALERT"@,
{
    lemma_threshold_texts();
    lemma_evaluation_order(log);
    let at = raised(error_alert(log.level, log.message)).len() as int;
    assert(alerts_of(log)[at] == response_time_text(millis));
}

/// A response time of 2000 or less, or none, raises no response-time alert.
pub proof fn lemma_response_within_threshold_is_silent(log: LogView)
    requires
        log.response_time matches Some(millis) ==> millis <= 2000,
    ensures
        forall|i: int|
            0 <= i < analysis_of(log).alerts.len() ==> !starts_with(
                #[trigger] analysis_of(log).alerts[i],
                "High response time: "@,
            ),
{
    let alerts = alerts_of(log);
    assert forall|i: int| 0 <= i < alerts.len() implies !starts_with(
        #[trigger] alerts[i],
        "High response time: "@,
    ) by {
        lemma_evaluation_order(log);
        let reading = if log.temperature is Some { log.temperature->0.text } else { Seq::empty() };
        lemma_alert_prefixes(message_text(log.message), 0, reading);
    }
}

/// A temperature above 80 is reported, as it is shown.
pub proof fn lemma_hot_reading_is_reported(log: LogView, reading: TemperatureView)
    requires
        log.temperature == Some(reading),
        above_threshold(reading.bits),
    ensures
        analysis_of(log).alerts.contains(
            "High temperature: "@ + reading.text + "C (threshold: 80C)"@,
        ),
        analysis_of(log).alerts.last() == "High temperature: "@ + reading.text
            + "C (threshold: 80C)"@,
        analysis_of(log).status == "ALERT"@,
{
    lemma_threshold_texts();
    lemma_evaluation_order(log);
    let at = alerts_of(log).len() - 1;
    assert(alerts_of(log)[at] == temperature_text(reading.text));
}

/// A temperature that is not above 80, or none, raises no temperature alert.
pub proof fn lemma_reading_within_threshold_is_silent(log: LogView)
    requires
        log.temperature matches Some(reading) ==> !above_threshold(reading.bits),
    ensures
        forall|i: int|
            0 <= i < analysis_of(log).alerts.len() ==> !starts_with(
                #[trigger] analysis_of(log).alerts[i],
                "High temperature: "@,
            ),
{
    let alerts = alerts_of(log);
    assert forall|i: int| 0 <= i < alerts.len() implies !starts_with(
        #[trigger] alerts[i],
        "High temperature: "@,
    ) by {
        lemma_evaluation_order(log);
        let millis = if log.response_time is Some { log.response_time->0 } else { 0 };
        lemma_alert_prefixes(message_text(log.message), millis, Seq::empty());
    }
}

/// A reading of exactly 80 raises no temperature alert: the comparison is
/// strict.
pub proof fn lemma_reading_at_threshold_is_silent(log: LogView)
    requires
        log.temperature matches Some(reading) && reading.bits == TEMPERATURE_THRESHOLD_BITS,
    ensures
        temperature_alert(log.temperature) is None,
        forall|i: int|
            0 <= i < analysis_of(log).alerts.len() ==> !starts_with(
                #[trigger] analysis_of(log).alerts[i],
                "High temperature: "@,
            ),
{
    lemma_threshold_encoding();
    lemma_reading_within_threshold_is_silent(log);
}

/// A response time of exactly 2000 raises no response-time alert: the
/// comparison is strict.
pub proof fn lemma_response_at_threshold_is_silent(log: LogView)
    requires
        log.response_time == Some(RESPONSE_TIME_THRESHOLD as nat),
    ensures
        response_time_alert(log.response_time) is None,
        forall|i: int|
            0 <= i < analysis_of(log).alerts.len() ==> !starts_with(
                #[trigger] analysis_of(log).alerts[i],
                "High response time: "@,
            ),
{
    lemma_response_within_threshold_is_silent(log);
}

/// The alerts stand in the order of evaluation, whichever checks fire: the
/// error alert first, the temperature alert last, the response-time alert
/// between them, and nothing else.
pub proof fn lemma_evaluation_order(log: LogView)
    ensures
        ({
            let error = error_alert(log.level, log.message);
            let slow = response_time_alert(log.response_time);
            let hot = temperature_alert(log.temperature);
            let alerts = analysis_of(log).alerts;
            let after_error: int = if error is Some { 1 } else { 0 };
            let after_slow: int = after_error + if slow is Some { 1int } else { 0int };
            let after_hot: int = after_slow + if hot is Some { 1int } else { 0int };
            &&& alerts.len() == after_hot
            &&& error matches Some(text) ==> alerts[0] == text
            &&& slow matches Some(text) ==> alerts[after_error] == text
            &&& hot matches Some(text) ==> alerts[after_slow] == text
        }),
{
}

/// The verdict names the device of the record; a record that was given the
/// default identifier is answered under `"unknown"`.
pub proof fn lemma_device_id_is_kept(log: LogView)
    ensures
        analysis_of(log).device_id == log.device_id,
        log.device_id == unknown_device() ==> analysis_of(log).device_id == "unknown"@,
{
}

/// The error-level check.
pub fn check_error(level: &Option<String>, message: &Option<String>) -> (alert: Option<String>)
    ensures
        text_of(alert) == error_alert(text_of(*level), text_of(*message)),
{
    match level {
        Some(found) => {
            let wanted = String::from_str("ERROR");
            if *found == wanted {
                let mut text = String::from_str("Error detected: ");
                match message {
                    Some(detail) => {
                        text.append(detail.as_str());
                    },
                    None => {
                        assert(text@ + Seq::<char>::empty() =~= text@);
                    },
                }
                Some(text)
            } else {
                None
            }
        },
        None => None,
    }
}

/// The response-time check.
pub fn check_response_time(response_time: Option<u32>) -> (alert: Option<String>)
    ensures
        text_of(alert) == response_time_alert(millis_of(response_time)),
{
    match response_time {
        Some(millis) => {
            if millis > RESPONSE_TIME_THRESHOLD {
                let mut text = String::from_str("High response time: ");
                text.append(decimal_text(millis).as_str());
                text.append("ms (threshold: ");
                text.append(decimal_text(RESPONSE_TIME_THRESHOLD).as_str());
                text.append("ms)");
                Some(text)
            } else {
                None
            }
        },
        None => None,
    }
}

/// The temperature check.
pub fn check_temperature(temperature: &Option<Temperature>) -> (alert: Option<String>)
    ensures
        text_of(alert) == temperature_alert(reading_of(*temperature)),
{
    match temperature {
        Some(reading) => {
            if reading.exceeds_threshold() {
                let mut text = String::from_str("High temperature: ");
                text.append(reading.text.as_str());
                text.append("C (threshold: ");
                text.append(decimal_text(TEMPERATURE_THRESHOLD).as_str());
                text.append("C)");
                Some(text)
            } else {
                None
            }
        },
        None => None,
    }
}

/// Adds what one check raised to the alerts collected so far.
fn collect(alerts: &mut Vec<String>, alert: Option<String>)
    ensures
        texts(final(alerts)@) == texts(old(alerts)@) + raised(text_of(alert)),
{
    match alert {
        Some(text) => {
            alerts.push(text);
            assert(texts(alerts@) =~= texts(old(alerts)@) + seq![text@]);
        },
        None => {
            assert(texts(alerts@) =~= texts(old(alerts)@) + Seq::<Seq<char>>::empty());
        },
    }
}

/// Analyzes one record. All three checks are always evaluated; the second
/// component of the result tells whether any of them fired.
pub fn analyze_log(log: &Log) -> (outcome: (AnalysisResult, bool))
    ensures
        outcome.0@ == analysis_of(log@),
        outcome.1 == (alerts_of(log@).len() > 0),
{
    let mut alerts: Vec<String> = Vec::new();
    assert(texts(alerts@) =~= Seq::<Seq<char>>::empty());
    collect(&mut alerts, check_error(&log.level, &log.message));
    collect(&mut alerts, check_response_time(log.response_time));
    collect(&mut alerts, check_temperature(&log.temperature));
    assert(texts(alerts@) =~= alerts_of(log@));
    let is_alert = alerts.len() > 0;
    let status = if is_alert {
        String::from_str("ALERT")
    } else {
        String::from_str("OK")
    };
    (AnalysisResult { status, alerts, device_id: log.device_id.clone() }, is_alert)
}

} // verus!
