use log_analyzer::http::{
    alert_lines, on_decoded, on_request, Body, Method, Reply, Step, STATUS_BAD_REQUEST,
    STATUS_METHOD_NOT_ALLOWED, STATUS_OK,
};
use log_analyzer::record::{default_device_id, AnalysisResult, Log};
use log_analyzer::temperature::Temperature;

fn error_of(reply: &Reply) -> String {
    match &reply.body {
        Body::Error(body) => body.error.clone(),
        Body::Analysis(_) => panic!("the reply carries a verdict"),
    }
}

fn verdict_of(reply: &Reply) -> AnalysisResult {
    match &reply.body {
        Body::Analysis(result) => result.clone(),
        Body::Error(body) => panic!("the reply carries an error: {}", body.error),
    }
}

fn not_posts() -> Vec<Method> {
    vec![
        Method::Get,
        Method::Head,
        Method::Put,
        Method::Delete,
        Method::Connect,
        Method::Options,
        Method::Trace,
        Method::Patch,
        Method::Other("PURGE".to_string()),
        Method::Other("POST".to_string()),
        Method::Other("post".to_string()),
        Method::Other(String::new()),
    ]
}

#[test]
fn status_codes() {
    assert_eq!(STATUS_OK, 200);
    assert_eq!(STATUS_BAD_REQUEST, 400);
    assert_eq!(STATUS_METHOD_NOT_ALLOWED, 405);
}

#[test]
fn post_goes_on_to_decoding() {
    assert!(matches!(on_request(&Method::Post), Step::Decode));
}

#[test]
fn other_methods_are_refused() {
    for method in not_posts() {
        match on_request(&method) {
            Step::Respond(reply) => {
                assert_eq!(reply.status, 405);
                assert_eq!(reply.content_type, "application/json");
                assert_eq!(error_of(&reply), "Method not allowed");
            }
            Step::Decode => panic!("{:?} was let through", method),
        }
    }
}

#[test]
fn get_request_is_answered_with_405() {
    match on_request(&Method::Get) {
        Step::Respond(reply) => {
            assert_eq!(reply.status, 405);
            let mut fields = serde_json::Map::new();
            fields.insert("error".to_string(), serde_json::Value::String(error_of(&reply)));
            let body = serde_json::to_string(&serde_json::Value::Object(fields)).unwrap();
            assert_eq!(body, "{\"error\":\"Method not allowed\"}");
        }
        Step::Decode => panic!("GET was let through"),
    }
}

#[test]
fn undecodable_body_is_answered_with_400() {
    let failure = serde_json::from_slice::<serde_json::Value>(b"not json").unwrap_err();
    let reason = failure.to_string();
    assert!(!reason.is_empty());
    let outcome = on_decoded(Err(reason.clone()));
    assert_eq!(outcome.reply.status, 400);
    assert_eq!(outcome.reply.content_type, "application/json");
    let error = error_of(&outcome.reply);
    assert!(error.starts_with("Invalid JSON: "));
    assert_eq!(error, format!("Invalid JSON: {}", reason));
    assert!(outcome.log_lines.is_empty());
}

#[test]
fn decode_failure_reason_is_embedded() {
    let outcome = on_decoded(Err("missing field at line 1 column 2".to_string()));
    assert_eq!(outcome.reply.status, 400);
    assert_eq!(error_of(&outcome.reply), "Invalid JSON: missing field at line 1 column 2");
    let outcome = on_decoded(Err(String::new()));
    assert_eq!(error_of(&outcome.reply), "Invalid JSON: ");
}

#[test]
fn quiet_record_is_answered_with_200_and_no_log() {
    let outcome = on_decoded(Ok(Log::new(default_device_id())));
    assert_eq!(outcome.reply.status, 200);
    assert_eq!(outcome.reply.content_type, "application/json");
    let result = verdict_of(&outcome.reply);
    assert_eq!(result.status, "OK");
    assert!(result.alerts.is_empty());
    assert_eq!(result.device_id, "unknown");
    assert!(outcome.log_lines.is_empty());
}

#[test]
fn alerts_are_answered_and_logged_in_order() {
    let log = Log {
        device_id: "d1".to_string(),
        level: Some("ERROR".to_string()),
        response_time: Some(2500),
        temperature: Some(Temperature::new(85.0f32.to_bits(), format!("{}", 85.0f32))),
        message: Some("disk full".to_string()),
    };
    let outcome = on_decoded(Ok(log));
    assert_eq!(outcome.reply.status, 200);
    let result = verdict_of(&outcome.reply);
    assert_eq!(result.status, "ALERT");
    assert_eq!(
        result.alerts,
        vec![
            "Error detected: disk full".to_string(),
            "High response time: 2500ms (threshold: 2000ms)".to_string(),
            "High temperature: 85C (threshold: 80C)".to_string(),
        ]
    );
    assert_eq!(result.device_id, "d1");
    assert_eq!(
        outcome.log_lines,
        vec![
            "[ALERT] Device: d1 - Error detected: disk full".to_string(),
            "[ALERT] Device: d1 - High response time: 2500ms (threshold: 2000ms)".to_string(),
            "[ALERT] Device: d1 - High temperature: 85C (threshold: 80C)".to_string(),
        ]
    );
}

#[test]
fn one_log_line_for_each_alert() {
    let result = AnalysisResult {
        status: "ALERT".to_string(),
        alerts: vec!["first".to_string(), String::new(), "third".to_string()],
        device_id: "pump-3".to_string(),
    };
    assert_eq!(
        alert_lines(&result),
        vec![
            "[ALERT] Device: pump-3 - first".to_string(),
            "[ALERT] Device: pump-3 - ".to_string(),
            "[ALERT] Device: pump-3 - third".to_string(),
        ]
    );
    let quiet = AnalysisResult {
        status: "OK".to_string(),
        alerts: Vec::new(),
        device_id: "pump-3".to_string(),
    };
    assert!(alert_lines(&quiet).is_empty());
}
