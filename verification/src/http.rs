//! The decisions of the HTTP boundary.
//!
//! The boundary itself (reading the request, decoding JSON, writing the
//! response and the log) lives outside this library. What it has to decide is
//! here: which requests are refused, what a decode failure is answered with,
//! and what is answered and logged for a record.
//!
//! A request is handled in two steps. [`on_request`] looks at the method and
//! either answers at once or asks for the body to be decoded; [`on_decoded`]
//! takes what the decoder made of the body and gives the final answer.

use crate::analyzer::{analysis_of, analyze_log};
use crate::record::{texts, AnalysisResult, AnalysisView, Log, LogView};
use vstd::prelude::*;

verus! {

/// Status of a reply that carries a verdict.
pub const STATUS_OK: u16 = 200;

/// Status of the reply to a body that could not be decoded.
pub const STATUS_BAD_REQUEST: u16 = 400;

/// Status of the reply to a request that is not a POST.
pub const STATUS_METHOD_NOT_ALLOWED: u16 = 405;

/// An HTTP request method.
#[derive(Clone, Debug)]
pub enum Method {
    Get,
    Head,
    Post,
    Put,
    Delete,
    Connect,
    Options,
    Trace,
    Patch,
    /// Any other method, by its name. A method given this way is never taken
    /// for one of the standard ones, whatever its name.
    Other(String),
}

/// The body of a reply that reports a failure.
#[derive(Clone, Debug)]
pub struct ErrorBody {
    pub error: String,
}

/// What a reply carries: the verdict, or the reason why there is none.
#[derive(Clone, Debug)]
pub enum Body {
    Analysis(AnalysisResult),
    Error(ErrorBody),
}

/// The mathematical content of a [`Body`].
pub enum BodyView {
    Analysis(AnalysisView),
    Error(Seq<char>),
}

impl View for Body {
    type V = BodyView;

    open spec fn view(&self) -> BodyView {
        match self {
            Body::Analysis(result) => BodyView::Analysis(result@),
            Body::Error(body) => BodyView::Error(body.error@),
        }
    }
}

/// The answer to a request. The body is to be sent as JSON.
#[derive(Clone, Debug)]
pub struct Reply {
    pub status: u16,
    pub content_type: String,
    pub body: Body,
}

/// The mathematical content of a [`Reply`].
pub struct ReplyView {
    pub status: u16,
    pub content_type: Seq<char>,
    pub body: BodyView,
}

impl View for Reply {
    type V = ReplyView;

    open spec fn view(&self) -> ReplyView {
        ReplyView { status: self.status, content_type: self.content_type@, body: self.body@ }
    }
}

/// What the boundary does after the method was looked at.
#[derive(Clone, Debug)]
pub enum Step {
    /// Decode the body and hand the result to [`on_decoded`].
    Decode,
    /// Send this reply; the body is not looked at.
    Respond(Reply),
}

/// The mathematical content of a [`Step`].
pub enum StepView {
    Decode,
    Respond(ReplyView),
}

impl View for Step {
    type V = StepView;

    open spec fn view(&self) -> StepView {
        match self {
            Step::Decode => StepView::Decode,
            Step::Respond(reply) => StepView::Respond(reply@),
        }
    }
}

/// The end of a request: the reply to send and the lines to log before it.
#[derive(Clone, Debug)]
pub struct Outcome {
    pub reply: Reply,
    pub log_lines: Vec<String>,
}

/// The mathematical content of an [`Outcome`].
pub struct OutcomeView {
    pub reply: ReplyView,
    pub log_lines: Seq<Seq<char>>,
}

impl View for Outcome {
    type V = OutcomeView;

    open spec fn view(&self) -> OutcomeView {
        OutcomeView { reply: self.reply@, log_lines: texts(self.log_lines@) }
    }
}

/// The media type of every reply.
pub open spec fn json_media_type() -> Seq<char> {
    "application/json"@
}

/// The reply to a request whose method is not POST.
pub open spec fn method_not_allowed_reply() -> ReplyView {
    ReplyView {
        status: STATUS_METHOD_NOT_ALLOWED,
        content_type: json_media_type(),
        body: BodyView::Error("Method not allowed"@),
    }
}

/// The reply to a body that the decoder refused with `reason`.
pub open spec fn invalid_json_reply(reason: Seq<char>) -> ReplyView {
    ReplyView {
        status: STATUS_BAD_REQUEST,
        content_type: json_media_type(),
        body: BodyView::Error("Invalid JSON: "@ + reason),
    }
}

/// The reply that carries a verdict.
pub open spec fn analysis_reply(analysis: AnalysisView) -> ReplyView {
    ReplyView {
        status: STATUS_OK,
        content_type: json_media_type(),
        body: BodyView::Analysis(analysis),
    }
}

/// The log line for one alert of a device.
pub open spec fn log_line(device_id: Seq<char>, alert: Seq<char>) -> Seq<char> {
    "[ALERT] Device: "@ + device_id + " - "@ + alert
}

/// The log lines that go with a verdict, one for each alert and in the same order.
pub open spec fn log_lines_of(analysis: AnalysisView) -> Seq<Seq<char>> {
    Seq::new(analysis.alerts.len(), |i: int| log_line(analysis.device_id, analysis.alerts[i]))
}

/// The step that follows a request with the given method.
pub open spec fn step_after(method: Method) -> StepView {
    if method is Post {
        StepView::Decode
    } else {
        StepView::Respond(method_not_allowed_reply())
    }
}

/// What the decoder hands over, by its content.
pub open spec fn decoded_view(decoded: Result<Log, String>) -> Result<LogView, Seq<char>> {
    match decoded {
        Ok(log) => Ok(log@),
        Err(reason) => Err(reason@),
    }
}

/// The end of a request whose body was decoded, or was not.
pub open spec fn outcome_of(decoded: Result<LogView, Seq<char>>) -> OutcomeView {
    match decoded {
        Ok(log) => OutcomeView {
            reply: analysis_reply(analysis_of(log)),
            log_lines: log_lines_of(analysis_of(log)),
        },
        Err(reason) => OutcomeView {
            reply: invalid_json_reply(reason),
            log_lines: Seq::empty(),
        },
    }
}

/// A reply that reports a failure.
fn error_reply(status: u16, error: String) -> (reply: Reply)
    ensures
        reply@ == (ReplyView {
            status,
            content_type: json_media_type(),
            body: BodyView::Error(error@),
        }),
{
    Reply {
        status,
        content_type: String::from_str("application/json"),
        body: Body::Error(ErrorBody { error }),
    }
}

/// Looks at the method of a request. Only POST goes on to decoding; every
/// other method is answered with 405 at once.
pub fn on_request(method: &Method) -> (step: Step)
    ensures
        step@ == step_after(*method),
{
    match method {
        Method::Post => Step::Decode,
        _ => Step::Respond(
            error_reply(STATUS_METHOD_NOT_ALLOWED, String::from_str("Method not allowed")),
        ),
    }
}

/// The lines to log for a verdict.
pub fn alert_lines(result: &AnalysisResult) -> (lines: Vec<String>)
    ensures
        texts(lines@) == log_lines_of(result@),
{
    let mut lines: Vec<String> = Vec::new();
    let mut i: usize = 0;
    while i < result.alerts.len()
        invariant
            i <= result.alerts.len(),
            lines.len() == i,
            forall|k: int|
                0 <= k < i ==> (#[trigger] lines[k])@ == log_line(
                    result.device_id@,
                    result.alerts[k]@,
                ),
        decreases result.alerts.len() - i,
    {
        let mut line = String::from_str("[ALERT] Device: ");
        line.append(result.device_id.as_str());
        line.append(" - ");
        line.append(result.alerts[i].as_str());
        lines.push(line);
        i = i + 1;
    }
    assert(texts(lines@) =~= log_lines_of(result@));
    lines
}

/// Takes what the decoder made of the body: a record, or the reason why the
/// body is none. A record is analyzed and answered with 200 and its verdict,
/// and each alert is logged. A failure is answered with 400 and the reason,
/// and nothing is logged.
pub fn on_decoded(decoded: Result<Log, String>) -> (outcome: Outcome)
    ensures
        outcome@ == outcome_of(decoded_view(decoded)),
{
    match decoded {
        Ok(log) => {
            let (result, _is_alert) = analyze_log(&log);
            let log_lines = alert_lines(&result);
            Outcome {
                reply: Reply {
                    status: STATUS_OK,
                    content_type: String::from_str("application/json"),
                    body: Body::Analysis(result),
                },
                log_lines,
            }
        },
        Err(reason) => {
            let mut error = String::from_str("Invalid JSON: ");
            error.append(reason.as_str());
            let log_lines: Vec<String> = Vec::new();
            assert(texts(log_lines@) =~= Seq::<Seq<char>>::empty());
            Outcome { reply: error_reply(STATUS_BAD_REQUEST, error), log_lines }
        },
    }
}

} // verus!
