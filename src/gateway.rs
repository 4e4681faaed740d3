//! The paraphrase endpoint as two steps around the one outbound call: `begin`
//! decides whether to call the generation service and with what, `finish`
//! turns the call's outcome into the HTTP reply. The health endpoint is here
//! too.
use vstd::prelude::*;
use vstd::string::*;
use crate::config::ServiceConfig;
use crate::json::{error_body, error_body_of, request_body, request_body_of, success_body, success_body_of};
use crate::text::{is_blank, is_blank_text};
use crate::upstream::{
    interpret_outcome, outcome_result, message_of, status_of, GatewayError, GatewayErrorKind,
    UpstreamOutcome,
};

verus! {

/// A request to paraphrase `text`.
pub struct ParaphraseRequest {
    pub text: String,
}

/// What the server sends back: a status, a body, and whether the body is JSON
/// (else plain text).
pub struct HttpReply {
    pub status: u16,
    pub body: String,
    pub json: bool,
}

/// The outbound call to make: a JSON body posted to `url`.
pub struct UpstreamCall {
    pub url: String,
    pub body: String,
}

/// What to do with a paraphrase request.
pub enum Step {
    /// Answer at once, without calling the service.
    Respond(HttpReply),
    /// Call the service, then hand its outcome to `finish`.
    Call(UpstreamCall),
}

/// A `Step` as a mathematical value.
pub ghost enum Action {
    Respond { status: u16, body: Seq<char>, json: bool },
    Call { url: Seq<char>, body: Seq<char> },
}

impl View for Step {
    type V = Action;

    open spec fn view(&self) -> Action {
        match self {
            Step::Respond(r) => Action::Respond { status: r.status, body: r.body@, json: r.json },
            Step::Call(c) => Action::Call { url: c.url@, body: c.body@ },
        }
    }
}

/// The instruction that precedes the caller's text in the prompt.
pub open spec fn prompt_prefix() -> Seq<char> {
    "Paraphrase the following text while preserving its meaning and tone. Do not add any additional text, explanations, or formatting \u{2014} just return the paraphrased version:\n\n"@
}

/// The prompt for `text`: the instruction, then the text verbatim.
pub open spec fn prompt_of(text: Seq<char>) -> Seq<char> {
    prompt_prefix() + text
}

/// The endpoint of the generation model, up to the API key.
pub open spec fn endpoint_prefix() -> Seq<char> {
    "https://generativelanguage.googleapis.com/v1beta/models/gemini-2.0-flash:generateContent?key="@
}

/// The address of the generation call, authenticated by `api_key`.
pub open spec fn upstream_url_of(api_key: Seq<char>) -> Seq<char> {
    endpoint_prefix() + api_key
}

/// The reply that reports `e`.
pub open spec fn error_action(e: GatewayErrorKind) -> Action {
    Action::Respond { status: status_of(e), body: error_body_of(message_of(e)), json: true }
}

/// What to do with a request for `text` under the API key `api_key`: report a
/// missing key, reject a blank text, or else call the service once with the
/// prompt for the text.
pub open spec fn action_of(api_key: Seq<char>, text: Seq<char>) -> Action {
    if api_key.len() == 0 {
        error_action(GatewayErrorKind::Configuration)
    } else if is_blank_text(text) {
        error_action(GatewayErrorKind::Validation)
    } else {
        Action::Call { url: upstream_url_of(api_key), body: request_body_of(prompt_of(text)) }
    }
}

/// The reply to a request whose outbound call ended with `o`.
pub open spec fn reply_of(o: UpstreamOutcome) -> Action {
    match outcome_result(o) {
        Ok(t) => Action::Respond { status: 200, body: success_body_of(t), json: true },
        Err(e) => error_action(e),
    }
}

/// The prompt that asks the service to paraphrase `text`.
pub fn build_prompt(text: &str) -> (r: String)
    ensures
        r@ == prompt_of(text@),
{
    String::from_str(
        "Paraphrase the following text while preserving its meaning and tone. Do not add any additional text, explanations, or formatting \u{2014} just return the paraphrased version:\n\n",
    ).concat(text)
}

/// The address of the generation call for `config`.
pub fn upstream_url(config: &ServiceConfig) -> (r: String)
    ensures
        r@ == upstream_url_of(config.api_key@),
{
    String::from_str(
        "https://generativelanguage.googleapis.com/v1beta/models/gemini-2.0-flash:generateContent?key=",
    ).concat(config.api_key.as_str())
}

/// The reply that reports `e`, with its status and a JSON body.
pub fn error_reply(e: &GatewayError) -> (r: HttpReply)
    ensures
        Step::Respond(r)@ == error_action(e@),
{
    let message = e.message();
    HttpReply { status: e.status(), body: error_body(message.as_str()), json: true }
}

/// Decides what to do with a paraphrase request.
pub fn begin(config: &ServiceConfig, request: &ParaphraseRequest) -> (r: Step)
    ensures
        r@ == action_of(config.api_key@, request.text@),
{
    if config.api_key.as_str().is_empty() {
        return Step::Respond(error_reply(&GatewayError::Configuration));
    }
    if is_blank(request.text.as_str()) {
        return Step::Respond(error_reply(&GatewayError::Validation));
    }
    let prompt = build_prompt(request.text.as_str());
    Step::Call(UpstreamCall { url: upstream_url(config), body: request_body(prompt.as_str()) })
}

/// The reply to a paraphrase request whose outbound call ended with `outcome`:
/// the first part of the first candidate verbatim, or the error.
pub fn finish(outcome: &UpstreamOutcome) -> (r: HttpReply)
    ensures
        Step::Respond(r)@ == reply_of(*outcome),
{
    match interpret_outcome(outcome) {
        Ok(text) => HttpReply { status: 200, body: success_body(text.as_str()), json: true },
        Err(e) => error_reply(&e),
    }
}

/// The liveness probe's reply: always 200 with the plain text `Healthy`.
pub fn health() -> (r: HttpReply)
    ensures
        r.status == 200,
        r.body@ == "Healthy"@,
        !r.json,
{
    HttpReply { status: 200, body: String::from_str("Healthy"), json: false }
}

} // verus!
