//! What the generation service can answer, and what the gateway makes of it.
use vstd::prelude::*;
use vstd::string::*;

verus! {

/// The structured error that the service may report instead of an answer.
pub struct ApiError {
    pub code: Option<i32>,
    pub message: Option<String>,
    pub status: Option<String>,
}

/// One proposed answer: the texts of its content's parts, in order.
pub struct Candidate {
    pub parts: Vec<String>,
}

/// A reply of the service that had the expected shape.
pub struct GenerationResponse {
    pub candidates: Vec<Candidate>,
    pub error: Option<ApiError>,
}

/// How the one outbound call ended.
pub enum UpstreamOutcome {
    /// The call itself failed (connection, timeout, unreadable body); the
    /// failure's description.
    Unreachable(String),
    /// The body was not a reply of the expected shape; the parse failure's
    /// description. The body itself is not carried.
    Unparsable(String),
    /// The body was a reply of the expected shape.
    Parsed(GenerationResponse),
}

/// Every way in which a paraphrase request can fail.
pub enum GatewayError {
    /// The text to paraphrase is empty or whitespace only.
    Validation,
    /// The service's API key is not configured.
    Configuration,
    /// The outbound call failed; its description.
    UpstreamUnavailable(String),
    /// The reply did not parse; the parse failure's description.
    UpstreamParse(String),
    /// The service reported an error; its message.
    UpstreamApi(String),
    /// A well-formed reply with no candidate or no part.
    EmptyUpstreamResponse,
}

/// The text of the first part of the first candidate, where there is one.
pub open spec fn first_text_of(resp: GenerationResponse) -> Option<Seq<char>> {
    if resp.candidates@.len() > 0 && resp.candidates@[0].parts@.len() > 0 {
        Some(resp.candidates@[0].parts@[0]@)
    } else {
        None
    }
}

/// The message of a service error, or a generic one where it has none.
pub open spec fn api_detail_of(e: ApiError) -> Seq<char> {
    match e.message {
        Some(m) => m@,
        None => "Unknown API error"@,
    }
}

/// The reply decoded, in the order of checks: a reported error first, then
/// the first part of the first candidate. `Ok` holds the text to return,
/// `Err` what to report.
pub open spec fn response_result(resp: GenerationResponse) -> Result<Seq<char>, GatewayErrorKind> {
    match resp.error {
        Some(e) => Err(GatewayErrorKind::UpstreamApi(api_detail_of(e))),
        None => match first_text_of(resp) {
            Some(t) => Ok(t),
            None => Err(GatewayErrorKind::EmptyUpstreamResponse),
        },
    }
}

/// The result of a paraphrase request whose outbound call ended with `o`.
pub open spec fn outcome_result(o: UpstreamOutcome) -> Result<Seq<char>, GatewayErrorKind> {
    match o {
        UpstreamOutcome::Unreachable(d) => Err(GatewayErrorKind::UpstreamUnavailable(d@)),
        UpstreamOutcome::Unparsable(d) => Err(GatewayErrorKind::UpstreamParse(d@)),
        UpstreamOutcome::Parsed(resp) => response_result(resp),
    }
}

/// A `GatewayError` as a mathematical value: its descriptions as sequences.
pub ghost enum GatewayErrorKind {
    Validation,
    Configuration,
    UpstreamUnavailable(Seq<char>),
    UpstreamParse(Seq<char>),
    UpstreamApi(Seq<char>),
    EmptyUpstreamResponse,
}

impl View for GatewayError {
    type V = GatewayErrorKind;

    open spec fn view(&self) -> GatewayErrorKind {
        match self {
            GatewayError::Validation => GatewayErrorKind::Validation,
            GatewayError::Configuration => GatewayErrorKind::Configuration,
            GatewayError::UpstreamUnavailable(d) => GatewayErrorKind::UpstreamUnavailable(d@),
            GatewayError::UpstreamParse(d) => GatewayErrorKind::UpstreamParse(d@),
            GatewayError::UpstreamApi(m) => GatewayErrorKind::UpstreamApi(m@),
            GatewayError::EmptyUpstreamResponse => GatewayErrorKind::EmptyUpstreamResponse,
        }
    }
}

/// The prefix of every message of a failed outbound call.
pub open spec fn failure_prefix() -> Seq<char> {
    "Failed to paraphrase text: "@
}

/// The HTTP status of an error: 400 for bad input, 500 for the rest.
pub open spec fn status_of(e: GatewayErrorKind) -> u16 {
    match e {
        GatewayErrorKind::Validation => 400,
        _ => 500,
    }
}

/// The short message that the caller sees for an error.
pub open spec fn message_of(e: GatewayErrorKind) -> Seq<char> {
    match e {
        GatewayErrorKind::Validation => "Text cannot be empty"@,
        GatewayErrorKind::Configuration => "API key not configured"@,
        GatewayErrorKind::UpstreamUnavailable(d) => failure_prefix() + d,
        GatewayErrorKind::UpstreamParse(d) => failure_prefix() + "Failed to parse API response: "@
            + d,
        GatewayErrorKind::UpstreamApi(m) => failure_prefix() + m,
        GatewayErrorKind::EmptyUpstreamResponse => failure_prefix()
            + "No valid response content from upstream API"@,
    }
}

/// A copy of `s` with the same characters.
fn copy_text(s: &String) -> (r: String)
    ensures
        r@ == s@,
{
    s.clone()
}

/// Decodes a well-formed reply of the service.
pub fn interpret_response(resp: &GenerationResponse) -> (r: Result<String, GatewayError>)
    ensures
        r.is_ok() <==> response_result(*resp).is_ok(),
        r matches Ok(t) ==> response_result(*resp) == Ok::<Seq<char>, GatewayErrorKind>(t@),
        r matches Err(e) ==> response_result(*resp) == Err::<Seq<char>, GatewayErrorKind>(e@),
{
    match &resp.error {
        Some(e) => {
            let m = match &e.message {
                Some(m) => copy_text(m),
                None => String::from_str("Unknown API error"),
            };
            return Err(GatewayError::UpstreamApi(m));
        },
        None => {},
    }
    if resp.candidates.len() > 0 {
        let first = &resp.candidates[0];
        if first.parts.len() > 0 {
            return Ok(copy_text(&first.parts[0]));
        }
    }
    Err(GatewayError::EmptyUpstreamResponse)
}

/// Decodes how the outbound call ended.
pub fn interpret_outcome(o: &UpstreamOutcome) -> (r: Result<String, GatewayError>)
    ensures
        r.is_ok() <==> outcome_result(*o).is_ok(),
        r matches Ok(t) ==> outcome_result(*o) == Ok::<Seq<char>, GatewayErrorKind>(t@),
        r matches Err(e) ==> outcome_result(*o) == Err::<Seq<char>, GatewayErrorKind>(e@),
{
    match o {
        UpstreamOutcome::Unreachable(d) => Err(GatewayError::UpstreamUnavailable(copy_text(d))),
        UpstreamOutcome::Unparsable(d) => Err(GatewayError::UpstreamParse(copy_text(d))),
        UpstreamOutcome::Parsed(resp) => interpret_response(resp),
    }
}

impl GatewayError {
    /// The HTTP status that reports this error.
    pub fn status(&self) -> (r: u16)
        ensures
            r == status_of(self@),
    {
        match self {
            GatewayError::Validation => 400,
            _ => 500,
        }
    }

    /// The message that reports this error to the caller.
    pub fn message(&self) -> (r: String)
        ensures
            r@ == message_of(self@),
    {
        match self {
            GatewayError::Validation => String::from_str("Text cannot be empty"),
            GatewayError::Configuration => String::from_str("API key not configured"),
            GatewayError::UpstreamUnavailable(d) => String::from_str(
                "Failed to paraphrase text: ",
            ).concat(d.as_str()),
            GatewayError::UpstreamParse(d) => String::from_str(
                "Failed to paraphrase text: ",
            ).concat("Failed to parse API response: ").concat(d.as_str()),
            GatewayError::UpstreamApi(m) => String::from_str("Failed to paraphrase text: ").concat(
                m.as_str(),
            ),
            GatewayError::EmptyUpstreamResponse => String::from_str(
                "Failed to paraphrase text: ",
            ).concat("No valid response content from upstream API"),
        }
    }
}

} // verus!
