//! The JSON texts that the gateway sends: the request to the generation
//! service and the bodies of its own replies.
use vstd::prelude::*;
use vstd::string::*;

verus! {

/// The JSON string literal that `serde_json` writes for the text `s`: the
/// text between double quotes, with quotes, backslashes and control
/// characters escaped.
pub uninterp spec fn json_text_of(s: Seq<char>) -> Seq<char>;

/// Relies on `serde_json::to_string` applied to a `str`: it writes the escaped
/// string literal, and for a `str` it never fails (it writes into a `Vec`).
#[verifier::external_body]
fn json_string(s: &str) -> (r: String)
    ensures
        r@ == json_text_of(s@),
{
    match serde_json::to_string(s) {
        Ok(t) => t,
        Err(_) => String::new(),
    }
}

/// `{"contents":[{"parts":[{"text":<prompt>}]}]}`: one content of one part.
pub open spec fn request_body_of(prompt: Seq<char>) -> Seq<char> {
    "{\"contents\":[{\"parts\":[{\"text\":"@ + json_text_of(prompt) + "}]}]}"@
}

/// `{"paraphrased":<text>}`
pub open spec fn success_body_of(text: Seq<char>) -> Seq<char> {
    "{\"paraphrased\":"@ + json_text_of(text) + "}"@
}

/// `{"error":<message>}`
pub open spec fn error_body_of(message: Seq<char>) -> Seq<char> {
    "{\"error\":"@ + json_text_of(message) + "}"@
}

/// The body of the request that asks the generation service to answer `prompt`.
pub fn request_body(prompt: &str) -> (r: String)
    ensures
        r@ == request_body_of(prompt@),
{
    let head = String::from_str("{\"contents\":[{\"parts\":[{\"text\":");
    let quoted = json_string(prompt);
    let r = head.concat(quoted.as_str()).concat("}]}]}");
    r
}

/// The body of a successful reply that carries `text`.
pub fn success_body(text: &str) -> (r: String)
    ensures
        r@ == success_body_of(text@),
{
    let head = String::from_str("{\"paraphrased\":");
    let quoted = json_string(text);
    head.concat(quoted.as_str()).concat("}")
}

/// The body of a failed reply that carries `message`.
pub fn error_body(message: &str) -> (r: String)
    ensures
        r@ == error_body_of(message@),
{
    let head = String::from_str("{\"error\":");
    let quoted = json_string(message);
    head.concat(quoted.as_str()).concat("}")
}

} // verus!
