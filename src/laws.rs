//! Properties of the paraphrase endpoint as a whole, stated over the
//! functions that `begin` and `finish` follow.
use vstd::prelude::*;
use crate::gateway::{action_of, prompt_of, prompt_prefix, reply_of, upstream_url_of, Action};
use crate::json::{error_body_of, request_body_of, success_body_of};
use crate::text::is_blank_text;
use crate::upstream::{failure_prefix, outcome_result, GenerationResponse, UpstreamOutcome};

verus! {

/// A non-blank text leads to one call of the service with the prompt for that
/// text, and where the service answers with a candidate that has a part, the
/// caller receives that part's text exactly, untrimmed and unchanged.
pub proof fn lemma_first_part_returned_verbatim(
    api_key: Seq<char>,
    text: Seq<char>,
    resp: GenerationResponse,
)
    requires
        api_key.len() > 0,
        !is_blank_text(text),
        resp.error is None,
        resp.candidates@.len() > 0,
        resp.candidates@[0].parts@.len() > 0,
    ensures
        action_of(api_key, text) == (Action::Call {
            url: upstream_url_of(api_key),
            body: request_body_of(prompt_of(text)),
        }),
        reply_of(UpstreamOutcome::Parsed(resp)) == (Action::Respond {
            status: 200,
            body: success_body_of(resp.candidates@[0].parts@[0]@),
            json: true,
        }),
{
}

/// An empty or whitespace-only text is rejected with 400 and the service is
/// not called.
pub proof fn lemma_blank_text_rejected_without_call(api_key: Seq<char>, text: Seq<char>)
    requires
        api_key.len() > 0,
        is_blank_text(text),
    ensures
        action_of(api_key, text) == (Action::Respond {
            status: 400,
            body: error_body_of("Text cannot be empty"@),
            json: true,
        }),
        !(action_of(api_key, text) is Call),
{
}

/// An error reported by the service reaches the caller as a 500 whose message
/// is the service's own message after the failure prefix.
pub proof fn lemma_api_error_message_reported(resp: GenerationResponse)
    requires
        resp.error matches Some(e) && e.message is Some,
    ensures
        reply_of(UpstreamOutcome::Parsed(resp)) == (Action::Respond {
            status: 500,
            body: error_body_of(failure_prefix() + resp.error->Some_0.message->Some_0@),
            json: true,
        }),
{
}

/// A well-formed reply without candidates is a 500 that says no content came.
pub proof fn lemma_no_candidate_is_empty_response(resp: GenerationResponse)
    requires
        resp.error is None,
        resp.candidates@.len() == 0,
    ensures
        reply_of(UpstreamOutcome::Parsed(resp)) == (Action::Respond {
            status: 500,
            body: error_body_of(
                failure_prefix() + "No valid response content from upstream API"@,
            ),
            json: true,
        }),
{
}

/// A reply that does not parse is a 500 whose body depends on the parse
/// failure's description alone: the raw reply never reaches the caller.
pub proof fn lemma_unparsable_reply_reported(detail: String)
    ensures
        reply_of(UpstreamOutcome::Unparsable(detail)) == (Action::Respond {
            status: 500,
            body: error_body_of(failure_prefix() + "Failed to parse API response: "@ + detail@),
            json: true,
        }),
{
}

/// Requests do not interfere: distinct texts give distinct prompts, each
/// request calls the service with its own prompt, and each caller receives
/// exactly the text of its own call's outcome.
pub proof fn lemma_requests_independent(
    api_key: Seq<char>,
    texts: Seq<Seq<char>>,
    outcomes: Seq<UpstreamOutcome>,
)
    requires
        api_key.len() > 0,
        texts.len() == outcomes.len(),
        forall|i: int| 0 <= i < texts.len() ==> !is_blank_text(#[trigger] texts[i]),
        forall|i: int, j: int|
            0 <= i < texts.len() && 0 <= j < texts.len() && i != j ==> texts[i] != texts[j],
        forall|i: int| 0 <= i < outcomes.len() ==> (#[trigger] outcome_result(outcomes[i])) is Ok,
    ensures
        forall|i: int|
            0 <= i < texts.len() ==> #[trigger] action_of(api_key, texts[i]) == (Action::Call {
                url: upstream_url_of(api_key),
                body: request_body_of(prompt_of(texts[i])),
            }),
        forall|i: int, j: int|
            0 <= i < texts.len() && 0 <= j < texts.len() && i != j ==> #[trigger] prompt_of(
                texts[i],
            ) != #[trigger] prompt_of(texts[j]),
        forall|i: int|
            0 <= i < outcomes.len() ==> #[trigger] reply_of(outcomes[i]) == (Action::Respond {
                status: 200,
                body: success_body_of(outcome_result(outcomes[i])->Ok_0),
                json: true,
            }),
{
    assert forall|i: int, j: int|
        0 <= i < texts.len() && 0 <= j < texts.len() && i != j implies #[trigger] prompt_of(
            texts[i],
        ) != #[trigger] prompt_of(texts[j]) by {
        lemma_prompt_injective(texts[i], texts[j]);
    }
    assert forall|i: int| 0 <= i < outcomes.len() implies #[trigger] reply_of(outcomes[i]) == (
    Action::Respond {
        status: 200,
        body: success_body_of(outcome_result(outcomes[i])->Ok_0),
        json: true,
    }) by {
        assert(outcome_result(outcomes[i]) is Ok);
    }
}

/// Two texts with the same prompt are the same text.
pub proof fn lemma_prompt_injective(a: Seq<char>, b: Seq<char>)
    ensures
        prompt_of(a) == prompt_of(b) ==> a == b,
{
    let p = prompt_prefix().len();
    if prompt_of(a) == prompt_of(b) {
        assert(prompt_of(a).subrange(p as int, prompt_of(a).len() as int) =~= a);
        assert(prompt_of(b).subrange(p as int, prompt_of(b).len() as int) =~= b);
    }
}

} // verus!
