//! Laws of the dispatch pipeline: what holds of every invocation, proved
//! over the same spec functions that the pipeline's contracts are stated in.

use crate::direct::{parsed_direct_request, DirectFieldsView};
use crate::message::{message_wf, ConfigView};
use crate::pipeline::{
    outcome_after_send_spec, step_after_store_spec, step_for_trigger_spec, SendResultView,
    StepView, StoreResultView,
};
use crate::respond::{response_spec, OutcomeView, ResponseView};
use crate::token::is_valid_token;
use crate::trigger::{classify_spec, TriggerMode};
use vstd::prelude::*;

verus! {

/// An unsupported method terminates at classification: the step is the fixed
/// 405 answer, never a store query and never a provider send.
pub proof fn lemma_unsupported_never_dispatches(method: Seq<char>, body: Seq<u8>)
    requires
        classify_spec(method) == TriggerMode::Unsupported,
    ensures
        step_for_trigger_spec(method, body) == StepView::Respond(
            ResponseView { status: 405, body: "{\"error\":\"Method not allowed\"}"@ },
        ),
{
}

/// A direct trigger whose body parses to a non-empty title, a non-empty body
/// and a syntactically valid token dispatches one message addressed to
/// exactly that token, carrying exactly that content.
pub proof fn lemma_direct_valid_input_dispatches(
    body: Seq<u8>,
    title: Seq<char>,
    text: Seq<char>,
    tok: Seq<char>,
)
    requires
        parsed_direct_request(body) == Some(
            DirectFieldsView { title: Some(title), body: Some(text), token: Some(tok) },
        ),
        title.len() > 0,
        text.len() > 0,
        is_valid_token(tok),
    ensures
        step_for_trigger_spec("POST"@, body) == StepView::Send(
            crate::message::MessageView { tokens: seq![tok], title, body: text },
        ),
{
    reveal_strlit("POST");
    reveal_strlit("GET");
    assert("POST"@.len() == 4);
    assert("GET"@.len() == 3);
}

/// A request body that does not parse as structured data is answered with
/// the fixed 400 answer; nothing is queried and nothing is dispatched.
pub proof fn lemma_malformed_body_rejected(body: Seq<u8>)
    requires
        parsed_direct_request(body) is None,
    ensures
        step_for_trigger_spec("POST"@, body) == StepView::Respond(
            ResponseView { status: 400, body: "{\"error\":\"Malformed request body\"}"@ },
        ),
{
    reveal_strlit("POST");
    reveal_strlit("GET");
    assert("POST"@.len() == 4);
    assert("GET"@.len() == 3);
}

/// A direct trigger with well-formed content but no token resolves to an
/// empty recipient list, which is rejected with the fixed 400 answer rather
/// than dispatched as a silent no-op.
pub proof fn lemma_direct_no_token_never_dispatches(
    body: Seq<u8>,
    title: Seq<char>,
    text: Seq<char>,
)
    requires
        parsed_direct_request(body) == Some(
            DirectFieldsView { title: Some(title), body: Some(text), token: None },
        ),
        title.len() > 0,
        text.len() > 0,
    ensures
        step_for_trigger_spec("POST"@, body) == StepView::Respond(
            ResponseView { status: 400, body: "{\"error\":\"No recipients\"}"@ },
        ),
{
    reveal_strlit("POST");
    reveal_strlit("GET");
    assert("POST"@.len() == 4);
    assert("GET"@.len() == 3);
}

/// A store answer with at least one registered token dispatches one single
/// message addressed to exactly those tokens, in store order, carrying the
/// configured default content.
pub proof fn lemma_store_tokens_dispatch_all(c: ConfigView, tokens: Seq<Seq<char>>)
    requires
        tokens.len() > 0,
    ensures
        step_after_store_spec(c, StoreResultView::Tokens(tokens)) == StepView::Send(
            crate::message::MessageView {
                tokens,
                title: c.default_title,
                body: c.default_body,
            },
        ),
{
}

/// A failed store query terminates with the fixed 500 answer: the provider
/// is never reached.
pub proof fn lemma_store_failure_never_dispatches(c: ConfigView)
    ensures
        step_after_store_spec(c, StoreResultView::Unavailable) == StepView::Respond(
            ResponseView { status: 500, body: "{\"error\":\"Failed to resolve recipients\"}"@ },
        ),
{
}

/// A provider success is answered with the fixed 200 success body, whatever
/// message was dispatched.
pub proof fn lemma_delivery_success_answers_200()
    ensures
        response_spec(outcome_after_send_spec(SendResultView::Accepted)) == (ResponseView {
            status: 200,
            body: "{\"message\":\"Push notification sent successfully\"}"@,
        }),
{
}

/// The answer after a provider failure does not depend on the provider's
/// error text: every detail maps to the same fixed 500 answer, so no raw
/// provider error ever reaches the caller.
pub proof fn lemma_provider_detail_not_echoed(detail: Seq<char>, other: Seq<char>)
    ensures
        response_spec(OutcomeView::Provider(detail)) == response_spec(
            OutcomeView::Provider(other),
        ),
        response_spec(OutcomeView::Provider(detail)) == (ResponseView {
            status: 500,
            body: "{\"error\":\"Failed to send push notification\"}"@,
        }),
{
}

/// Every message the pipeline ever asks to send addresses at least one
/// recipient: a message is built only after resolution succeeds, on either
/// path.
pub proof fn lemma_sent_messages_well_formed(
    method: Seq<char>,
    body: Seq<u8>,
    c: ConfigView,
    store: StoreResultView,
)
    ensures
        step_for_trigger_spec(method, body) matches StepView::Send(m) ==> message_wf(m),
        step_after_store_spec(c, store) matches StepView::Send(m) ==> message_wf(m),
{
}

/// Dispatch is stateless: two invocations on identical input select
/// identical steps — in particular, two identical direct triggers each
/// produce their own, equal, provider send, with nothing deduplicated
/// across invocations.
pub proof fn lemma_repeat_trigger_same_step(
    method: Seq<char>,
    body: Seq<u8>,
    first: StepView,
    second: StepView,
)
    requires
        first == step_for_trigger_spec(method, body),
        second == step_for_trigger_spec(method, body),
    ensures
        first == second,
{
}

} // verus!
