//! The dispatch pipeline, driven as a small state machine: the surrounding
//! runtime feeds in the trigger, performs the one store query or the one
//! provider send the pipeline asks for, and feeds the result back.  All
//! decisions are made here; the runtime only carries them out.

use crate::direct::{parsed_direct_request, resolve_direct, resolve_direct_spec};
use crate::message::{
    build_message, build_spec, Config, ConfigView, MessageView, NotificationMessage,
};
use crate::respond::{respond, response_spec, HttpResponse, Outcome, OutcomeView, ResponseView};
use crate::trigger::{classify_method, classify_spec, TriggerMode};
use vstd::prelude::*;

verus! {

/// What the surrounding runtime must do next for one invocation.
pub enum Step {
    /// Terminal: answer the caller with this response.
    Respond(HttpResponse),
    /// Store-driven path: query the store for all registered tokens, then
    /// hand the result to `handle_store_result`.
    QueryStore,
    /// Dispatch: submit this message to the delivery provider exactly once,
    /// then hand the outcome to `handle_send_result`.
    Send(NotificationMessage),
}

/// Spec-level image of `Step`.
pub ghost enum StepView {
    Respond(ResponseView),
    QueryStore,
    Send(MessageView),
}

impl View for Step {
    type V = StepView;

    open spec fn view(&self) -> StepView {
        match self {
            Step::Respond(r) => StepView::Respond(r@),
            Step::QueryStore => StepView::QueryStore,
            Step::Send(m) => StepView::Send(m@),
        }
    }
}

/// What the store query produced, as a plain value.
pub enum StoreResult {
    /// Every registered token, in store order.
    Tokens(Vec<String>),
    /// The store could not be reached, or the query failed.
    Unavailable,
}

/// Spec-level image of `StoreResult`.
pub ghost enum StoreResultView {
    Tokens(Seq<Seq<char>>),
    Unavailable,
}

impl View for StoreResult {
    type V = StoreResultView;

    open spec fn view(&self) -> StoreResultView {
        match self {
            StoreResult::Tokens(v) => StoreResultView::Tokens(v.deep_view()),
            StoreResult::Unavailable => StoreResultView::Unavailable,
        }
    }
}

/// What the provider call produced, as a plain value.
pub enum SendResult {
    /// The provider accepted the message.
    Accepted,
    /// The provider failed or rejected the message; the detail is kept for
    /// the operator's log and never echoed to the caller.
    Failed(String),
}

/// Spec-level image of `SendResult`.
pub ghost enum SendResultView {
    Accepted,
    Failed(Seq<char>),
}

impl View for SendResult {
    type V = SendResultView;

    open spec fn view(&self) -> SendResultView {
        match self {
            SendResult::Accepted => SendResultView::Accepted,
            SendResult::Failed(d) => SendResultView::Failed(d@),
        }
    }
}

/// The step an inbound trigger selects: an unsupported method terminates at
/// classification, a store-driven trigger asks for the store query, and a
/// body-driven trigger resolves its body to either a message to send or a
/// validation answer.
pub open spec fn step_for_trigger_spec(method: Seq<char>, body: Seq<u8>) -> StepView {
    match classify_spec(method) {
        TriggerMode::Unsupported => StepView::Respond(
            response_spec(OutcomeView::MethodNotAllowed),
        ),
        TriggerMode::Scheduled => StepView::QueryStore,
        TriggerMode::Direct => match resolve_direct_spec(parsed_direct_request(body)) {
            Ok(m) => StepView::Send(m),
            Err(reason) => StepView::Respond(response_spec(OutcomeView::Validation(reason))),
        },
    }
}

/// Classify an inbound request and decide the first step.
pub fn handle_trigger(method: &str, body: &[u8]) -> (s: Step)
    ensures
        s@ == step_for_trigger_spec(method@, body@),
{
    match classify_method(method) {
        TriggerMode::Unsupported => Step::Respond(respond(&Outcome::MethodNotAllowed)),
        TriggerMode::Scheduled => Step::QueryStore,
        TriggerMode::Direct => match resolve_direct(body) {
            Ok(m) => Step::Send(m),
            Err(reason) => Step::Respond(respond(&Outcome::Validation(reason))),
        },
    }
}

/// The step a store answer selects: a failed query terminates with the
/// resolution answer; a token list becomes one message carrying the
/// configured default content, unless it is empty, which is rejected.
pub open spec fn step_after_store_spec(c: ConfigView, r: StoreResultView) -> StepView {
    match r {
        StoreResultView::Unavailable => StepView::Respond(response_spec(OutcomeView::Resolution)),
        StoreResultView::Tokens(tokens) => match build_spec(
            tokens,
            c.default_title,
            c.default_body,
        ) {
            Ok(m) => StepView::Send(m),
            Err(reason) => StepView::Respond(response_spec(OutcomeView::Validation(reason))),
        },
    }
}

/// Decide the step after the store query of a store-driven trigger.
pub fn handle_store_result(config: Config, r: StoreResult) -> (s: Step)
    ensures
        s@ == step_after_store_spec(config@, r@),
{
    match r {
        StoreResult::Unavailable => Step::Respond(respond(&Outcome::Resolution)),
        StoreResult::Tokens(tokens) => match build_message(
            tokens,
            config.default_title,
            config.default_body,
        ) {
            Ok(m) => Step::Send(m),
            Err(reason) => Step::Respond(respond(&Outcome::Validation(reason))),
        },
    }
}

/// The outcome a provider answer maps to.
pub open spec fn outcome_after_send_spec(r: SendResultView) -> OutcomeView {
    match r {
        SendResultView::Accepted => OutcomeView::Delivered,
        SendResultView::Failed(d) => OutcomeView::Provider(d),
    }
}

/// Map the provider's answer to the final response.
pub fn handle_send_result(r: SendResult) -> (resp: HttpResponse)
    ensures
        resp@ == response_spec(outcome_after_send_spec(r@)),
{
    match r {
        SendResult::Accepted => respond(&Outcome::Delivered),
        SendResult::Failed(d) => respond(&Outcome::Provider(d)),
    }
}

} // verus!
