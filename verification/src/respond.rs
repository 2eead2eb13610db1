//! Response mapping: the terminal outcome of one invocation becomes an HTTP
//! status and a fixed, caller-safe JSON body.

use crate::message::ValidationReason;
use vstd::prelude::*;

verus! {

/// The terminal state of one invocation.  Exactly one variant per
/// invocation; it drives the response one-to-one.
pub enum Outcome {
    /// The provider accepted the message.
    Delivered,
    /// The caller's input was malformed or incomplete.
    Validation(ValidationReason),
    /// The token store could not be queried.
    Resolution,
    /// The provider rejected the message or could not be reached; the detail
    /// is kept for the operator's log and never echoed to the caller.
    Provider(String),
    /// The request method selects no dispatch mode.
    MethodNotAllowed,
}

/// Spec-level image of `Outcome`.
pub ghost enum OutcomeView {
    Delivered,
    Validation(ValidationReason),
    Resolution,
    Provider(Seq<char>),
    MethodNotAllowed,
}

impl View for Outcome {
    type V = OutcomeView;

    open spec fn view(&self) -> OutcomeView {
        match self {
            Outcome::Delivered => OutcomeView::Delivered,
            Outcome::Validation(r) => OutcomeView::Validation(*r),
            Outcome::Resolution => OutcomeView::Resolution,
            Outcome::Provider(d) => OutcomeView::Provider(d@),
            Outcome::MethodNotAllowed => OutcomeView::MethodNotAllowed,
        }
    }
}

/// One HTTP answer: a status code and a JSON body.  The content type is
/// always the structured-data media type and carries no information.
pub struct HttpResponse {
    pub status: u16,
    pub body: String,
}

/// Spec-level image of `HttpResponse`.
pub ghost struct ResponseView {
    pub status: u16,
    pub body: Seq<char>,
}

impl View for HttpResponse {
    type V = ResponseView;

    open spec fn view(&self) -> ResponseView {
        ResponseView { status: self.status, body: self.body@ }
    }
}

/// The status code each outcome answers with.
pub open spec fn status_spec(o: OutcomeView) -> u16 {
    match o {
        OutcomeView::Delivered => 200,
        OutcomeView::Validation(_) => 400,
        OutcomeView::Resolution => 500,
        OutcomeView::Provider(_) => 500,
        OutcomeView::MethodNotAllowed => 405,
    }
}

/// The fixed body each validation failure answers with.
pub open spec fn validation_body_spec(r: ValidationReason) -> Seq<char> {
    match r {
        ValidationReason::MalformedBody => "{\"error\":\"Malformed request body\"}"@,
        ValidationReason::TitleRequired => "{\"error\":\"Title is required\"}"@,
        ValidationReason::BodyRequired => "{\"error\":\"Body is required\"}"@,
        ValidationReason::InvalidToken => "{\"error\":\"Invalid expo push token\"}"@,
        ValidationReason::NoRecipients => "{\"error\":\"No recipients\"}"@,
    }
}

/// The fixed body each outcome answers with.  No variant's body depends on
/// anything but the variant itself: collaborator error detail never leaks.
pub open spec fn body_spec(o: OutcomeView) -> Seq<char> {
    match o {
        OutcomeView::Delivered => "{\"message\":\"Push notification sent successfully\"}"@,
        OutcomeView::Validation(r) => validation_body_spec(r),
        OutcomeView::Resolution => "{\"error\":\"Failed to resolve recipients\"}"@,
        OutcomeView::Provider(_) => "{\"error\":\"Failed to send push notification\"}"@,
        OutcomeView::MethodNotAllowed => "{\"error\":\"Method not allowed\"}"@,
    }
}

/// The full answer for an outcome.
pub open spec fn response_spec(o: OutcomeView) -> ResponseView {
    ResponseView { status: status_spec(o), body: body_spec(o) }
}

/// Map a terminal outcome to its HTTP answer.
pub fn respond(o: &Outcome) -> (r: HttpResponse)
    ensures
        r@ == response_spec(o@),
{
    match o {
        Outcome::Delivered => HttpResponse {
            status: 200,
            body: "{\"message\":\"Push notification sent successfully\"}".to_owned(),
        },
        Outcome::Validation(reason) => HttpResponse {
            status: 400,
            body: match reason {
                ValidationReason::MalformedBody => "{\"error\":\"Malformed request body\"}".to_owned(),
                ValidationReason::TitleRequired => "{\"error\":\"Title is required\"}".to_owned(),
                ValidationReason::BodyRequired => "{\"error\":\"Body is required\"}".to_owned(),
                ValidationReason::InvalidToken => "{\"error\":\"Invalid expo push token\"}".to_owned(),
                ValidationReason::NoRecipients => "{\"error\":\"No recipients\"}".to_owned(),
            },
        },
        Outcome::Resolution => HttpResponse {
            status: 500,
            body: "{\"error\":\"Failed to resolve recipients\"}".to_owned(),
        },
        Outcome::Provider(_) => HttpResponse {
            status: 500,
            body: "{\"error\":\"Failed to send push notification\"}".to_owned(),
        },
        Outcome::MethodNotAllowed => HttpResponse {
            status: 405,
            body: "{\"error\":\"Method not allowed\"}".to_owned(),
        },
    }
}

} // verus!
