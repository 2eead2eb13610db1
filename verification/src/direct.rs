//! Direct-path recipient resolution: the request body of a body-driven
//! trigger is parsed, its content and token are validated, and one message
//! is assembled.

use crate::message::{
    build_message, build_result_view, build_spec, MessageView, NotificationMessage,
    ValidationReason,
};
use crate::token::{is_valid_token, validate_token};
use vstd::prelude::*;

verus! {

/// The fields a direct trigger may carry in its structured request body.
pub struct DirectFields {
    pub title: Option<String>,
    pub body: Option<String>,
    pub token: Option<String>,
}

/// Spec-level image of `DirectFields`.
pub ghost struct DirectFieldsView {
    pub title: Option<Seq<char>>,
    pub body: Option<Seq<char>>,
    pub token: Option<Seq<char>>,
}

impl View for DirectFields {
    type V = DirectFieldsView;

    open spec fn view(&self) -> DirectFieldsView {
        DirectFieldsView {
            title: self.title.deep_view(),
            body: self.body.deep_view(),
            token: self.token.deep_view(),
        }
    }
}

/// Spec-level image of a parse result.
pub open spec fn parsed_view(r: Option<DirectFields>) -> Option<DirectFieldsView> {
    match r {
        Some(f) => Some(f@),
        None => None,
    }
}

/// What the structured-data parse of a direct request body yields: nothing
/// when the bytes are not parseable, else the three optional string fields.
/// The result depends on the bytes alone.
pub uninterp spec fn parsed_direct_request(body: Seq<u8>) -> Option<DirectFieldsView>;

/// Relies on `serde_json::from_slice` to parse the body, and on
/// `serde_json::Value::get` and `Value::as_str` to read the optional
/// `title`, `body` and `expo_push_token` string fields out of the parsed
/// document (a missing field, a non-string field, or a non-object document
/// all leave the field unset, as indexing the document would).
#[verifier::external_body]
fn parse_direct_request(body: &[u8]) -> (r: Option<DirectFields>)
    ensures
        parsed_view(r) == parsed_direct_request(body@),
{
    let v: serde_json::Value = match serde_json::from_slice(body) {
        Ok(v) => v,
        Err(_) => {
            return None;
        },
    };
    let title = v.get("title").and_then(|f| f.as_str()).map(|s| s.to_string());
    let body_text = v.get("body").and_then(|f| f.as_str()).map(|s| s.to_string());
    let token = v.get("expo_push_token").and_then(|f| f.as_str()).map(|s| s.to_string());
    Some(DirectFields { title, body: body_text, token })
}

/// How a direct trigger resolves: a parse failure, a missing or empty title
/// or body, and an ill-formed token are each rejected; otherwise the message
/// is built from the one supplied token, or fails the non-empty-recipients
/// check when no token was supplied.
pub open spec fn resolve_direct_spec(pf: Option<DirectFieldsView>) -> Result<
    MessageView,
    ValidationReason,
> {
    match pf {
        None => Err(ValidationReason::MalformedBody),
        Some(f) => match f.title {
            None => Err(ValidationReason::TitleRequired),
            Some(title) => if title.len() == 0 {
                Err(ValidationReason::TitleRequired)
            } else {
                match f.body {
                    None => Err(ValidationReason::BodyRequired),
                    Some(text) => if text.len() == 0 {
                        Err(ValidationReason::BodyRequired)
                    } else {
                        match f.token {
                            None => build_spec(Seq::empty(), title, text),
                            Some(tok) => if is_valid_token(tok) {
                                build_spec(seq![tok], title, text)
                            } else {
                                Err(ValidationReason::InvalidToken)
                            },
                        }
                    },
                }
            },
        },
    }
}

/// Validate and assemble the parsed fields of a direct trigger.
pub fn resolve_direct_fields(fields: Option<DirectFields>) -> (r: Result<
    NotificationMessage,
    ValidationReason,
>)
    ensures
        build_result_view(r) == resolve_direct_spec(parsed_view(fields)),
{
    let ghost pf = parsed_view(fields);
    let f = match fields {
        Some(f) => f,
        None => {
            return Err(ValidationReason::MalformedBody);
        },
    };
    let title = match f.title {
        Some(t) => t,
        None => {
            return Err(ValidationReason::TitleRequired);
        },
    };
    if title.as_str().is_empty() {
        return Err(ValidationReason::TitleRequired);
    }
    let text = match f.body {
        Some(b) => b,
        None => {
            return Err(ValidationReason::BodyRequired);
        },
    };
    if text.as_str().is_empty() {
        return Err(ValidationReason::BodyRequired);
    }
    let mut tokens: Vec<String> = Vec::new();
    match f.token {
        Some(tok) => {
            if validate_token(tok.as_str()) {
                let ghost tv = tok@;
                tokens.push(tok);
                proof {
                    assert(tokens.deep_view() =~= seq![tv]);
                }
            } else {
                return Err(ValidationReason::InvalidToken);
            }
        },
        None => {
            proof {
                assert(tokens.deep_view() =~= Seq::<Seq<char>>::empty());
            }
        },
    }
    build_message(tokens, title, text)
}

/// Resolve a direct trigger's raw request body: parse, validate, assemble.
pub fn resolve_direct(body: &[u8]) -> (r: Result<NotificationMessage, ValidationReason>)
    ensures
        build_result_view(r) == resolve_direct_spec(parsed_direct_request(body@)),
{
    let fields = parse_direct_request(body);
    resolve_direct_fields(fields)
}

} // verus!
