//! Message building: recipients plus content become one provider-ready
//! notification message.  This stage is the single enforcement point of the
//! non-empty-recipients invariant.

use vstd::prelude::*;

verus! {

/// Process-wide default content, used when a store-driven trigger carries no
/// content of its own.  Passed into the pipeline explicitly so that callers
/// and tests can override it.
pub struct Config {
    pub default_title: String,
    pub default_body: String,
}

/// Spec-level image of `Config`.
pub ghost struct ConfigView {
    pub default_title: Seq<char>,
    pub default_body: Seq<char>,
}

impl View for Config {
    type V = ConfigView;

    open spec fn view(&self) -> ConfigView {
        ConfigView {
            default_title: self.default_title@,
            default_body: self.default_body@,
        }
    }
}

/// Why an invocation was rejected as the caller's fault.
#[derive(Clone, Copy, PartialEq, Eq, Structural, Debug)]
pub enum ValidationReason {
    /// The request body could not be parsed as structured data.
    MalformedBody,
    /// A direct trigger carried no title, or an empty one.
    TitleRequired,
    /// A direct trigger carried no body text, or an empty one.
    BodyRequired,
    /// The supplied recipient token fails the provider's syntax.
    InvalidToken,
    /// Resolution produced no recipient at all.
    NoRecipients,
}

/// The fully assembled unit submitted to the delivery provider: a non-empty
/// recipient list plus the human-visible content.
pub struct NotificationMessage {
    pub tokens: Vec<String>,
    pub title: String,
    pub body: String,
}

/// Spec-level image of `NotificationMessage`.
pub ghost struct MessageView {
    pub tokens: Seq<Seq<char>>,
    pub title: Seq<char>,
    pub body: Seq<char>,
}

impl View for NotificationMessage {
    type V = MessageView;

    open spec fn view(&self) -> MessageView {
        MessageView {
            tokens: self.tokens.deep_view(),
            title: self.title@,
            body: self.body@,
        }
    }
}

/// A message is well formed when it addresses at least one recipient.
pub open spec fn message_wf(m: MessageView) -> bool {
    m.tokens.len() > 0
}

/// What building a message yields: one message addressed to all given tokens,
/// unless the recipient list is empty, which is rejected rather than sent as
/// a silent no-op.
pub open spec fn build_spec(tokens: Seq<Seq<char>>, title: Seq<char>, body: Seq<char>) -> Result<
    MessageView,
    ValidationReason,
> {
    if tokens.len() == 0 {
        Err(ValidationReason::NoRecipients)
    } else {
        Ok(MessageView { tokens, title, body })
    }
}

/// Spec-level image of a build result.
pub open spec fn build_result_view(r: Result<NotificationMessage, ValidationReason>) -> Result<
    MessageView,
    ValidationReason,
> {
    match r {
        Ok(m) => Ok(m@),
        Err(e) => Err(e),
    }
}

/// Build one message addressed to all given tokens, or reject an empty
/// recipient list.
pub fn build_message(tokens: Vec<String>, title: String, body: String) -> (r: Result<
    NotificationMessage,
    ValidationReason,
>)
    ensures
        build_result_view(r) == build_spec(tokens.deep_view(), title@, body@),
        r matches Ok(m) ==> message_wf(m@),
{
    if tokens.len() == 0 {
        Err(ValidationReason::NoRecipients)
    } else {
        Ok(NotificationMessage { tokens, title, body })
    }
}

} // verus!
