//! The decisions of a messages provider call, plain or streamed. The host
//! sends the request and reads the answer; this module says what each
//! outcome means and what comes next.

use vstd::prelude::*;

use crate::error::{Error, ErrorCode, ErrorView, ProviderState, execute_view, prepare_view};
use crate::http_utils::{is_success, spec_is_success};
use crate::text::{spec_decimal, str_equal};

verus! {

/// The only provider whose messages can be streamed.
pub const ANTHROPIC_MESSAGES_PROVIDER: &'static str = "anthropic";

/// Streaming is offered for the Anthropic provider only; any other provider
/// is refused before anything is sent.
pub fn check_streaming_provider(provider: &str) -> (checked: Result<(), Error>)
    ensures
        match checked {
            Ok(()) => provider@ == ANTHROPIC_MESSAGES_PROVIDER@,
            Err(e) => provider@ != ANTHROPIC_MESSAGES_PROVIDER@ && e@ == prepare_view(
                ErrorCode::InvalidRequest,
                "invalid request: "@ + "streaming messages is not supported for this provider"@,
            ),
        },
{
    if str_equal(provider, ANTHROPIC_MESSAGES_PROVIDER) {
        Ok(())
    } else {
        Err(
            Error::invalid_request(
                "streaming messages is not supported for this provider".to_owned(),
            ),
        )
    }
}

/// What happened in a messages provider call.
pub enum MessagesEvent {
    /// The request could not be sent or no answer came; holds the detail.
    SendFailed(String),
    /// The provider answered with this status.
    Responded { status: u16 },
    /// The answer's body was read.
    BodyReceived { status: u16, text: String },
    /// The answer's body could not be read; holds the detail.
    BodyFailed(String),
    /// The body was not a messages response; holds the parser's detail.
    DecodeFailed(String),
}

/// What the host does next.
pub enum MessagesAction {
    /// Read the body of the answer.
    ReadBody,
    /// Hand the answer's body stream to the caller.
    Stream,
    /// Decode this body as a messages response.
    Decode { text: String },
    /// The call failed.
    Fail(Error),
}

/// What an action states.
pub enum MessagesActionView {
    ReadBody,
    Stream,
    Decode(Seq<char>),
    Fail(ErrorView),
}

impl View for MessagesAction {
    type V = MessagesActionView;

    open spec fn view(&self) -> MessagesActionView {
        match self {
            MessagesAction::ReadBody => MessagesActionView::ReadBody,
            MessagesAction::Stream => MessagesActionView::Stream,
            MessagesAction::Decode { text } => MessagesActionView::Decode(text@),
            MessagesAction::Fail(error) => MessagesActionView::Fail(error@),
        }
    }
}

/// An execution error with a described cause.
pub open spec fn caused(
    code: ErrorCode,
    message: Seq<char>,
    provider_state: ProviderState,
    detail: Seq<char>,
) -> ErrorView {
    ErrorView { source: Some(detail), ..execute_view(code, message, None, provider_state) }
}

/// What a messages call does after an event. A streamed call hands over a
/// successful answer without reading it; a plain call reads every answer.
pub open spec fn spec_next_messages_action(streaming: bool, event: MessagesEvent) -> MessagesActionView {
    match event {
        MessagesEvent::SendFailed(detail) => MessagesActionView::Fail(
            caused(
                ErrorCode::Transport,
                "messages provider request failed"@,
                ProviderState::MayHaveStarted,
                detail@,
            ),
        ),
        MessagesEvent::Responded { status } => if streaming && spec_is_success(status) {
            MessagesActionView::Stream
        } else {
            MessagesActionView::ReadBody
        },
        MessagesEvent::BodyReceived { status, text } => if !spec_is_success(status) {
            MessagesActionView::Fail(
                execute_view(
                    ErrorCode::Upstream,
                    "upstream request failed with status "@ + spec_decimal(status as nat),
                    Some(status),
                    ProviderState::ResponseReceived,
                ),
            )
        } else {
            MessagesActionView::Decode(text@)
        },
        MessagesEvent::BodyFailed(detail) => MessagesActionView::Fail(
            caused(
                ErrorCode::Transport,
                "reading messages provider response failed"@,
                ProviderState::ResponseReceived,
                detail@,
            ),
        ),
        MessagesEvent::DecodeFailed(detail) => MessagesActionView::Fail(
            caused(
                ErrorCode::InvalidResponse,
                "invalid messages response JSON"@,
                ProviderState::ResponseReceived,
                detail@,
            ),
        ),
    }
}

/// Decides the next step of a messages provider call.
pub fn next_messages_action(streaming: bool, event: MessagesEvent) -> (action: MessagesAction)
    ensures
        action@ == spec_next_messages_action(streaming, event),
{
    match event {
        MessagesEvent::SendFailed(detail) => MessagesAction::Fail(
            Error::execute_with_source(
                ErrorCode::Transport,
                "messages provider request failed",
                None,
                ProviderState::MayHaveStarted,
                detail,
            ),
        ),
        MessagesEvent::Responded { status } => {
            if streaming && is_success(status) {
                MessagesAction::Stream
            } else {
                MessagesAction::ReadBody
            }
        },
        MessagesEvent::BodyReceived { status, text } => {
            if !is_success(status) {
                MessagesAction::Fail(Error::upstream(status, text))
            } else {
                MessagesAction::Decode { text }
            }
        },
        MessagesEvent::BodyFailed(detail) => MessagesAction::Fail(
            Error::execute_with_source(
                ErrorCode::Transport,
                "reading messages provider response failed",
                None,
                ProviderState::ResponseReceived,
                detail,
            ),
        ),
        MessagesEvent::DecodeFailed(detail) => MessagesAction::Fail(
            Error::execute_with_source(
                ErrorCode::InvalidResponse,
                "invalid messages response JSON",
                None,
                ProviderState::ResponseReceived,
                detail,
            ),
        ),
    }
}

/// Every failure once the request has been sent is an execution error, and
/// a failure of the provider's own reply carries its status.
pub proof fn law_messages_failures_are_execution_errors(streaming: bool, event: MessagesEvent)
    ensures
        spec_next_messages_action(streaming, event) matches MessagesActionView::Fail(error)
            ==> !error.prepare && error.provider_state != ProviderState::NotStarted,
        event matches MessagesEvent::BodyReceived { status, .. } ==> (!spec_is_success(status)
            <==> spec_next_messages_action(streaming, event) is Fail),
{
}

/// A successful body is decoded exactly as it was received, whole, in a
/// plain call and a streamed one alike.
pub proof fn law_successful_bodies_are_decoded_whole(
    streaming: bool,
    status: u16,
    text: String,
)
    ensures
        spec_is_success(status) ==> spec_next_messages_action(
            streaming,
            MessagesEvent::BodyReceived { status, text },
        ) == MessagesActionView::Decode(text@),
{
}

/// A plain call never streams, and a streamed call streams exactly the
/// successful answers.
pub proof fn law_only_successful_streams_are_handed_over(streaming: bool, status: u16)
    ensures
        spec_next_messages_action(streaming, MessagesEvent::Responded { status })
            == if streaming && spec_is_success(status) {
            MessagesActionView::Stream
        } else {
            MessagesActionView::ReadBody
        },
        !streaming ==> forall|event: MessagesEvent|
            !(#[trigger] spec_next_messages_action(streaming, event) is Stream),
{
}

} // verus!
