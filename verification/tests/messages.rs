use litellm::error::{ErrorCode, ProviderState};
use litellm::messages::{
    check_streaming_provider, next_messages_action, MessagesAction, MessagesEvent,
    ANTHROPIC_MESSAGES_PROVIDER,
};

#[test]
fn only_anthropic_messages_stream() {
    assert!(check_streaming_provider(ANTHROPIC_MESSAGES_PROVIDER).is_ok());
    let error = check_streaming_provider("openai").err().unwrap();
    assert!(error.is_prepare());
    assert_eq!(
        error.message(),
        "invalid request: streaming messages is not supported for this provider"
    );
}

#[test]
fn messages_send_failures_keep_their_cause() {
    match next_messages_action(false, MessagesEvent::SendFailed("refused".to_string())) {
        MessagesAction::Fail(error) => {
            assert_eq!(error.code(), ErrorCode::Transport);
            assert_eq!(error.message(), "messages provider request failed");
            assert_eq!(error.provider_state(), ProviderState::MayHaveStarted);
            assert_eq!(error.source(), Some("refused"));
        }
        _ => panic!("expected a failure"),
    }
    match next_messages_action(true, MessagesEvent::BodyFailed("reset".to_string())) {
        MessagesAction::Fail(error) => {
            assert_eq!(error.message(), "reading messages provider response failed");
            assert_eq!(error.provider_state(), ProviderState::ResponseReceived);
        }
        _ => panic!("expected a failure"),
    }
    match next_messages_action(false, MessagesEvent::DecodeFailed("eof".to_string())) {
        MessagesAction::Fail(error) => {
            assert_eq!(error.code(), ErrorCode::InvalidResponse);
            assert_eq!(error.message(), "invalid messages response JSON");
        }
        _ => panic!("expected a failure"),
    }
}

#[test]
fn streamed_answers_are_handed_over_when_successful() {
    assert!(matches!(
        next_messages_action(true, MessagesEvent::Responded { status: 200 }),
        MessagesAction::Stream
    ));
    assert!(matches!(
        next_messages_action(true, MessagesEvent::Responded { status: 500 }),
        MessagesAction::ReadBody
    ));
    assert!(matches!(
        next_messages_action(false, MessagesEvent::Responded { status: 200 }),
        MessagesAction::ReadBody
    ));
}

#[test]
fn messages_bodies_are_decoded_or_reported() {
    match next_messages_action(false, MessagesEvent::BodyReceived { status: 200, text: "{}".to_string() }) {
        MessagesAction::Decode { text } => assert_eq!(text, "{}"),
        _ => panic!("expected decoding"),
    }
    match next_messages_action(true, MessagesEvent::BodyReceived { status: 401, text: "no".to_string() }) {
        MessagesAction::Fail(error) => {
            assert_eq!(error.code(), ErrorCode::Upstream);
            assert_eq!(error.status_code(), Some(401));
        }
        _ => panic!("expected a failure"),
    }
}
