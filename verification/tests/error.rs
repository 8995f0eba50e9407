use litellm::error::{json_type_name, Error, ErrorCode, ProviderState, ERROR_MESSAGE_MAX_CHARS};
use serde_json::Value;

#[test]
fn phases_expose_ownership_metadata() {
    let prepare = Error::prepare(ErrorCode::InvalidRequest, "bad input");
    assert!(prepare.is_prepare());
    assert_eq!(prepare.code(), ErrorCode::InvalidRequest);
    assert_eq!(prepare.provider_state(), ProviderState::NotStarted);

    let execute = Error::execute(
        ErrorCode::Transport,
        "timed out",
        None,
        ProviderState::MayHaveStarted,
    );
    assert!(!execute.is_prepare());
    assert_eq!(execute.provider_state(), ProviderState::MayHaveStarted);
}

#[test]
fn constructors_preserve_source_chain() {
    let error = Error::prepare_with_source(
        ErrorCode::InvalidRequest,
        "invalid JSON",
        serde_json::from_str::<serde_json::Value>("{")
            .expect_err("must be invalid")
            .to_string(),
    );
    assert!(error.source().is_some());
    assert_eq!(error.message(), "invalid JSON");
}

#[test]
fn boundary_messages_are_bounded() {
    let error = Error::prepare(
        ErrorCode::InvalidRequest,
        &"x".repeat(ERROR_MESSAGE_MAX_CHARS + 1),
    );
    assert!(error.message().ends_with("... (truncated)"));
    assert_eq!(
        error.message().chars().count(),
        ERROR_MESSAGE_MAX_CHARS + "... (truncated)".chars().count()
    );
}

#[test]
fn message_at_the_limit_is_kept_whole() {
    let message = "y".repeat(ERROR_MESSAGE_MAX_CHARS);
    let error = Error::prepare(ErrorCode::Internal, &message);
    assert_eq!(error.message(), message);
    assert_eq!(litellm::error::bounded_message(""), "");
}

#[test]
fn truncation_counts_characters_not_bytes() {
    let message = "é".repeat(ERROR_MESSAGE_MAX_CHARS + 5);
    let bounded = litellm::error::bounded_message(&message);
    let expected = format!("{}... (truncated)", "é".repeat(ERROR_MESSAGE_MAX_CHARS));
    assert_eq!(bounded, expected);
}

#[test]
fn bounding_twice_changes_nothing() {
    let message = "z".repeat(ERROR_MESSAGE_MAX_CHARS * 2);
    let once = litellm::error::bounded_message(&message);
    let twice = litellm::error::bounded_message(&once);
    assert_eq!(once, twice);
}

#[test]
fn preparation_constructors_prefix_their_messages() {
    let error = Error::invalid_request("no model".to_string());
    assert!(error.is_prepare());
    assert_eq!(error.code(), ErrorCode::InvalidRequest);
    assert_eq!(error.message(), "invalid request: no model");
    assert_eq!(error.status_code(), None);

    let error = Error::invalid_provider("acme".to_string());
    assert_eq!(error.code(), ErrorCode::Unsupported);
    assert_eq!(error.message(), "invalid provider: acme");

    let error = Error::missing_field("model");
    assert_eq!(error.code(), ErrorCode::InvalidRequest);
    assert_eq!(error.message(), "missing required field: model");

    let error = Error::authentication("no key".to_string());
    assert_eq!(error.code(), ErrorCode::Authentication);
    assert_eq!(error.message(), "no key");

    let error = Error::routing("no deployment".to_string());
    assert_eq!(error.code(), ErrorCode::Routing);
    assert_eq!(error.message(), "routing error: no deployment");

    let error = Error::unsupported("batch");
    assert_eq!(error.code(), ErrorCode::Unsupported);
    assert_eq!(error.message(), "unsupported by the rust path: batch");

    let error = Error::invalid_type("string", "number");
    assert!(error.is_prepare());
    assert_eq!(error.message(), "expected string, got number");
}

#[test]
fn execution_constructors_report_provider_state() {
    let error = Error::connection_failed("refused".to_string());
    assert!(!error.is_prepare());
    assert_eq!(error.code(), ErrorCode::Transport);
    assert_eq!(error.message(), "could not reach the provider");
    assert_eq!(error.provider_state(), ProviderState::NotStarted);

    let error = Error::transport("reset".to_string());
    assert_eq!(error.message(), "upstream network error");
    assert_eq!(error.provider_state(), ProviderState::MayHaveStarted);

    let error = Error::invalid_response("empty".to_string());
    assert_eq!(error.code(), ErrorCode::InvalidResponse);
    assert_eq!(error.message(), "invalid response: empty");
    assert_eq!(error.provider_state(), ProviderState::ResponseReceived);

    let error = Error::invalid_response_type("object", "array");
    assert!(!error.is_prepare());
    assert_eq!(error.message(), "expected object, got array");

    let error = Error::missing_response_field("choices");
    assert_eq!(error.message(), "missing required field: choices");
    assert_eq!(error.provider_state(), ProviderState::ResponseReceived);

    let error = Error::unsupported_response("tool calls");
    assert_eq!(error.code(), ErrorCode::InvalidResponse);
    assert_eq!(error.message(), "tool calls");
}

#[test]
fn upstream_errors_carry_the_status() {
    let error = Error::upstream(503, "secret body".to_string());
    assert_eq!(error.code(), ErrorCode::Upstream);
    assert_eq!(error.status_code(), Some(503));
    assert_eq!(error.message(), "upstream request failed with status 503");
    assert_eq!(error.provider_state(), ProviderState::ResponseReceived);
    assert_eq!(
        Error::upstream(0, String::new()).message(),
        "upstream request failed with status 0"
    );
    assert_eq!(
        Error::upstream(65535, String::new()).message(),
        "upstream request failed with status 65535"
    );
}

#[test]
fn ownership_transfer_turns_preparation_into_execution() {
    let error = Error::prepare_with_source(
        ErrorCode::InvalidRequest,
        "bad document",
        "cause".to_string(),
    )
    .after_ownership_transfer();
    assert!(!error.is_prepare());
    assert_eq!(error.code(), ErrorCode::InvalidRequest);
    assert_eq!(error.message(), "bad document");
    assert_eq!(error.status_code(), None);
    assert_eq!(error.provider_state(), ProviderState::NotStarted);
    assert_eq!(error.source(), Some("cause"));

    let execution = Error::upstream(429, String::new()).after_ownership_transfer();
    assert_eq!(execution.status_code(), Some(429));
    assert_eq!(execution.provider_state(), ProviderState::ResponseReceived);

    let again = error.after_ownership_transfer();
    assert!(!again.is_prepare());
    assert_eq!(again.message(), "bad document");
}

#[test]
fn codes_and_states_have_snake_case_names() {
    assert_eq!(ErrorCode::Unsupported.as_ref(), "unsupported");
    assert_eq!(ErrorCode::InvalidRequest.as_ref(), "invalid_request");
    assert_eq!(ErrorCode::Authentication.as_ref(), "authentication");
    assert_eq!(ErrorCode::Routing.as_ref(), "routing");
    assert_eq!(ErrorCode::Policy.as_ref(), "policy");
    assert_eq!(ErrorCode::Transport.as_ref(), "transport");
    assert_eq!(ErrorCode::Upstream.as_ref(), "upstream");
    assert_eq!(ErrorCode::InvalidResponse.as_ref(), "invalid_response");
    assert_eq!(ErrorCode::Internal.as_ref(), "internal");
    assert_eq!(ProviderState::NotStarted.as_ref(), "not_started");
    assert_eq!(ProviderState::MayHaveStarted.as_ref(), "may_have_started");
    assert_eq!(ProviderState::ResponseReceived.as_ref(), "response_received");
}

#[test]
fn json_values_are_named_by_kind() {
    assert_eq!(json_type_name(&Value::Null), "null");
    assert_eq!(json_type_name(&Value::Bool(true)), "bool");
    assert_eq!(json_type_name(&Value::from(3)), "number");
    assert_eq!(json_type_name(&Value::String("s".to_string())), "string");
    assert_eq!(json_type_name(&Value::Array(Vec::new())), "array");
    assert_eq!(json_type_name(&Value::Object(serde_json::Map::new())), "object");
    let error = Error::invalid_type("string", json_type_name(&Value::Bool(false)));
    assert_eq!(error.message(), "expected string, got bool");
}

#[test]
fn errors_compare_by_what_they_report() {
    let plain = Error::prepare(ErrorCode::Routing, "no route");
    let caused = Error::prepare_with_source(ErrorCode::Routing, "no route", "lookup failed".to_string());
    assert_eq!(plain, caused);
    let executed = Error::prepare(ErrorCode::Routing, "no route").after_ownership_transfer();
    assert_ne!(plain, executed);
    assert_ne!(plain, Error::prepare(ErrorCode::Routing, "other route"));
    assert_ne!(
        Error::execute(ErrorCode::Upstream, "x", Some(429), ProviderState::ResponseReceived),
        Error::execute(ErrorCode::Upstream, "x", Some(503), ProviderState::ResponseReceived)
    );
}
