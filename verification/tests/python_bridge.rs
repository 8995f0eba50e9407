use litellm::error::{Error, ErrorCode, ProviderState};
use litellm::python_bridge::{exported_exceptions, structured_error, ExceptionKind};

#[test]
fn preparation_error_exposes_structured_fields() {
    let mapped = structured_error(Error::prepare(ErrorCode::InvalidRequest, "invalid document"));
    assert_eq!(mapped.kind, ExceptionKind::RustPreparationError);
    assert_eq!(mapped.code, "invalid_request");
    assert_eq!(mapped.provider_state, "not_started");
    assert!(mapped.status_code.is_none());
}

#[test]
fn execution_error_preserves_ownership_fields() {
    let mapped = structured_error(Error::execute(
        ErrorCode::Upstream,
        "rate limited",
        Some(429),
        ProviderState::ResponseReceived,
    ));
    assert_eq!(mapped.kind, ExceptionKind::RustExecutionError);
    assert_eq!(mapped.status_code, Some(429));
    assert_eq!(mapped.provider_state, "response_received");
}

#[test]
fn structured_fields_keep_the_message() {
    let mapped = structured_error(Error::transport("reset".to_string()));
    assert_eq!(mapped.kind, ExceptionKind::RustExecutionError);
    assert_eq!(mapped.code, "transport");
    assert_eq!(mapped.message, "upstream network error");
    assert_eq!(mapped.provider_state, "may_have_started");
    assert_eq!(ExceptionKind::RustExecutionError.class_name(), "RustExecutionError");
    assert_eq!(ExceptionKind::RustPreparationError.class_name(), "RustPreparationError");
}

#[test]
fn transferred_preparation_errors_raise_execution_class() {
    let mapped = structured_error(
        Error::prepare(ErrorCode::InvalidRequest, "bad").after_ownership_transfer(),
    );
    assert_eq!(mapped.kind, ExceptionKind::RustExecutionError);
    assert_eq!(mapped.provider_state, "not_started");
}

#[test]
fn both_classes_are_exported_with_aliases() {
    let exports = exported_exceptions();
    assert_eq!(
        exports,
        vec![
            ("RustPreparationError", ExceptionKind::RustPreparationError),
            ("RustExecutionError", ExceptionKind::RustExecutionError),
            ("RustBridgeDeclined", ExceptionKind::RustPreparationError),
            ("RustUpstreamError", ExceptionKind::RustExecutionError),
        ]
    );
}
