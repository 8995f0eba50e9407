use litellm::error::{ErrorCode, ProviderState};
use litellm::gateway::error::{error_body, response_status};
use litellm::gateway::{Error, Projection};

#[test]
fn core_projection_is_shared_by_http_and_websocket_hosts() {
    let cases = [
        (ErrorCode::InvalidRequest, 400),
        (ErrorCode::Unsupported, 400),
        (ErrorCode::Policy, 400),
        (ErrorCode::Routing, 404),
        (ErrorCode::Authentication, 502),
        (ErrorCode::Transport, 502),
        (ErrorCode::InvalidResponse, 502),
        (ErrorCode::Internal, 500),
    ];
    for (code, expected_status) in cases {
        let projection = Error::from(litellm::error::Error::execute(
            code,
            "safe message",
            None,
            ProviderState::MayHaveStarted,
        ))
        .project();
        assert_eq!(projection.status_code, expected_status);
        assert_eq!(projection.provider_state, ProviderState::MayHaveStarted);
    }
}

#[test]
fn upstream_projection_preserves_sanitized_status() {
    let projection = Error::from(litellm::error::Error::execute(
        ErrorCode::Upstream,
        "rate limited",
        Some(429),
        ProviderState::ResponseReceived,
    ))
    .project();
    assert_eq!(projection.status_code, 429);
    assert_eq!(projection.message, "rate limited");
}

#[test]
fn upstream_statuses_outside_errors_become_bad_gateway() {
    for status in [Some(200), Some(302), Some(399), Some(600), None] {
        let projection = Error::from(litellm::error::Error::execute(
            ErrorCode::Upstream,
            "odd",
            status,
            ProviderState::ResponseReceived,
        ))
        .project();
        assert_eq!(projection.status_code, 502);
    }
    for status in [400, 599] {
        let projection = Error::Core(litellm::error::Error::upstream(status, String::new()))
            .project();
        assert_eq!(projection.status_code, status);
    }
}

#[test]
fn gateway_failures_project_to_fixed_answers() {
    let expected = [
        (Error::Authentication, 401, "gateway authentication failed"),
        (Error::Extraction, 400, "invalid gateway request"),
        (Error::Transport, 502, "gateway transport failed"),
        (
            Error::Config(litellm::config::Error::ModelListParsing("eof".to_string())),
            500,
            "gateway configuration failed",
        ),
    ];
    for (error, status, message) in expected {
        let projection = error.project();
        assert_eq!(
            projection,
            Projection {
                status_code: status,
                message: message.to_string(),
                provider_state: ProviderState::NotStarted,
            }
        );
    }
}

#[test]
fn preparation_errors_project_as_not_started() {
    let projection = Error::from(litellm::error::Error::invalid_request("x".to_string())).project();
    assert_eq!(projection.status_code, 400);
    assert_eq!(projection.message, "invalid request: x");
    assert_eq!(projection.provider_state, ProviderState::NotStarted);
}

#[test]
fn gateway_errors_display_their_texts() {
    assert_eq!(Error::Authentication.to_display_string(), "gateway authentication failed");
    assert_eq!(Error::Extraction.to_display_string(), "gateway request extraction failed");
    assert_eq!(Error::Transport.to_display_string(), "gateway transport failed");
    assert_eq!(
        Error::from(litellm::config::Error::ModelListParsing("eof".to_string()))
            .to_display_string(),
        "parsing model_list failed"
    );
    assert_eq!(
        Error::from(litellm::error::Error::routing("none".to_string())).to_display_string(),
        "routing error: none"
    );
}

#[test]
fn response_status_falls_back_to_internal_error() {
    let projection = |status_code: u16| Projection {
        status_code,
        message: String::new(),
        provider_state: ProviderState::NotStarted,
    };
    assert_eq!(response_status(&projection(429)), 429);
    assert_eq!(response_status(&projection(100)), 100);
    assert_eq!(response_status(&projection(999)), 999);
    assert_eq!(response_status(&projection(99)), 500);
    assert_eq!(response_status(&projection(1000)), 500);
}

#[test]
fn error_bodies_carry_the_projected_message() {
    let projection = Error::Extraction.project();
    let body = error_body(&projection);
    let mut inner = serde_json::Map::new();
    inner.insert(
        "message".to_string(),
        serde_json::Value::String("invalid gateway request".to_string()),
    );
    let mut outer = serde_json::Map::new();
    outer.insert("error".to_string(), serde_json::Value::Object(inner));
    assert_eq!(body, serde_json::Value::Object(outer));
    assert_eq!(body["error"]["message"], "invalid gateway request");
}
