use litellm::error::{ErrorCode, ProviderState};
use litellm::ocr::handler::{
    document_preparation, document_url_reference, next_ocr_action, operation_location,
    public_json, reducto_authorization, reducto_upload_response, reducto_upload_url,
    request_headers, serialize_request_body, DocumentPreparation, OcrCallAction, OcrCallEvent,
};
use litellm::ocr::transformation::OcrResponseHandling;
use litellm::ocr::types::OcrResponseData;
use reqwest::header::{HeaderMap, HeaderValue};
use serde_json::Value;

fn response(native: Option<Value>, extra: serde_json::Map<String, Value>) -> OcrResponseData {
    OcrResponseData {
        pages: vec![Value::String("page one".to_string())],
        model: "mistral-ocr".to_string(),
        document_annotation: None,
        usage_info: Some(Value::Bool(true)),
        object: "ocr".to_string(),
        extra_fields: extra,
        provider_native_response: native,
    }
}

#[test]
fn documents_are_prepared_by_provider_needs() {
    assert_eq!(document_preparation(true, true), DocumentPreparation::ConvertToDataUri);
    assert_eq!(document_preparation(true, false), DocumentPreparation::ConvertToDataUri);
    assert_eq!(document_preparation(false, true), DocumentPreparation::UploadToReducto);
    assert_eq!(document_preparation(false, false), DocumentPreparation::AsIs);
}

#[test]
fn body_headers_are_not_forwarded() {
    let mut headers = HeaderMap::new();
    headers.insert("content-type", HeaderValue::from_static("text/plain"));
    headers.insert("content-length", HeaderValue::from_static("12"));
    headers.insert("x-trace", HeaderValue::from_static("abc"));
    let upstream = request_headers(headers);
    assert_eq!(upstream.len(), 1);
    assert_eq!(upstream.get("x-trace").unwrap(), "abc");
}

#[test]
fn request_bodies_serialize_to_json() {
    let body = Value::String("doc".to_string());
    assert_eq!(serialize_request_body(&body).unwrap(), b"\"doc\"".to_vec());
}

#[test]
fn operation_location_is_read_from_headers() {
    let mut headers = HeaderMap::new();
    assert_eq!(operation_location(&headers), None);
    headers.insert(
        "Operation-Location",
        HeaderValue::from_static("https://resource.example/operations/1"),
    );
    assert_eq!(
        operation_location(&headers),
        Some("https://resource.example/operations/1".to_string())
    );
}

#[test]
fn send_and_read_failures_are_network_errors() {
    for event in [
        OcrCallEvent::SendFailed("timeout".to_string()),
        OcrCallEvent::BodyFailed("reset".to_string()),
    ] {
        match next_ocr_action(OcrResponseHandling::Json, event) {
            OcrCallAction::Fail(error) => {
                assert!(!error.is_prepare());
                assert_eq!(error.code(), ErrorCode::Transport);
                assert_eq!(error.message(), "upstream network error");
                assert_eq!(error.provider_state(), ProviderState::MayHaveStarted);
            }
            _ => panic!("expected a failure"),
        }
    }
}

#[test]
fn polled_providers_are_polled_after_accepting() {
    let action = next_ocr_action(
        OcrResponseHandling::AzureDocumentIntelligencePoll,
        OcrCallEvent::Responded {
            status: 202,
            operation_location: Some("https://resource.example/operations/1".to_string()),
        },
    );
    match action {
        OcrCallAction::Poll { operation_url } => {
            assert_eq!(operation_url, "https://resource.example/operations/1")
        }
        _ => panic!("expected polling"),
    }
    let action = next_ocr_action(
        OcrResponseHandling::AzureDocumentIntelligencePoll,
        OcrCallEvent::Responded { status: 202, operation_location: None },
    );
    match action {
        OcrCallAction::Fail(error) => assert_eq!(
            error.message(),
            "invalid response: Azure Document Intelligence returned 202 but no Operation-Location header found"
        ),
        _ => panic!("expected a failure"),
    }
    let action = next_ocr_action(
        OcrResponseHandling::Json,
        OcrCallEvent::Responded { status: 202, operation_location: None },
    );
    assert!(matches!(action, OcrCallAction::ReadBody));
    let action = next_ocr_action(
        OcrResponseHandling::AzureDocumentIntelligencePoll,
        OcrCallEvent::Responded { status: 200, operation_location: None },
    );
    assert!(matches!(action, OcrCallAction::ReadBody));
}

#[test]
fn failing_statuses_become_upstream_errors() {
    let action = next_ocr_action(
        OcrResponseHandling::Json,
        OcrCallEvent::BodyReceived { status: 429, text: "slow down".to_string() },
    );
    match action {
        OcrCallAction::Fail(error) => {
            assert_eq!(error.code(), ErrorCode::Upstream);
            assert_eq!(error.status_code(), Some(429));
            assert_eq!(error.message(), "upstream request failed with status 429");
        }
        _ => panic!("expected a failure"),
    }
}

#[test]
fn response_bodies_must_be_json() {
    let action = next_ocr_action(
        OcrResponseHandling::Json,
        OcrCallEvent::BodyReceived { status: 200, text: "{\"pages\": []}".to_string() },
    );
    match action {
        OcrCallAction::Transform(value) => {
            assert_eq!(value, serde_json::from_str::<Value>("{\"pages\": []}").unwrap())
        }
        _ => panic!("expected a result"),
    }
    let action = next_ocr_action(
        OcrResponseHandling::Json,
        OcrCallEvent::BodyReceived { status: 200, text: "not json".to_string() },
    );
    match action {
        OcrCallAction::Fail(error) => {
            assert_eq!(error.code(), ErrorCode::InvalidResponse);
            assert!(error.message().starts_with("invalid response: invalid OCR response JSON: "));
            assert_eq!(error.provider_state(), ProviderState::ResponseReceived);
        }
        _ => panic!("expected a failure"),
    }
    let polled = Value::Bool(false);
    match next_ocr_action(OcrResponseHandling::Json, OcrCallEvent::PollCompleted(polled.clone())) {
        OcrCallAction::Transform(value) => assert_eq!(value, polled),
        _ => panic!("expected a result"),
    }
}

#[test]
fn public_json_drops_the_native_response() {
    let value = public_json(response(Some(Value::String("raw".to_string())), serde_json::Map::new()));
    let object = value.as_object().unwrap();
    assert!(!object.contains_key("provider_native_response"));
    assert_eq!(object["model"], Value::String("mistral-ocr".to_string()));
    assert_eq!(object["document_annotation"], Value::Null);
}

#[test]
fn into_json_layers_extra_fields_and_native_response() {
    let mut extra = serde_json::Map::new();
    extra.insert("object".to_string(), Value::String("override".to_string()));
    extra.insert("id".to_string(), Value::String("abc".to_string()));
    extra.insert("provider_native_response".to_string(), Value::Bool(false));
    let value = response(Some(Value::String("raw".to_string())), extra).into_json();
    let object = value.as_object().unwrap();
    assert_eq!(object.len(), 7);
    assert_eq!(object["object"], Value::String("override".to_string()));
    assert_eq!(object["id"], Value::String("abc".to_string()));
    assert_eq!(object["provider_native_response"], Value::String("raw".to_string()));
    assert_eq!(object["pages"], Value::Array(vec![Value::String("page one".to_string())]));
    assert_eq!(object["usage_info"], Value::Bool(true));
}

#[test]
fn reducto_upload_needs_an_authorization_header() {
    let error = reducto_authorization(&HeaderMap::new()).err().unwrap();
    assert_eq!(error.code(), ErrorCode::Authentication);
    assert_eq!(error.message(), "Reducto upload requires an Authorization header");
    let mut headers = HeaderMap::new();
    headers.insert("authorization", HeaderValue::from_static("Bearer token"));
    assert_eq!(reducto_authorization(&headers).unwrap(), "Bearer token");
}

#[test]
fn reducto_upload_answers_are_checked() {
    let error = reducto_upload_response(500, "boom".to_string()).err().unwrap();
    assert_eq!(error.status_code(), Some(500));
    let error = reducto_upload_response(200, "<html>".to_string()).err().unwrap();
    assert!(error
        .message()
        .starts_with("invalid response: invalid Reducto upload response JSON: "));
    let value = reducto_upload_response(201, "{\"file_id\": \"f\"}".to_string()).unwrap();
    assert_eq!(value["file_id"], Value::String("f".to_string()));
}

#[test]
fn uploaded_documents_are_referred_to_by_id() {
    let value = document_url_reference("reducto://file-1".to_string());
    let object = value.as_object().unwrap();
    assert_eq!(object.len(), 2);
    assert_eq!(object["type"], Value::String("document_url".to_string()));
    assert_eq!(object["document_url"], Value::String("reducto://file-1".to_string()));
}

#[test]
fn reducto_upload_urls_are_parsed() {
    let url = reducto_upload_url("https://platform.reducto.ai/upload").unwrap();
    assert_eq!(url.as_str(), "https://platform.reducto.ai/upload");
    let error = reducto_upload_url("not a url").err().unwrap();
    assert!(error.is_prepare());
    assert!(error.message().starts_with("invalid request: invalid Reducto upload URL: "));
}
