use litellm::audio_transcription::{finish_execution, prepare};
use litellm::error::{Error, ErrorCode, ProviderState};
use litellm::gateway::ocr::provider_url;
use litellm::text::{decimal_text, str_eq_ignore_ascii_case, trim};

#[test]
fn preparation_returns_what_the_step_returns() {
    let prepared = prepare(3, |request: i32| Ok::<i32, Error>(request * 2));
    assert_eq!(prepared.unwrap(), 6);
    let failed = prepare("doc", |_: &str| {
        Err::<(), Error>(Error::invalid_request("missing file".to_string()))
    });
    let error = failed.err().unwrap();
    assert!(error.is_prepare());
}

#[test]
fn execution_failures_are_owned_by_execution() {
    let settled = finish_execution::<()>(Err(Error::prepare(ErrorCode::InvalidRequest, "bad")));
    let error = settled.err().unwrap();
    assert!(!error.is_prepare());
    assert_eq!(error.provider_state(), ProviderState::NotStarted);
    assert_eq!(error.message(), "bad");
    assert_eq!(finish_execution::<u8>(Ok(7)).unwrap(), 7);
}

#[test]
fn gateway_provider_urls_are_parsed() {
    assert_eq!(
        provider_url("https://api.mistral.ai/v1/ocr").unwrap().as_str(),
        "https://api.mistral.ai/v1/ocr"
    );
    let error = provider_url("::").err().unwrap();
    assert!(error.message().starts_with("invalid request: invalid OCR provider URL: "));
}

#[test]
fn text_helpers_behave_like_std() {
    assert_eq!(trim("  a b \t\n"), "a b");
    assert_eq!(trim("\u{3000}x\u{a0}"), "x");
    assert_eq!(trim("   "), "");
    assert_eq!(trim(""), "");
    assert_eq!(decimal_text(0), "0");
    assert_eq!(decimal_text(404), "404");
    assert!(str_eq_ignore_ascii_case("Authorization", "AUTHORIZATION"));
    assert!(!str_eq_ignore_ascii_case("a", "b"));
}
