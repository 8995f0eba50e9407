use litellm::auth::AuthHeaderKind;
use litellm::error::Error;
use litellm::http_utils::{has_header, is_success};
use litellm::ocr::transformation::{
    apply_credential, select_ocr_params, with_auth_header, OcrProviderConfig, OcrResponseHandling,
};
use litellm::ocr::types::{OcrRequestData, OcrResponseData};
use serde_json::Value;

struct KeyedProvider {
    kind: AuthHeaderKind,
}

impl OcrProviderConfig for KeyedProvider {
    fn supported_ocr_params(&self) -> &'static [&'static str] {
        &["pages", "include_image_base64"]
    }

    fn transform_ocr_request(
        &self,
        _model: &str,
        document: Value,
        _optional_params: serde_json::Map<String, Value>,
    ) -> Result<OcrRequestData, Error> {
        Ok(OcrRequestData { data: document, files: None })
    }

    fn transform_ocr_response(&self, _model: &str, _response_json: Value) -> Result<OcrResponseData, Error> {
        Err(Error::unsupported_response("not used"))
    }

    fn complete_url<E: Fn(&str) -> Option<String>>(
        &self,
        _api_base: Option<&str>,
        _model: &str,
        _optional_params: &serde_json::Map<String, Value>,
        _env_lookup: &E,
    ) -> Result<String, Error> {
        Ok(String::new())
    }

    fn resolve_api_key<E: Fn(&str) -> Option<String>>(
        &self,
        api_key: Option<&str>,
        env_lookup: &E,
    ) -> Result<String, Error> {
        api_key
            .map(str::to_string)
            .or_else(|| env_lookup("OCR_API_KEY"))
            .ok_or_else(|| Error::missing_field("api_key"))
    }

    fn auth_header_kind(&self) -> AuthHeaderKind {
        self.kind
    }
    fn transform_ocr_response_with_params(
        &self,
        model: &str,
        response_json: Value,
        _optional_params: &serde_json::Map<String, Value>,
    ) -> Result<OcrResponseData, Error> {
        self.transform_ocr_response(model, response_json)
    }

    fn requires_data_uri_document(&self) -> bool {
        false
    }

    fn response_handling(&self) -> OcrResponseHandling {
        OcrResponseHandling::Json
    }

}

fn pair(name: &str, value: &str) -> (String, String) {
    (name.to_string(), value.to_string())
}

#[test]
fn unsupported_params_are_dropped() {
    let mut params = serde_json::Map::new();
    params.insert("pages".to_string(), Value::Bool(true));
    params.insert("temperature".to_string(), Value::Bool(false));
    params.insert("include_image_base64".to_string(), Value::String("yes".to_string()));
    let provider = KeyedProvider { kind: AuthHeaderKind::Bearer };
    let mapped = provider.map_ocr_params(&params);
    assert_eq!(mapped.len(), 2);
    assert_eq!(mapped["pages"], Value::Bool(true));
    assert_eq!(mapped["include_image_base64"], Value::String("yes".to_string()));
    assert!(select_ocr_params(&[], &params).is_empty());
}

#[test]
fn existing_credential_headers_are_kept() {
    let provider = KeyedProvider { kind: AuthHeaderKind::Bearer };
    let headers = vec![pair("AUTHORIZATION", "Bearer mine"), pair("x-a", "1")];
    let validated = provider
        .validate_environment(headers.clone(), Some("other"), &|_: &str| None)
        .unwrap();
    assert_eq!(validated, headers);
}

#[test]
fn missing_credential_headers_are_added_first() {
    let provider = KeyedProvider { kind: AuthHeaderKind::Bearer };
    let validated = provider
        .validate_environment(vec![pair("x-a", "1")], Some("sk"), &|_: &str| None)
        .unwrap();
    assert_eq!(validated, vec![pair("Authorization", "Bearer sk"), pair("x-a", "1")]);

    let provider = KeyedProvider { kind: AuthHeaderKind::Header("api-key") };
    let validated = provider
        .validate_environment(Vec::new(), None, &|name: &str| {
            if name == "OCR_API_KEY" {
                Some("from-env".to_string())
            } else {
                None
            }
        })
        .unwrap();
    assert_eq!(validated, vec![pair("api-key", "from-env")]);

    let error = provider
        .validate_environment(Vec::new(), None, &|_: &str| None)
        .err()
        .unwrap();
    assert_eq!(error.message(), "missing required field: api_key");
}

#[test]
fn auth_headers_lead_the_list() {
    let headers = with_auth_header(
        AuthHeaderKind::Header("Ocp-Apim-Subscription-Key"),
        vec![pair("a", "1"), pair("b", "2")],
        "k".to_string(),
    );
    assert_eq!(
        headers,
        vec![pair("Ocp-Apim-Subscription-Key", "k"), pair("a", "1"), pair("b", "2")]
    );
}

#[test]
fn header_lookup_ignores_ascii_case() {
    let headers = vec![pair("Content-Type", "x")];
    assert!(has_header(&headers, "content-type"));
    assert!(has_header(&headers, "CONTENT-TYPE"));
    assert!(!has_header(&headers, "content-typ"));
    assert!(!has_header(&[], "content-type"));
}

#[test]
fn success_statuses_are_the_2xx_range() {
    assert!(is_success(200));
    assert!(is_success(299));
    assert!(!is_success(199));
    assert!(!is_success(300));
}

#[test]
fn credentials_are_resolved_only_when_missing() {
    let headers = vec![pair("api-key", "mine")];
    let kept = apply_credential(AuthHeaderKind::Header("API-KEY"), headers.clone(), || {
        panic!("the resolver must not be asked")
    })
    .unwrap();
    assert_eq!(kept, headers);

    let added = apply_credential(AuthHeaderKind::Bearer, vec![pair("x", "1")], || {
        Ok("sk-2".to_string())
    })
    .unwrap();
    assert_eq!(added, vec![pair("Authorization", "Bearer sk-2"), pair("x", "1")]);

    let refused = apply_credential(AuthHeaderKind::Bearer, Vec::new(), || {
        Err(Error::missing_field("api_key"))
    })
    .err()
    .unwrap();
    assert_eq!(refused, Error::missing_field("api_key"));
}
