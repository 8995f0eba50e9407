//! The gateway's OCR provider call. Its decisions after sending are those
//! of `crate::ocr::handler::next_ocr_action`; this module holds what
//! differs: the provider URL is parsed first, and the transformed response
//! is returned whole.

use vstd::prelude::*;

use crate::error::{Error, ErrorCode, prepare_view};
use crate::ocr::transformation::OcrProviderConfig;
use crate::ocr::types::response_object;
use crate::outside::http::{parse_url, parse_url_text, url_text};
use crate::outside::json::json_object_value;

verus! {

/// The provider URL, or a preparation error naming why it is not a URL.
pub fn provider_url(text: &str) -> (url: Result<reqwest::Url, Error>)
    ensures
        match url {
            Ok(u) => parse_url_text(text@) == Ok::<Seq<char>, Seq<char>>(url_text(u)),
            Err(e) => parse_url_text(text@) matches Err(detail) && e@ == prepare_view(
                ErrorCode::InvalidRequest,
                "invalid request: "@ + ("invalid OCR provider URL: "@ + detail),
            ),
        },
{
    match parse_url(text) {
        Ok(url) => Ok(url),
        Err(detail) => Err(
            Error::invalid_request("invalid OCR provider URL: ".to_owned().concat(detail.as_str())),
        ),
    }
}

/// Transforms a provider result into the response the gateway returns,
/// the provider's native response included; the transformation's error is
/// returned unchanged.
pub fn transformed_response<C: OcrProviderConfig>(
    config: &C,
    model: &str,
    optional_params: &serde_json::Map<String, serde_json::Value>,
    response_json: serde_json::Value,
) -> (response: Result<serde_json::Value, Error>)
    ensures
        response == match config.ocr_response_with_params(
            model@,
            response_json,
            *optional_params,
        ) {
            Ok(transformed) => Ok(json_object_value(response_object(transformed))),
            Err(error) => Err::<serde_json::Value, Error>(error),
        },
{
    let transformed = config.transform_ocr_response_with_params(
        model,
        response_json,
        optional_params,
    )?;
    Ok(transformed.into_json())
}

} // verus!
