//! The decisions of an OCR provider call. The host sends requests and reads
//! responses; this module says what each outcome means and what comes next.

use vstd::prelude::*;

use crate::error::{Error, ErrorCode, ErrorView, ProviderState, execute_view, prepare_view};
use crate::http_utils::{is_success, spec_is_success};
use crate::ocr::transformation::{OcrProviderConfig, OcrResponseHandling};
use crate::ocr::types::{OcrResponseData, response_object};
use crate::outside::http::{
    authorization_bytes, authorization_header, parse_url, parse_url_text, url_text,
    visible_header_byte,
    content_length_bytes, content_length_header, content_type_bytes, content_type_header,
    header_map_contents, header_map_get, header_map_remove, header_name_bytes,
    header_name_from_bytes, header_value_bytes, header_value_to_str, parse_header_name,
};
use crate::outside::json::{
    json_bytes, json_from_str, json_map_insert, json_map_new, json_object, json_object_value,
    json_string, json_string_value, json_to_vec, parse_json_text,
};
use crate::text::spec_decimal;

verus! {

/// How the document reaches the provider.
#[derive(Clone, Copy, Debug, PartialEq, Eq, Structural)]
pub enum DocumentPreparation {
    /// The document URL is downloaded and sent inline as a data URI.
    ConvertToDataUri,
    /// The document is uploaded first and referred to by its file id.
    UploadToReducto,
    /// The document is sent as given.
    AsIs,
}

/// A provider that wants data URIs gets one, whatever else is asked;
/// otherwise an upload happens when one is required.
pub fn document_preparation(
    requires_data_uri: bool,
    requires_reducto_upload: bool,
) -> (preparation: DocumentPreparation)
    ensures
        preparation == if requires_data_uri {
            DocumentPreparation::ConvertToDataUri
        } else if requires_reducto_upload {
            DocumentPreparation::UploadToReducto
        } else {
            DocumentPreparation::AsIs
        },
{
    if requires_data_uri {
        DocumentPreparation::ConvertToDataUri
    } else if requires_reducto_upload {
        DocumentPreparation::UploadToReducto
    } else {
        DocumentPreparation::AsIs
    }
}

/// The caller's headers without `content-type` and `content-length`, which
/// belong to the body this call sends.
pub fn request_headers(headers: reqwest::header::HeaderMap) -> (upstream: reqwest::header::HeaderMap)
    ensures
        header_map_contents(upstream) == header_map_contents(headers).remove(
            content_type_bytes(),
        ).remove(content_length_bytes()),
{
    let mut headers = headers;
    header_map_remove(&mut headers, &content_type_header());
    header_map_remove(&mut headers, &content_length_header());
    headers
}

/// The request body as bytes. Writing a JSON value cannot fail; were it
/// to, the failure would be a preparation error.
pub fn serialize_request_body(body: &serde_json::Value) -> (bytes: Result<Vec<u8>, Error>)
    ensures
        bytes matches Ok(b) && b@ == json_bytes(*body),
{
    match json_to_vec(body) {
        Ok(bytes) => Ok(bytes),
        Err(detail) => Err(
            Error::invalid_request("invalid OCR request body: ".to_owned().concat(detail.as_str())),
        ),
    }
}

/// The bytes of the name `operation-location`.
pub open spec fn operation_location_bytes() -> Seq<u8> {
    seq![
        0x6fu8, 0x70, 0x65, 0x72, 0x61, 0x74, 0x69, 0x6f, 0x6e, 0x2d, 0x6c, 0x6f, 0x63, 0x61,
        0x74, 0x69, 0x6f, 0x6e,
    ]
}

fn operation_location_name() -> (name: reqwest::header::HeaderName)
    ensures
        header_name_bytes(name) == operation_location_bytes(),
{
    let text = "operation-location";
    proof {
        reveal_strlit("operation-location");
        vstd::utf8::is_ascii_chars_encode_utf8(text@);
        let bytes = vstd::utf8::encode_utf8(text@);
        assert(bytes =~= operation_location_bytes());
        assert(parse_header_name(bytes) == Some(operation_location_bytes())) by {
            assert(operation_location_bytes().map_values(
                |b: u8| crate::outside::http::header_name_lower(b),
            ) =~= operation_location_bytes());
        }
    }
    header_name_from_bytes(text.as_bytes()).unwrap()
}

/// The text of the first `operation-location` header, when there is one
/// and it is visible ASCII.
pub open spec fn spec_operation_location(headers: Map<Seq<u8>, Seq<Seq<u8>>>) -> Option<
    Seq<char>,
> {
    if headers.contains_key(operation_location_bytes()) {
        let value = headers[operation_location_bytes()][0];
        if forall|i: int|
            0 <= i < value.len() ==> crate::outside::http::visible_header_byte(#[trigger] value[i]) {
            Some(value.map_values(|b: u8| b as char))
        } else {
            None
        }
    } else {
        None
    }
}

/// Where a polled provider says the result will be.
pub fn operation_location(headers: &reqwest::header::HeaderMap) -> (location: Option<String>)
    ensures
        match location {
            Some(l) => spec_operation_location(header_map_contents(*headers)) == Some(l@),
            None => spec_operation_location(header_map_contents(*headers)) is None,
        },
{
    let name = operation_location_name();
    match header_map_get(headers, &name) {
        Some(value) => match header_value_to_str(value) {
            Some(text) => Some(text.to_owned()),
            None => None,
        },
        None => None,
    }
}

/// What happened in an OCR provider call.
pub enum OcrCallEvent {
    /// The request could not be sent or no answer came.
    SendFailed(String),
    /// The provider answered with this status; `operation_location` is the
    /// value of its `operation-location` header, if any.
    Responded { status: u16, operation_location: Option<String> },
    /// The answer's body was read.
    BodyReceived { status: u16, text: String },
    /// The answer's body could not be read.
    BodyFailed(String),
    /// Polling the operation location produced the result.
    PollCompleted(serde_json::Value),
}

/// What the host does next.
pub enum OcrCallAction {
    /// Read the body of the answer.
    ReadBody,
    /// Poll the operation location until the result is ready.
    Poll { operation_url: String },
    /// Transform this provider result into the public response.
    Transform(serde_json::Value),
    /// The call failed.
    Fail(Error),
}

/// The message of a polled answer without an operation location.
pub open spec fn missing_operation_location_message() -> Seq<char> {
    "Azure Document Intelligence returned 202 but no Operation-Location header found"@
}

/// What an OCR call does after an event.
pub open spec fn spec_next_ocr_action(
    handling: OcrResponseHandling,
    event: OcrCallEvent,
) -> OcrCallActionView {
    match event {
        OcrCallEvent::SendFailed(_) => OcrCallActionView::Fail(
            execute_view(
                ErrorCode::Transport,
                "upstream network error"@,
                None,
                ProviderState::MayHaveStarted,
            ),
        ),
        OcrCallEvent::Responded { status, operation_location } => if handling
            == OcrResponseHandling::AzureDocumentIntelligencePoll && status == 202 {
            match operation_location {
                Some(url) => OcrCallActionView::Poll(url@),
                None => OcrCallActionView::Fail(
                    execute_view(
                        ErrorCode::InvalidResponse,
                        "invalid response: "@ + missing_operation_location_message(),
                        None,
                        ProviderState::ResponseReceived,
                    ),
                ),
            }
        } else {
            OcrCallActionView::ReadBody
        },
        OcrCallEvent::BodyReceived { status, text } => if !spec_is_success(status) {
            OcrCallActionView::Fail(
                execute_view(
                    ErrorCode::Upstream,
                    "upstream request failed with status "@ + spec_decimal(status as nat),
                    Some(status),
                    ProviderState::ResponseReceived,
                ),
            )
        } else {
            match parse_json_text(text@) {
                Ok(value) => OcrCallActionView::Transform(value),
                Err(detail) => OcrCallActionView::Fail(
                    execute_view(
                        ErrorCode::InvalidResponse,
                        "invalid response: "@ + ("invalid OCR response JSON: "@ + detail),
                        None,
                        ProviderState::ResponseReceived,
                    ),
                ),
            }
        },
        OcrCallEvent::BodyFailed(_) => OcrCallActionView::Fail(
            execute_view(
                ErrorCode::Transport,
                "upstream network error"@,
                None,
                ProviderState::MayHaveStarted,
            ),
        ),
        OcrCallEvent::PollCompleted(value) => OcrCallActionView::Transform(value),
    }
}

/// What an action states.
pub enum OcrCallActionView {
    ReadBody,
    Poll(Seq<char>),
    Transform(serde_json::Value),
    Fail(ErrorView),
}

impl View for OcrCallAction {
    type V = OcrCallActionView;

    open spec fn view(&self) -> OcrCallActionView {
        match self {
            OcrCallAction::ReadBody => OcrCallActionView::ReadBody,
            OcrCallAction::Poll { operation_url } => OcrCallActionView::Poll(operation_url@),
            OcrCallAction::Transform(value) => OcrCallActionView::Transform(*value),
            OcrCallAction::Fail(error) => OcrCallActionView::Fail(error@),
        }
    }
}

/// Decides the next step of an OCR provider call: a failure to send or to
/// read is a network error; a polled provider's 202 leads to polling its
/// operation location (which it must name); a failing status is an
/// upstream error with that status; a body that is not JSON is an invalid
/// response; otherwise the result is transformed.
pub fn next_ocr_action(
    handling: OcrResponseHandling,
    event: OcrCallEvent,
) -> (action: OcrCallAction)
    ensures
        action@ == spec_next_ocr_action(handling, event),
{
    match event {
        OcrCallEvent::SendFailed(detail) => OcrCallAction::Fail(Error::transport(detail)),
        OcrCallEvent::Responded { status, operation_location } => {
            if handling == OcrResponseHandling::AzureDocumentIntelligencePoll && status == 202 {
                match operation_location {
                    Some(operation_url) => OcrCallAction::Poll { operation_url },
                    None => OcrCallAction::Fail(
                        Error::invalid_response(
                            "Azure Document Intelligence returned 202 but no Operation-Location header found".to_owned(),
                        ),
                    ),
                }
            } else {
                OcrCallAction::ReadBody
            }
        },
        OcrCallEvent::BodyReceived { status, text } => {
            if !is_success(status) {
                return OcrCallAction::Fail(Error::upstream(status, text));
            }
            match json_from_str(text.as_str()) {
                Ok(value) => OcrCallAction::Transform(value),
                Err(detail) => {
                    let message = "invalid OCR response JSON: ".to_owned().concat(detail.as_str());
                    OcrCallAction::Fail(Error::invalid_response(message))
                },
            }
        },
        OcrCallEvent::BodyFailed(detail) => OcrCallAction::Fail(Error::transport(detail)),
        OcrCallEvent::PollCompleted(value) => OcrCallAction::Transform(value),
    }
}

/// The public form of a provider response: without the provider's native
/// response.
pub open spec fn public_object(response: OcrResponseData) -> Map<Seq<char>, serde_json::Value> {
    response_object(OcrResponseData { provider_native_response: None, ..response })
}

/// The public JSON of a transformed response.
pub fn public_json(response: OcrResponseData) -> (value: serde_json::Value)
    ensures
        value == json_object_value(public_object(response)),
{
    let mut response = response;
    response.provider_native_response = None;
    response.into_json()
}

/// What `public_response` answers: the public JSON of the configuration's
/// transformation, or the transformation's error unchanged.
pub open spec fn spec_public_response(
    transformed: Result<OcrResponseData, Error>,
) -> Result<serde_json::Value, Error> {
    match transformed {
        Ok(response) => Ok(json_object_value(public_object(response))),
        Err(error) => Err(error),
    }
}

/// Transforms a provider result and makes it public.
pub fn public_response<C: OcrProviderConfig>(
    config: &C,
    model: &str,
    optional_params: &serde_json::Map<String, serde_json::Value>,
    response_json: serde_json::Value,
) -> (public: Result<serde_json::Value, Error>)
    ensures
        public == spec_public_response(
            config.ocr_response_with_params(model@, response_json, *optional_params),
        ),
{
    let response = config.transform_ocr_response_with_params(
        model,
        response_json,
        optional_params,
    )?;
    Ok(public_json(response))
}

/// The URL a document is uploaded to, or a preparation error naming why
/// it is not a URL.
pub fn reducto_upload_url(text: &str) -> (url: Result<reqwest::Url, Error>)
    ensures
        match url {
            Ok(u) => parse_url_text(text@) == Ok::<Seq<char>, Seq<char>>(url_text(u)),
            Err(e) => parse_url_text(text@) matches Err(detail) && e@ == prepare_view(
                ErrorCode::InvalidRequest,
                "invalid request: "@ + ("invalid Reducto upload URL: "@ + detail),
            ),
        },
{
    match parse_url(text) {
        Ok(url) => Ok(url),
        Err(detail) => Err(
            Error::invalid_request("invalid Reducto upload URL: ".to_owned().concat(detail.as_str())),
        ),
    }
}

/// The message when an upload has no credential to send.
pub open spec fn missing_upload_authorization_message() -> Seq<char> {
    "Reducto upload requires an Authorization header"@
}

/// The `authorization` value an upload sends: the first `authorization`
/// header of the authorized request. The upload is refused exactly when
/// there is none or it is not visible ASCII.
pub fn reducto_authorization(
    authorized_headers: &reqwest::header::HeaderMap,
) -> (authorization: Result<String, Error>)
    ensures
        match authorization {
            Ok(text) => {
                let contents = header_map_contents(*authorized_headers);
                &&& contents.contains_key(authorization_bytes())
                &&& contents[authorization_bytes()].len() > 0
                &&& forall|i: int|
                    0 <= i < contents[authorization_bytes()][0].len() ==> visible_header_byte(
                        #[trigger] contents[authorization_bytes()][0][i],
                    )
                &&& text@ == contents[authorization_bytes()][0].map_values(|b: u8| b as char)
            },
            Err(e) => {
                let contents = header_map_contents(*authorized_headers);
                &&& e@ == prepare_view(
                    ErrorCode::Authentication,
                    missing_upload_authorization_message(),
                )
                &&& (!contents.contains_key(authorization_bytes()) || exists|i: int|
                    0 <= i < contents[authorization_bytes()][0].len() && !visible_header_byte(
                        #[trigger] contents[authorization_bytes()][0][i],
                    ))
            },
        },
{
    let name = authorization_header();
    let missing = "Reducto upload requires an Authorization header";
    match header_map_get(authorized_headers, &name) {
        Some(value) => match header_value_to_str(value) {
            Some(text) => Ok(text.to_owned()),
            None => Err(Error::authentication(missing.to_owned())),
        },
        None => Err(Error::authentication(missing.to_owned())),
    }
}

/// The provider's answer to an upload: its JSON when the status is a
/// success, an upstream error with the status otherwise, and an invalid
/// response when the body is not JSON.
pub fn reducto_upload_response(
    status: u16,
    text: String,
) -> (response: Result<serde_json::Value, Error>)
    ensures
        match response {
            Ok(value) => spec_is_success(status) && parse_json_text(text@) == Ok::<
                serde_json::Value,
                Seq<char>,
            >(value),
            Err(e) => if !spec_is_success(status) {
                e@ == execute_view(
                    ErrorCode::Upstream,
                    "upstream request failed with status "@ + spec_decimal(status as nat),
                    Some(status),
                    ProviderState::ResponseReceived,
                )
            } else {
                parse_json_text(text@) matches Err(detail) && e@ == execute_view(
                    ErrorCode::InvalidResponse,
                    "invalid response: "@ + ("invalid Reducto upload response JSON: "@ + detail),
                    None,
                    ProviderState::ResponseReceived,
                )
            },
        },
{
    if !is_success(status) {
        return Err(Error::upstream(status, text));
    }
    match json_from_str(text.as_str()) {
        Ok(value) => Ok(value),
        Err(detail) => Err(
            Error::invalid_response(
                "invalid Reducto upload response JSON: ".to_owned().concat(detail.as_str()),
            ),
        ),
    }
}

/// The object that stands for an uploaded document.
pub open spec fn document_reference(file_id: Seq<char>) -> Map<Seq<char>, serde_json::Value> {
    Map::<Seq<char>, serde_json::Value>::empty().insert(
        "type"@,
        json_string_value("document_url"@),
    ).insert("document_url"@, json_string_value(file_id))
}

/// The document an upload is referred to by: `{"type": "document_url",
/// "document_url": <file id>}`.
pub fn document_url_reference(file_id: String) -> (document: serde_json::Value)
    ensures
        document == json_object_value(document_reference(file_id@)),
{
    let ghost id = file_id@;
    let mut object = json_map_new();
    json_map_insert(&mut object, "type".to_owned(), json_string("document_url".to_owned()));
    json_map_insert(&mut object, "document_url".to_owned(), json_string(file_id));
    assert(crate::outside::json::json_object_contents(object) =~= document_reference(id));
    json_object(object)
}

/// Every failure once the request has been sent is an execution error:
/// the host must not retry it elsewhere.
pub proof fn law_failures_after_sending_are_execution_errors(
    handling: OcrResponseHandling,
    event: OcrCallEvent,
)
    ensures
        spec_next_ocr_action(handling, event) matches OcrCallActionView::Fail(error)
            ==> !error.prepare && error.provider_state != ProviderState::NotStarted,
{
}

/// A failing status is reported with that status; a successful JSON body
/// is always transformed.
pub proof fn law_statuses_reach_the_host(
    handling: OcrResponseHandling,
    status: u16,
    text: String,
)
    ensures
        !spec_is_success(status) ==> (spec_next_ocr_action(
            handling,
            OcrCallEvent::BodyReceived { status, text },
        ) matches OcrCallActionView::Fail(error) && error.status_code == Some(status)
            && error.code == ErrorCode::Upstream),
        spec_is_success(status) && parse_json_text(text@) is Ok ==> spec_next_ocr_action(
            handling,
            OcrCallEvent::BodyReceived { status, text },
        ) == OcrCallActionView::Transform(parse_json_text(text@)->Ok_0),
{
}

/// The public form of a response never adds the provider's native
/// response: it is the common fields with the extra fields over them, and
/// it has a `provider_native_response` field only when an extra field has
/// that name.
pub proof fn law_public_responses_hide_the_native_response(response: OcrResponseData)
    ensures
        public_object(response) == crate::ocr::types::base_response_object(
            response,
        ).union_prefer_right(crate::outside::json::json_object_contents(response.extra_fields)),
        public_object(response).contains_key("provider_native_response"@)
            ==> crate::outside::json::json_object_contents(response.extra_fields).contains_key(
            "provider_native_response"@,
        ),
{
    reveal_strlit("provider_native_response");
    reveal_strlit("pages");
    reveal_strlit("model");
    reveal_strlit("document_annotation");
    reveal_strlit("usage_info");
    reveal_strlit("object");
    let stripped = OcrResponseData { provider_native_response: None, ..response };
    assert(crate::ocr::types::base_response_object(stripped)
        == crate::ocr::types::base_response_object(response));
    let native = "provider_native_response"@;
    assert(native.len() == 24);
    assert(native != "pages"@ && native != "model"@ && native != "object"@);
    assert(native != "document_annotation"@ && native != "usage_info"@);
    assert(!crate::ocr::types::base_response_object(response).contains_key(native));
}

/// A completed poll is transformed as it came back, whatever the
/// provider's response handling.
pub proof fn law_polled_results_are_transformed(
    handling: OcrResponseHandling,
    value: serde_json::Value,
)
    ensures
        spec_next_ocr_action(handling, OcrCallEvent::PollCompleted(value))
            == OcrCallActionView::Transform(value),
{
}

/// Only a polled provider's 202 leads to polling.
pub proof fn law_polling_only_for_accepted_jobs(handling: OcrResponseHandling, event: OcrCallEvent)
    ensures
        spec_next_ocr_action(handling, event) is Poll ==> (handling
            == OcrResponseHandling::AzureDocumentIntelligencePoll && (event matches OcrCallEvent::Responded { status, .. } && status == 202)),
{
}

} // verus!
