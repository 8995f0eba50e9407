//! Errors of the HTTP and websocket gateway, and the single projection
//! that both hosts use to answer a failed request.

use vstd::prelude::*;

use crate::config;
use crate::error::{self as core_error, ErrorCode, ErrorView, ProviderState};
use crate::outside::http::status_code_from_u16;
use crate::outside::json::{
    json_map_insert, json_map_new, json_object, json_object_contents, json_object_value,
    json_string, json_string_value,
};

verus! {

/// A failure of a gateway request.
#[derive(Debug)]
pub enum Error {
    Core(core_error::Error),
    Config(config::Error),
    Authentication,
    Extraction,
    Transport,
}

/// What a host tells its client about a failure.
#[derive(Clone, Debug, PartialEq, Eq)]
pub struct Projection {
    pub status_code: u16,
    pub message: String,
    pub provider_state: ProviderState,
}

/// The HTTP status a core error is answered with. An upstream status is
/// passed on only when it is a client or server error (400 to 599).
pub open spec fn core_status_code(code: ErrorCode, upstream_status: Option<u16>) -> u16 {
    match code {
        ErrorCode::InvalidRequest | ErrorCode::Unsupported | ErrorCode::Policy => 400,
        ErrorCode::Routing => 404,
        ErrorCode::Authentication | ErrorCode::Transport | ErrorCode::InvalidResponse => 502,
        ErrorCode::Upstream => match upstream_status {
            Some(status) => if 400 <= status <= 599 {
                status
            } else {
                502
            },
            None => 502,
        },
        ErrorCode::Internal => 500,
    }
}

/// The status code, message and provider state a gateway error is
/// projected to.
pub open spec fn spec_projection(error: &Error) -> (u16, Seq<char>, ProviderState) {
    match error {
        Error::Core(core) => (
            core_status_code(core@.code, core@.status_code),
            core@.message,
            core@.provider_state,
        ),
        Error::Config(_) => (500, "gateway configuration failed"@, ProviderState::NotStarted),
        Error::Authentication => (401, "gateway authentication failed"@, ProviderState::NotStarted),
        Error::Extraction => (400, "invalid gateway request"@, ProviderState::NotStarted),
        Error::Transport => (502, "gateway transport failed"@, ProviderState::NotStarted),
    }
}

/// The text a gateway error displays.
pub open spec fn spec_display(error: &Error) -> Seq<char> {
    match error {
        Error::Core(core) => core@.message,
        Error::Config(_) => "parsing model_list failed"@,
        Error::Authentication => "gateway authentication failed"@,
        Error::Extraction => "gateway request extraction failed"@,
        Error::Transport => "gateway transport failed"@,
    }
}

/// The projection of a core error.
fn project_core(error: &core_error::Error) -> (projection: Projection)
    ensures
        projection.status_code == core_status_code(error@.code, error@.status_code),
        projection.message@ == error@.message,
        projection.provider_state == error@.provider_state,
{
    let status_code = match error.code() {
        ErrorCode::InvalidRequest | ErrorCode::Unsupported | ErrorCode::Policy => 400,
        ErrorCode::Routing => 404,
        ErrorCode::Authentication | ErrorCode::Transport | ErrorCode::InvalidResponse => 502,
        ErrorCode::Upstream => match error.status_code() {
            Some(status) => if 400 <= status && status <= 599 {
                status
            } else {
                502
            },
            None => 502,
        },
        ErrorCode::Internal => 500,
    };
    Projection {
        status_code,
        message: error.message().to_owned(),
        provider_state: error.provider_state(),
    }
}

/// A projection of a failure that never reached a provider.
fn projection(status_code: u16, message: &str) -> (projection: Projection)
    ensures
        projection.status_code == status_code,
        projection.message@ == message@,
        projection.provider_state == ProviderState::NotStarted,
{
    Projection {
        status_code,
        message: message.to_owned(),
        provider_state: ProviderState::NotStarted,
    }
}

impl Error {
    /// The status code, message and provider state that hosts answer with.
    pub fn project(&self) -> (projection: Projection)
        ensures
            (projection.status_code, projection.message@, projection.provider_state)
                == spec_projection(self),
    {
        match self {
            Error::Core(error) => project_core(error),
            Error::Config(_) => projection(500, "gateway configuration failed"),
            Error::Authentication => projection(401, "gateway authentication failed"),
            Error::Extraction => projection(400, "invalid gateway request"),
            Error::Transport => projection(502, "gateway transport failed"),
        }
    }

    /// The text the error displays; a core error displays its message.
    pub fn to_display_string(&self) -> (text: String)
        ensures
            text@ == spec_display(self),
    {
        match self {
            Error::Core(error) => error.message().to_owned(),
            Error::Config(error) => error.to_display_string(),
            Error::Authentication => "gateway authentication failed".to_owned(),
            Error::Extraction => "gateway request extraction failed".to_owned(),
            Error::Transport => "gateway transport failed".to_owned(),
        }
    }
}

/// The HTTP status a response to a projection carries: the projected
/// status when it is a valid HTTP status (100 to 999), otherwise 500.
pub fn response_status(projection: &Projection) -> (status: u16)
    ensures
        status == if 100 <= projection.status_code < 1000 {
            projection.status_code
        } else {
            500
        },
{
    match status_code_from_u16(projection.status_code) {
        Some(status) => status,
        None => 500,
    }
}

/// The JSON object a failed request is answered with:
/// `{"error": {"message": <message>}}`.
pub open spec fn error_body_object(message: Seq<char>) -> Map<Seq<char>, serde_json::Value> {
    Map::<Seq<char>, serde_json::Value>::empty().insert(
        "error"@,
        json_object_value(
            Map::<Seq<char>, serde_json::Value>::empty().insert(
                "message"@,
                json_string_value(message),
            ),
        ),
    )
}

/// The body of the response to a projection: its message, under
/// `error.message`.
pub fn error_body(projection: &Projection) -> (body: serde_json::Value)
    ensures
        body == json_object_value(error_body_object(projection.message@)),
{
    let mut inner = json_map_new();
    json_map_insert(&mut inner, "message".to_owned(), json_string(projection.message.clone()));
    let ghost message = projection.message@;
    assert(json_object_contents(inner) =~= Map::<Seq<char>, serde_json::Value>::empty().insert(
        "message"@,
        json_string_value(message),
    ));
    let mut outer = json_map_new();
    json_map_insert(&mut outer, "error".to_owned(), json_object(inner));
    assert(json_object_contents(outer) =~= error_body_object(message));
    json_object(outer)
}

impl From<core_error::Error> for Error {
    fn from(error: core_error::Error) -> (wrapped: Self) {
        Error::Core(error)
    }
}

impl vstd::std_specs::convert::FromSpecImpl<core_error::Error> for Error {
    open spec fn obeys_from_spec() -> bool {
        true
    }

    open spec fn from_spec(error: core_error::Error) -> Self {
        Error::Core(error)
    }
}

impl From<config::Error> for Error {
    fn from(error: config::Error) -> (wrapped: Self) {
        Error::Config(error)
    }
}

impl vstd::std_specs::convert::FromSpecImpl<config::Error> for Error {
    open spec fn obeys_from_spec() -> bool {
        true
    }

    open spec fn from_spec(error: config::Error) -> Self {
        Error::Config(error)
    }
}

/// Every projection carries a status that a client can read as an error
/// (400 to 599), and a projected core error keeps its message and provider
/// state.
pub proof fn law_projection_is_an_error_status(error: &Error)
    ensures
        400 <= spec_projection(error).0 <= 599,
        error matches Error::Core(core) ==> spec_projection(error).1 == core@.message
            && spec_projection(error).2 == core@.provider_state,
        !(error is Core) ==> spec_projection(error).2 == ProviderState::NotStarted,
{
}

/// An upstream failure is answered with the provider's own status exactly
/// when that status is between 400 and 599, and with 502 otherwise.
pub proof fn law_upstream_status_passes_through(upstream_status: Option<u16>)
    ensures
        core_status_code(ErrorCode::Upstream, upstream_status) == match upstream_status {
            Some(status) => if 400 <= status <= 599 {
                status
            } else {
                502
            },
            None => 502,
        },
        forall|code: ErrorCode|
            code != ErrorCode::Upstream ==> #[trigger] core_status_code(code, upstream_status)
                == core_status_code(code, None),
{
}

/// The projection of a core error depends on its code, status code,
/// message and provider state only: wrapping the same report twice, or
/// handing an execution error over again, gives the same answer.
pub proof fn law_projection_reads_only_the_report(a: &core_error::Error, b: &core_error::Error)
    requires
        a@.code == b@.code,
        a@.status_code == b@.status_code,
        a@.message == b@.message,
        a@.provider_state == b@.provider_state,
    ensures
        spec_projection(&Error::Core(*a)) == spec_projection(&Error::Core(*b)),
{
}

/// A preparation error and the same error handed over to execution are
/// projected alike.
pub proof fn law_projection_survives_ownership_transfer(view: ErrorView)
    ensures
        core_status_code(
            core_error::ownership_transferred(view).code,
            core_error::ownership_transferred(view).status_code,
        ) == core_status_code(view.code, view.status_code),
        core_error::ownership_transferred(view).message == view.message,
        core_error::ownership_transferred(view).provider_state == view.provider_state,
{
}

} // verus!
