//! Errors of the provider pipeline, split by the phase in which they arise.
//!
//! A `Prepare` error means that nothing was sent to the provider, so a host
//! may still hand the request to another implementation. An `Execute` error
//! means that this library owned the provider call, and the provider state
//! tells how far that call went.

use vstd::prelude::*;

use crate::outside::json::{json_kind, json_value_kind};
use crate::text::{decimal_text, spec_decimal, str_equal};
use vstd::std_specs::cmp::PartialEqSpecImpl;

verus! {

/// The longest message, in characters, that an error keeps before it is cut.
pub const ERROR_MESSAGE_MAX_CHARS: usize = 1000;

/// What a cut message ends with.
pub const TRUNCATION_MARKER: &'static str = "... (truncated)";

/// The characters of the truncation marker.
pub open spec fn truncation_marker() -> Seq<char> {
    "... (truncated)"@
}

/// A message as an error keeps it: unchanged when it is short enough,
/// otherwise its first `ERROR_MESSAGE_MAX_CHARS` characters and the marker.
pub open spec fn spec_bounded_message(message: Seq<char>) -> Seq<char> {
    if message.len() <= ERROR_MESSAGE_MAX_CHARS {
        message
    } else {
        message.subrange(0, ERROR_MESSAGE_MAX_CHARS as int) + truncation_marker()
    }
}

/// The kind of failure, independent of the phase.
#[derive(Clone, Copy, Debug, PartialEq, Eq, Structural)]
pub enum ErrorCode {
    Unsupported,
    InvalidRequest,
    Authentication,
    Routing,
    Policy,
    Transport,
    Upstream,
    InvalidResponse,
    Internal,
}

/// How far a provider call went before it failed.
#[derive(Clone, Copy, Debug, PartialEq, Eq, Structural)]
pub enum ProviderState {
    NotStarted,
    MayHaveStarted,
    ResponseReceived,
}

impl ErrorCode {
    /// The snake_case name of the code.
    pub open spec fn spec_name(self) -> Seq<char> {
        match self {
            ErrorCode::Unsupported => "unsupported"@,
            ErrorCode::InvalidRequest => "invalid_request"@,
            ErrorCode::Authentication => "authentication"@,
            ErrorCode::Routing => "routing"@,
            ErrorCode::Policy => "policy"@,
            ErrorCode::Transport => "transport"@,
            ErrorCode::Upstream => "upstream"@,
            ErrorCode::InvalidResponse => "invalid_response"@,
            ErrorCode::Internal => "internal"@,
        }
    }

    /// The snake_case name of the code, as hosts see it.
    pub fn as_ref(&self) -> (name: &'static str)
        ensures
            name@ == self.spec_name(),
    {
        match self {
            ErrorCode::Unsupported => "unsupported",
            ErrorCode::InvalidRequest => "invalid_request",
            ErrorCode::Authentication => "authentication",
            ErrorCode::Routing => "routing",
            ErrorCode::Policy => "policy",
            ErrorCode::Transport => "transport",
            ErrorCode::Upstream => "upstream",
            ErrorCode::InvalidResponse => "invalid_response",
            ErrorCode::Internal => "internal",
        }
    }
}

impl ProviderState {
    /// The snake_case name of the state.
    pub open spec fn spec_name(self) -> Seq<char> {
        match self {
            ProviderState::NotStarted => "not_started"@,
            ProviderState::MayHaveStarted => "may_have_started"@,
            ProviderState::ResponseReceived => "response_received"@,
        }
    }

    /// The snake_case name of the state, as hosts see it.
    pub fn as_ref(&self) -> (name: &'static str)
        ensures
            name@ == self.spec_name(),
    {
        match self {
            ProviderState::NotStarted => "not_started",
            ProviderState::MayHaveStarted => "may_have_started",
            ProviderState::ResponseReceived => "response_received",
        }
    }
}

/// An error of the provider pipeline.
///
/// `source` holds the description of the underlying error, where there is one.
#[derive(Debug)]
pub enum Error {
    Prepare {
        code: ErrorCode,
        message: String,
        source: Option<String>,
    },
    Execute {
        code: ErrorCode,
        message: String,
        status_code: Option<u16>,
        provider_state: ProviderState,
        source: Option<String>,
    },
}

/// What an error states, with the phase as a flag.
pub struct ErrorView {
    pub prepare: bool,
    pub code: ErrorCode,
    pub message: Seq<char>,
    pub status_code: Option<u16>,
    pub provider_state: ProviderState,
    pub source: Option<Seq<char>>,
}

/// The view of an optional source description.
pub open spec fn source_view(source: Option<String>) -> Option<Seq<char>> {
    match source {
        Some(s) => Some(s@),
        None => None,
    }
}

impl View for Error {
    type V = ErrorView;

    /// A preparation error reports no status code and a provider that was
    /// not started.
    open spec fn view(&self) -> ErrorView {
        match self {
            Error::Prepare { code, message, source } => ErrorView {
                prepare: true,
                code: *code,
                message: message@,
                status_code: None,
                provider_state: ProviderState::NotStarted,
                source: source_view(*source),
            },
            Error::Execute { code, message, status_code, provider_state, source } => ErrorView {
                prepare: false,
                code: *code,
                message: message@,
                status_code: *status_code,
                provider_state: *provider_state,
                source: source_view(*source),
            },
        }
    }
}

/// The view of a preparation error built by `Error::prepare`.
pub open spec fn prepare_view(code: ErrorCode, message: Seq<char>) -> ErrorView {
    ErrorView {
        prepare: true,
        code,
        message: spec_bounded_message(message),
        status_code: None,
        provider_state: ProviderState::NotStarted,
        source: None,
    }
}

/// The view of an execution error built by `Error::execute`.
pub open spec fn execute_view(
    code: ErrorCode,
    message: Seq<char>,
    status_code: Option<u16>,
    provider_state: ProviderState,
) -> ErrorView {
    ErrorView {
        prepare: false,
        code,
        message: spec_bounded_message(message),
        status_code,
        provider_state,
        source: None,
    }
}

/// The view of an error once the library owns the provider call.
pub open spec fn ownership_transferred(view: ErrorView) -> ErrorView {
    ErrorView { prepare: false, ..view }
}

/// Keeps a message whole when it has at most `ERROR_MESSAGE_MAX_CHARS`
/// characters, and otherwise keeps that many characters followed by the
/// truncation marker.
pub fn bounded_message(message: &str) -> (bounded: String)
    ensures
        bounded@ == spec_bounded_message(message@),
{
    let length = message.unicode_len();
    if length <= ERROR_MESSAGE_MAX_CHARS {
        return message.to_owned();
    }
    let prefix = message.substring_char(0, ERROR_MESSAGE_MAX_CHARS);
    let bounded = prefix.to_owned().concat(TRUNCATION_MARKER);
    proof {
        reveal_strlit("... (truncated)");
    }
    bounded
}

/// `prefix` followed by `rest`, as a new string.
fn joined(prefix: &str, rest: &str) -> (text: String)
    ensures
        text@ == prefix@ + rest@,
{
    prefix.to_owned().concat(rest)
}

impl Error {
    /// A preparation error with a bounded message and no source.
    pub fn prepare(code: ErrorCode, message: &str) -> (error: Self)
        ensures
            error@ == prepare_view(code, message@),
    {
        Error::Prepare { code, message: bounded_message(message), source: None }
    }

    /// A preparation error with a bounded message and the description of
    /// the error that caused it.
    pub fn prepare_with_source(code: ErrorCode, message: &str, source: String) -> (error: Self)
        ensures
            error@ == (ErrorView { source: Some(source@), ..prepare_view(code, message@) }),
    {
        Error::Prepare { code, message: bounded_message(message), source: Some(source) }
    }

    /// An execution error with a bounded message and no source.
    pub fn execute(
        code: ErrorCode,
        message: &str,
        status_code: Option<u16>,
        provider_state: ProviderState,
    ) -> (error: Self)
        ensures
            error@ == execute_view(code, message@, status_code, provider_state),
    {
        Error::Execute {
            code,
            message: bounded_message(message),
            status_code,
            provider_state,
            source: None,
        }
    }

    /// An execution error with a bounded message and the description of the
    /// error that caused it.
    pub fn execute_with_source(
        code: ErrorCode,
        message: &str,
        status_code: Option<u16>,
        provider_state: ProviderState,
        source: String,
    ) -> (error: Self)
        ensures
            error@ == (ErrorView {
                source: Some(source@),
                ..execute_view(code, message@, status_code, provider_state)
            }),
    {
        Error::Execute {
            code,
            message: bounded_message(message),
            status_code,
            provider_state,
            source: Some(source),
        }
    }

    pub fn code(&self) -> (code: ErrorCode)
        ensures
            code == self@.code,
    {
        match self {
            Error::Prepare { code, .. } | Error::Execute { code, .. } => *code,
        }
    }

    pub fn message(&self) -> (message: &str)
        ensures
            message@ == self@.message,
    {
        match self {
            Error::Prepare { message, .. } | Error::Execute { message, .. } => message.as_str(),
        }
    }

    /// The provider's status code; a preparation error has none.
    pub fn status_code(&self) -> (status: Option<u16>)
        ensures
            status == self@.status_code,
    {
        match self {
            Error::Prepare { .. } => None,
            Error::Execute { status_code, .. } => *status_code,
        }
    }

    /// How far the provider call went; a preparation error never started one.
    pub fn provider_state(&self) -> (state: ProviderState)
        ensures
            state == self@.provider_state,
    {
        match self {
            Error::Prepare { .. } => ProviderState::NotStarted,
            Error::Execute { provider_state, .. } => *provider_state,
        }
    }

    pub fn is_prepare(&self) -> (prepare: bool)
        ensures
            prepare == self@.prepare,
    {
        match self {
            Error::Prepare { .. } => true,
            Error::Execute { .. } => false,
        }
    }

    /// The description of the underlying error, where there is one.
    pub fn source(&self) -> (source: Option<&str>)
        ensures
            match source {
                Some(s) => self@.source == Some(s@),
                None => self@.source is None,
            },
    {
        match self {
            Error::Prepare { source, .. } | Error::Execute { source, .. } => match source {
                Some(s) => Some(s.as_str()),
                None => None,
            },
        }
    }

    /// Turns a preparation error into an execution error once the library
    /// owns the provider call: everything is kept, the status code is
    /// absent and the provider was not started. An execution error is
    /// returned unchanged.
    pub fn after_ownership_transfer(self) -> (error: Self)
        ensures
            error@ == ownership_transferred(self@),
    {
        match self {
            Error::Prepare { code, message, source } => Error::Execute {
                code,
                message,
                status_code: None,
                provider_state: ProviderState::NotStarted,
                source,
            },
            Error::Execute { code, message, status_code, provider_state, source } => Error::Execute {
                code,
                message,
                status_code,
                provider_state,
                source,
            },
        }
    }

    pub fn invalid_request(message: String) -> (error: Self)
        ensures
            error@ == prepare_view(ErrorCode::InvalidRequest, "invalid request: "@ + message@),
    {
        Self::prepare(ErrorCode::InvalidRequest, &joined("invalid request: ", message.as_str()))
    }

    pub fn invalid_provider(provider: String) -> (error: Self)
        ensures
            error@ == prepare_view(ErrorCode::Unsupported, "invalid provider: "@ + provider@),
    {
        Self::prepare(ErrorCode::Unsupported, &joined("invalid provider: ", provider.as_str()))
    }

    pub fn missing_field(field: &'static str) -> (error: Self)
        ensures
            error@ == prepare_view(ErrorCode::InvalidRequest, "missing required field: "@ + field@),
    {
        Self::prepare(ErrorCode::InvalidRequest, &joined("missing required field: ", field))
    }

    pub fn authentication(message: String) -> (error: Self)
        ensures
            error@ == prepare_view(ErrorCode::Authentication, message@),
    {
        Self::prepare(ErrorCode::Authentication, message.as_str())
    }

    pub fn routing(message: String) -> (error: Self)
        ensures
            error@ == prepare_view(ErrorCode::Routing, "routing error: "@ + message@),
    {
        Self::prepare(ErrorCode::Routing, &joined("routing error: ", message.as_str()))
    }

    pub fn unsupported(message: &'static str) -> (error: Self)
        ensures
            error@ == prepare_view(
                ErrorCode::Unsupported,
                "unsupported by the rust path: "@ + message@,
            ),
    {
        Self::prepare(ErrorCode::Unsupported, &joined("unsupported by the rust path: ", message))
    }

    /// The provider could not be reached; the detail is not kept.
    pub fn connection_failed(_message: String) -> (error: Self)
        ensures
            error@ == execute_view(
                ErrorCode::Transport,
                "could not reach the provider"@,
                None,
                ProviderState::NotStarted,
            ),
    {
        Self::execute(
            ErrorCode::Transport,
            "could not reach the provider",
            None,
            ProviderState::NotStarted,
        )
    }

    /// The connection failed after the request may have reached the
    /// provider; the detail is not kept.
    pub fn transport(_message: String) -> (error: Self)
        ensures
            error@ == execute_view(
                ErrorCode::Transport,
                "upstream network error"@,
                None,
                ProviderState::MayHaveStarted,
            ),
    {
        Self::execute(
            ErrorCode::Transport,
            "upstream network error",
            None,
            ProviderState::MayHaveStarted,
        )
    }

    pub fn invalid_response(message: String) -> (error: Self)
        ensures
            error@ == execute_view(
                ErrorCode::InvalidResponse,
                "invalid response: "@ + message@,
                None,
                ProviderState::ResponseReceived,
            ),
    {
        Self::execute(
            ErrorCode::InvalidResponse,
            &joined("invalid response: ", message.as_str()),
            None,
            ProviderState::ResponseReceived,
        )
    }

    pub fn invalid_type(expected: &'static str, actual: &'static str) -> (error: Self)
        ensures
            error@ == prepare_view(
                ErrorCode::InvalidRequest,
                "expected "@ + expected@ + ", got "@ + actual@,
            ),
    {
        let text = joined("expected ", expected).concat(", got ").concat(actual);
        Self::prepare(ErrorCode::InvalidRequest, &text)
    }

    pub fn invalid_response_type(expected: &'static str, actual: &'static str) -> (error: Self)
        ensures
            error@ == execute_view(
                ErrorCode::InvalidResponse,
                "expected "@ + expected@ + ", got "@ + actual@,
                None,
                ProviderState::ResponseReceived,
            ),
    {
        let text = joined("expected ", expected).concat(", got ").concat(actual);
        Self::execute(ErrorCode::InvalidResponse, &text, None, ProviderState::ResponseReceived)
    }

    pub fn missing_response_field(field: &'static str) -> (error: Self)
        ensures
            error@ == execute_view(
                ErrorCode::InvalidResponse,
                "missing required field: "@ + field@,
                None,
                ProviderState::ResponseReceived,
            ),
    {
        Self::execute(
            ErrorCode::InvalidResponse,
            &joined("missing required field: ", field),
            None,
            ProviderState::ResponseReceived,
        )
    }

    pub fn unsupported_response(message: &'static str) -> (error: Self)
        ensures
            error@ == execute_view(
                ErrorCode::InvalidResponse,
                message@,
                None,
                ProviderState::ResponseReceived,
            ),
    {
        Self::execute(ErrorCode::InvalidResponse, message, None, ProviderState::ResponseReceived)
    }

    /// The provider answered with a failing status; the body is not kept.
    pub fn upstream(status: u16, _body: String) -> (error: Self)
        ensures
            error@ == execute_view(
                ErrorCode::Upstream,
                "upstream request failed with status "@ + spec_decimal(status as nat),
                Some(status),
                ProviderState::ResponseReceived,
            ),
    {
        let text = joined("upstream request failed with status ", decimal_text(status).as_str());
        Self::execute(ErrorCode::Upstream, &text, Some(status), ProviderState::ResponseReceived)
    }
}

/// Two errors report the same thing: the same phase, code, message,
/// status code and provider state. Sources are not compared.
pub open spec fn same_report(a: ErrorView, b: ErrorView) -> bool {
    &&& a.prepare == b.prepare
    &&& a.code == b.code
    &&& a.message == b.message
    &&& a.status_code == b.status_code
    &&& a.provider_state == b.provider_state
}

impl PartialEq for Error {
    fn eq(&self, other: &Self) -> (equal: bool) {
        self.is_prepare() == other.is_prepare() && self.code() == other.code() && str_equal(
            self.message(),
            other.message(),
        ) && self.status_code() == other.status_code() && self.provider_state()
            == other.provider_state()
    }
}

impl PartialEqSpecImpl for Error {
    open spec fn obeys_eq_spec() -> bool {
        true
    }

    open spec fn eq_spec(&self, other: &Self) -> bool {
        same_report(self@, other@)
    }
}

impl Eq for Error {

}

/// The kinds of JSON value.
#[derive(Clone, Copy, Debug, PartialEq, Eq, Structural)]
pub enum JsonKind {
    Null,
    Bool,
    Number,
    String,
    Array,
    Object,
}

impl JsonKind {
    /// The name error messages use for the kind.
    pub open spec fn spec_name(self) -> Seq<char> {
        match self {
            JsonKind::Null => "null"@,
            JsonKind::Bool => "bool"@,
            JsonKind::Number => "number"@,
            JsonKind::String => "string"@,
            JsonKind::Array => "array"@,
            JsonKind::Object => "object"@,
        }
    }

    /// The name error messages use for the kind.
    pub fn name(&self) -> (name: &'static str)
        ensures
            name@ == self.spec_name(),
    {
        match self {
            JsonKind::Null => "null",
            JsonKind::Bool => "bool",
            JsonKind::Number => "number",
            JsonKind::String => "string",
            JsonKind::Array => "array",
            JsonKind::Object => "object",
        }
    }
}

/// The name of a JSON value's kind, as `invalid_type` and
/// `invalid_response_type` messages give it.
pub fn json_type_name(value: &serde_json::Value) -> (name: &'static str)
    ensures
        name@ == json_value_kind(*value).spec_name(),
{
    json_kind(value).name()
}

/// Every error reports what its phase allows: a preparation error has no
/// status code and a provider that was not started.
pub proof fn law_preparation_errors_never_reached_the_provider(error: &Error)
    ensures
        error@.prepare ==> error@.status_code is None && error@.provider_state
            == ProviderState::NotStarted,
{
}

/// Handing an error over to execution keeps everything a host reads from
/// it (code, message, status code, provider state and source), and the
/// result is never a preparation error.
pub proof fn law_ownership_transfer_keeps_the_report(error: &Error)
    ensures
        !ownership_transferred(error@).prepare,
        ownership_transferred(error@).code == error@.code,
        ownership_transferred(error@).message == error@.message,
        ownership_transferred(error@).status_code == error@.status_code,
        ownership_transferred(error@).provider_state == error@.provider_state,
        ownership_transferred(error@).source == error@.source,
        !error@.prepare ==> ownership_transferred(error@) == error@,
{
}

/// Handing an error over twice is the same as handing it over once.
pub proof fn law_ownership_transfer_is_idempotent(view: ErrorView)
    ensures
        ownership_transferred(ownership_transferred(view)) == ownership_transferred(view),
{
}

/// A bounded message never exceeds the limit plus the marker; a message
/// within the limit is kept whole, and a longer one keeps its first
/// `ERROR_MESSAGE_MAX_CHARS` characters and ends with the marker.
pub proof fn law_bounded_message_is_bounded(message: Seq<char>)
    ensures
        spec_bounded_message(message).len() <= ERROR_MESSAGE_MAX_CHARS + truncation_marker().len(),
        message.len() <= ERROR_MESSAGE_MAX_CHARS ==> spec_bounded_message(message) == message,
        message.len() > ERROR_MESSAGE_MAX_CHARS ==> {
            &&& spec_bounded_message(message).len() == ERROR_MESSAGE_MAX_CHARS
                + truncation_marker().len()
            &&& spec_bounded_message(message).subrange(0, ERROR_MESSAGE_MAX_CHARS as int)
                == message.subrange(0, ERROR_MESSAGE_MAX_CHARS as int)
            &&& spec_bounded_message(message).subrange(
                ERROR_MESSAGE_MAX_CHARS as int,
                spec_bounded_message(message).len() as int,
            ) == truncation_marker()
        },
{
    let bounded = spec_bounded_message(message);
    if message.len() > ERROR_MESSAGE_MAX_CHARS {
        let prefix = message.subrange(0, ERROR_MESSAGE_MAX_CHARS as int);
        assert(bounded.subrange(0, ERROR_MESSAGE_MAX_CHARS as int) =~= prefix);
        assert(bounded.subrange(ERROR_MESSAGE_MAX_CHARS as int, bounded.len() as int)
            =~= truncation_marker());
    }
}

/// Errors compare by what they report: the comparison is an equivalence,
/// and the source never takes part in it.
pub proof fn law_errors_compare_by_report(a: ErrorView, b: ErrorView, c: ErrorView)
    ensures
        same_report(a, a),
        same_report(a, b) ==> same_report(b, a),
        same_report(a, b) && same_report(b, c) ==> same_report(a, c),
        same_report(a, ErrorView { source: b.source, ..a }),
{
}

/// Bounding a message that was already bounded changes nothing.
pub proof fn law_bounded_message_is_idempotent(message: Seq<char>)
    ensures
        spec_bounded_message(spec_bounded_message(message)) == spec_bounded_message(message),
{
    reveal_strlit("... (truncated)");
    let bounded = spec_bounded_message(message);
    if message.len() > ERROR_MESSAGE_MAX_CHARS {
        assert(bounded.len() > ERROR_MESSAGE_MAX_CHARS);
        assert(bounded.subrange(0, ERROR_MESSAGE_MAX_CHARS as int) =~= message.subrange(
            0,
            ERROR_MESSAGE_MAX_CHARS as int,
        ));
    }
}

} // verus!
