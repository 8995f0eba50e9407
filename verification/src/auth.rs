//! The credential vocabulary that provider configurations and
//! authenticators share: how a provider expects its credential, when a
//! credential may be replayed, and how authentication fails.

use vstd::prelude::*;

use crate::error::{Error, ErrorCode, prepare_view};

verus! {

/// How a provider expects its credential to be sent.
#[derive(Clone, Copy, Debug, PartialEq, Eq)]
pub enum AuthHeaderKind {
    /// `Authorization: Bearer <key>`.
    Bearer,
    /// The key itself, in the named header.
    Header(&'static str),
}

impl AuthHeaderKind {
    /// The name of the header that carries the credential.
    pub open spec fn spec_header_name(self) -> Seq<char> {
        match self {
            AuthHeaderKind::Bearer => "Authorization"@,
            AuthHeaderKind::Header(name) => name@,
        }
    }

    /// The header value that carries a key.
    pub open spec fn spec_header_value(self, api_key: Seq<char>) -> Seq<char> {
        match self {
            AuthHeaderKind::Bearer => "Bearer "@ + api_key,
            AuthHeaderKind::Header(_) => api_key,
        }
    }

    pub fn header_name(&self) -> (name: &'static str)
        ensures
            name@ == self.spec_header_name(),
    {
        match self {
            AuthHeaderKind::Bearer => "Authorization",
            AuthHeaderKind::Header(name) => name,
        }
    }

    pub fn header_value(&self, api_key: &str) -> (value: String)
        ensures
            value@ == self.spec_header_value(api_key@),
    {
        match self {
            AuthHeaderKind::Bearer => "Bearer ".to_owned().concat(api_key),
            AuthHeaderKind::Header(_) => api_key.to_owned(),
        }
    }
}

/// Whether a credential may be sent again on follow-up requests.
#[derive(Clone, Copy, Debug, PartialEq, Eq, Structural)]
pub enum ReplayPolicy {
    /// Only the primary request carries the credential.
    Never,
    /// Follow-up requests to the primary request's origin carry it too.
    SameOrigin,
}

/// The class of an authentication failure.
#[derive(Clone, Copy, Debug, PartialEq, Eq, Structural)]
pub enum AuthErrorKind {
    InvalidConfiguration,
    InvalidHeader,
    MissingCredential,
}

/// An authentication failure: its class, a stable code and a message.
#[derive(Clone, Copy, Debug)]
pub struct AuthError {
    pub kind: AuthErrorKind,
    pub code: &'static str,
    pub message: &'static str,
}

/// What an authentication failure states.
pub struct AuthErrorView {
    pub kind: AuthErrorKind,
    pub code: Seq<char>,
    pub message: Seq<char>,
}

impl View for AuthError {
    type V = AuthErrorView;

    open spec fn view(&self) -> AuthErrorView {
        AuthErrorView { kind: self.kind, code: self.code@, message: self.message@ }
    }
}

impl AuthError {
    pub fn new(kind: AuthErrorKind, code: &'static str, message: &'static str) -> (error: Self)
        ensures
            error@ == (AuthErrorView { kind, code: code@, message: message@ }),
    {
        AuthError { kind, code, message }
    }

    /// The core error an authentication failure becomes: a preparation
    /// error with the authentication code and the failure's message.
    pub fn into_error(self) -> (error: Error)
        ensures
            error@ == prepare_view(ErrorCode::Authentication, self.message@),
    {
        Error::prepare(ErrorCode::Authentication, self.message)
    }

    /// The text the failure displays: its message.
    pub fn to_display_string(&self) -> (text: String)
        ensures
            text@ == self.message@,
    {
        self.message.to_owned()
    }
}

} // verus!
