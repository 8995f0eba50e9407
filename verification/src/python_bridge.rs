//! What the Python host is told about a core error: which exception class
//! is raised and which attributes it carries.

use vstd::prelude::*;

use crate::error::{Error, ErrorView};

verus! {

/// The exception class a core error is raised as.
#[derive(Clone, Copy, Debug, PartialEq, Eq, Structural)]
pub enum ExceptionKind {
    /// Rust stopped before provider execution; the host may use another
    /// implementation.
    RustPreparationError,
    /// Rust owns provider execution; the host must not retry through
    /// another implementation.
    RustExecutionError,
}

/// The attributes set on a raised exception.
#[derive(Debug)]
pub struct StructuredError {
    pub kind: ExceptionKind,
    pub code: &'static str,
    pub message: String,
    pub status_code: Option<u16>,
    pub provider_state: &'static str,
}

/// The exception class for an error: preparation errors and execution
/// errors are raised as distinct classes.
pub open spec fn exception_kind(view: ErrorView) -> ExceptionKind {
    if view.prepare {
        ExceptionKind::RustPreparationError
    } else {
        ExceptionKind::RustExecutionError
    }
}

/// The class and attributes a core error is raised with: the code and the
/// provider state by their snake_case names, the message, and the status
/// code (none for a preparation error).
pub fn structured_error(error: Error) -> (structured: StructuredError)
    ensures
        structured.kind == exception_kind(error@),
        structured.code@ == error@.code.spec_name(),
        structured.message@ == error@.message,
        structured.status_code == error@.status_code,
        structured.provider_state@ == error@.provider_state.spec_name(),
{
    let ghost view = error@;
    match error {
        Error::Prepare { code, message, source: _ } => StructuredError {
            kind: ExceptionKind::RustPreparationError,
            code: code.as_ref(),
            message,
            status_code: None,
            provider_state: crate::error::ProviderState::NotStarted.as_ref(),
        },
        Error::Execute { code, message, status_code, provider_state, source: _ } => {
            StructuredError {
                kind: ExceptionKind::RustExecutionError,
                code: code.as_ref(),
                message,
                status_code,
                provider_state: provider_state.as_ref(),
            }
        },
    }
}

impl ExceptionKind {
    /// The class name the module registers.
    pub fn class_name(&self) -> (name: &'static str)
        ensures
            name@ == match self {
                ExceptionKind::RustPreparationError => "RustPreparationError"@,
                ExceptionKind::RustExecutionError => "RustExecutionError"@,
            },
    {
        match self {
            ExceptionKind::RustPreparationError => "RustPreparationError",
            ExceptionKind::RustExecutionError => "RustExecutionError",
        }
    }
}

/// The names under which the module exports the two classes: each class
/// under its own name and under one older alias.
pub fn exported_exceptions() -> (exports: Vec<(&'static str, ExceptionKind)>)
    ensures
        exports@.len() == 4,
        exports@[0].0@ == "RustPreparationError"@,
        exports@[0].1 == ExceptionKind::RustPreparationError,
        exports@[1].0@ == "RustExecutionError"@,
        exports@[1].1 == ExceptionKind::RustExecutionError,
        exports@[2].0@ == "RustBridgeDeclined"@,
        exports@[2].1 == ExceptionKind::RustPreparationError,
        exports@[3].0@ == "RustUpstreamError"@,
        exports@[3].1 == ExceptionKind::RustExecutionError,
{
    let mut exports = Vec::new();
    exports.push(("RustPreparationError", ExceptionKind::RustPreparationError));
    exports.push(("RustExecutionError", ExceptionKind::RustExecutionError));
    exports.push(("RustBridgeDeclined", ExceptionKind::RustPreparationError));
    exports.push(("RustUpstreamError", ExceptionKind::RustExecutionError));
    exports
}

/// A host may fall back to another implementation exactly for errors that
/// never reached a provider: the preparation class is chosen only for
/// preparation errors, and such errors report no status and a provider that
/// was not started.
pub proof fn law_preparation_class_means_provider_untouched(error: &Error)
    ensures
        exception_kind(error@) == ExceptionKind::RustPreparationError <==> error@.prepare,
        exception_kind(error@) == ExceptionKind::RustPreparationError ==> error@.status_code is None
            && error@.provider_state == crate::error::ProviderState::NotStarted,
{
}

/// Once an error has been handed over to execution it is always raised as
/// an execution error.
pub proof fn law_transferred_errors_are_execution_errors(view: ErrorView)
    ensures
        exception_kind(crate::error::ownership_transferred(view))
            == ExceptionKind::RustExecutionError,
{
}

} // verus!
