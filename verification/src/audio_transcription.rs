//! Audio transcription runs in two phases: preparation, which may fail
//! without touching a provider, and execution, after which the library owns
//! the provider call.

use vstd::prelude::*;

use crate::error::{Error, ErrorView, ownership_transferred};

verus! {

/// Prepares a transcription request with the provider-specific preparation
/// step, and returns what that step returns.
pub fn prepare<R, P, F: FnOnce(R) -> Result<P, Error>>(
    request: R,
    prepare_provider_call: F,
) -> (prepared: Result<P, Error>)
    requires
        prepare_provider_call.requires((request,)),
    ensures
        prepare_provider_call.ensures((request,), prepared),
{
    prepare_provider_call(request)
}

/// What an executed call answers: a success as it is, and a failure handed
/// over to execution.
pub open spec fn settled<T>(outcome: Result<T, ErrorView>) -> Result<T, ErrorView> {
    match outcome {
        Ok(value) => Ok(value),
        Err(error) => Err(ownership_transferred(error)),
    }
}

/// The view of an outcome.
pub open spec fn outcome_view<T>(outcome: Result<T, Error>) -> Result<T, ErrorView> {
    match outcome {
        Ok(value) => Ok(value),
        Err(error) => Err(error@),
    }
}

/// Settles the outcome of an executed provider call: once execution has
/// begun, every failure is an execution error.
pub fn finish_execution<T>(outcome: Result<T, Error>) -> (settled_outcome: Result<T, Error>)
    ensures
        outcome_view(settled_outcome) == settled(outcome_view(outcome)),
{
    match outcome {
        Ok(value) => Ok(value),
        Err(error) => Err(error.after_ownership_transfer()),
    }
}

/// Settling a failure keeps everything it reports (code, message, status
/// code, provider state and source) and only makes it an execution error;
/// an execution error is settled unchanged, and a success is kept.
pub proof fn law_settling_keeps_the_report<T>(outcome: Result<T, ErrorView>)
    ensures
        outcome matches Err(error) ==> settled(outcome) matches Err(kept) && !kept.prepare
            && kept.code == error.code && kept.message == error.message && kept.status_code
            == error.status_code && kept.provider_state == error.provider_state && kept.source
            == error.source,
        outcome matches Err(error) && !error.prepare ==> settled(outcome) == outcome,
        outcome is Ok ==> settled(outcome) == outcome,
{
}

/// A transcription either fails in preparation, and the failure is a
/// preparation error exactly when preparation produced it, or it reaches
/// execution, after which no failure is a preparation error.
pub proof fn law_execution_failures_are_never_preparation_errors<T>(
    outcome: Result<T, ErrorView>,
)
    ensures
        settled(outcome) matches Err(error) ==> !error.prepare,
        settled(outcome) matches Err(error) ==> outcome matches Err(initial)
            && error.code == initial.code && error.message == initial.message,
        outcome is Ok ==> settled(outcome) == outcome,
{
}

} // verus!
