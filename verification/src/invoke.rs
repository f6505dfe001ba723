//! The invocation bridge: how the report of the execution engine about one
//! module invocation is turned into the result the dispatcher acts on.
//!
//! Obtaining an isolated module instance and running its handler entry point
//! belong to the execution-engine collaborator; this module fixes what each
//! of its possible reports means, so that every engine answer is settled the
//! same way and no failure kind is lost.

use vstd::prelude::*;

verus! {

/// The opaque success value a handler returns; this core ignores its
/// content.
#[derive(Debug, Clone, PartialEq, Eq)]
pub struct InvocationResult {
    pub reply: Vec<u8>,
}

/// What the execution engine reports for one attempted invocation.
#[derive(Debug, Clone, PartialEq, Eq)]
pub enum EngineOutcome {
    /// The handler entry point ran to completion and returned its opaque
    /// success value.
    Completed(Vec<u8>),
    /// The module trapped inside the sandbox.
    Trap(String),
    /// No module with the requested identifier exists.
    MissingComponent(String),
    /// The handler ran and returned an application-level error.
    AppError(String),
}

/// Why one invocation failed; the kinds stay distinguishable so the owning
/// listener can log them, and none of them is fatal to the listener.
#[derive(Debug, Clone, PartialEq, Eq)]
pub enum InvocationError {
    Trap(String),
    MissingComponent(String),
    AppError(String),
}

/// How an engine report settles: completion is success, every other report
/// is the failure of the matching kind.
pub open spec fn settle_spec(outcome: EngineOutcome) -> Result<InvocationResult, InvocationError> {
    match outcome {
        EngineOutcome::Completed(reply) => Ok(InvocationResult { reply }),
        EngineOutcome::Trap(detail) => Err(InvocationError::Trap(detail)),
        EngineOutcome::MissingComponent(id) => Err(InvocationError::MissingComponent(id)),
        EngineOutcome::AppError(detail) => Err(InvocationError::AppError(detail)),
    }
}

/// Settles one engine report into the invocation's result: success exactly
/// when the handler completed, and otherwise the error of the matching
/// kind, with the engine's detail passed through unchanged.
pub fn settle_invocation(outcome: EngineOutcome) -> (r: Result<InvocationResult, InvocationError>)
    ensures
        r == settle_spec(outcome),
        r matches Ok(_) <==> outcome matches EngineOutcome::Completed(_),
{
    match outcome {
        EngineOutcome::Completed(reply) => Ok(InvocationResult { reply }),
        EngineOutcome::Trap(detail) => Err(InvocationError::Trap(detail)),
        EngineOutcome::MissingComponent(id) => Err(InvocationError::MissingComponent(id)),
        EngineOutcome::AppError(detail) => Err(InvocationError::AppError(detail)),
    }
}

} // verus!
