//! The pipeline's error taxonomy.
//!
//! Every fatal category carries enough to identify the block involved where
//! one is. Registration failures are deliberately absent: they are absorbed
//! into a warning and never abort the run.

use vstd::prelude::*;

verus! {

/// The kind of execution-input acquisition failure for one block.
#[derive(Clone, Copy, PartialEq, Eq, Structural, Debug)]
pub enum FetchErrorKind {
    /// The block never became available from the execution engine's source.
    BlockUnavailable,
    /// The upstream fetch itself failed.
    FetchFailed,
}

/// The outcome of one registration attempt, as the remote service reported
/// it. None of these aborts the run: the application identity is derived
/// locally and does not depend on the call succeeding.
#[derive(Clone, Copy, PartialEq, Eq, Structural, Debug)]
pub enum RegistrationOutcome {
    /// The service accepted the registration.
    Accepted,
    /// The service already knew the application; treated as success.
    AlreadyRegistered,
    /// Any other failure; surfaced as a warning, since its effect is only
    /// discovered later when task submission fails.
    OtherFailure,
}

/// A fatal pipeline error. Any of these ends the run immediately.
#[derive(Clone, Copy, PartialEq, Eq, Structural, Debug)]
pub enum PipelineError {
    /// Invalid configuration, rejected at startup before any work is done.
    Configuration,
    /// The subscription or another chain query failed.
    ChainConnectivity,
    /// Execution-input acquisition failed for the named block.
    Fetch { block: u64, kind: FetchErrorKind },
    /// A remote call failed at the transport level while the named block
    /// was being processed.
    RemoteCall { block: u64 },
}

impl PipelineError {
    /// The block involved in the failure, where the failure concerns one:
    /// acquisition and remote-call errors name their block, the two startup
    /// errors name none.
    pub fn block_number(&self) -> (r: Option<u64>)
        ensures
            match *self {
                PipelineError::Fetch { block, .. } => r == Some(block),
                PipelineError::RemoteCall { block } => r == Some(block),
                _ => r is None,
            },
    {
        match self {
            PipelineError::Fetch { block, .. } => Some(*block),
            PipelineError::RemoteCall { block } => Some(*block),
            _ => None,
        }
    }
}

} // verus!
