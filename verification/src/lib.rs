//! A client-side orchestration pipeline that watches a chain for new blocks,
//! converts selected blocks into a canonical binary input format, and submits
//! that input as a proving job to a remote proving service.
//!
//! The verified core covers the pipeline's decisions and data transformations:
//! the subscription filter, configuration validation, the canonical
//! length-framed input encoding and its decoder, deterministic task
//! identifiers, the application identity, and the orchestrator state machine
//! with its fail-fast policy. The shell around the library performs the
//! network and file work and feeds events back into the state machine.

use vstd::prelude::*;

pub mod codec;
pub mod config;
pub mod errors;
pub mod ident;
pub mod orchestrator;
pub mod subscription;

verus! {

} // verus!
