//! A publish/subscribe trigger host: declarative component bindings are
//! resolved into per-binding listeners, each listener bridges inbound broker
//! messages into isolated handler-module invocations, and an outbound publish
//! capability is offered to the module during each invocation.
//!
//! The broker transport, the module execution engine and the command line are
//! external collaborators; this crate holds the dispatch and invocation logic
//! and states its behaviour in contracts.

use vstd::prelude::*;

pub mod config;
pub mod dispatch;
pub mod invoke;
pub mod publish;

verus! {

/// Command-line switches understood by the trigger host binary.
///
/// The binary carries its own copy with the argument-parser derives; this is
/// the plain value the library sees.
pub struct CliArgs {
    pub test: bool,
}

} // verus!
