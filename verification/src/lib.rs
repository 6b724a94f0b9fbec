//! Verified core of a terminal-process manager.
//!
//! The library tracks named external tasks ("terminals"), each bound to a
//! working directory and a shell command, and the live state of the processes
//! started for them: a registry keyed by caller-supplied identifier, a bounded
//! rolling log buffer per process, the construction of the augmented shell
//! invocation, and the escalating-signal shutdown plan. Everything that
//! touches the operating system directly (process creation, stream reads,
//! signal delivery, persistence) lives with the embedding program, which
//! drives it through the contracts stated here.

use vstd::prelude::*;

pub mod catalog;
pub mod command_line;
pub mod log_buffer;
pub mod models;
pub mod registry;
pub mod terminator;

verus! {

} // verus!
