//! Synchronous bridge core for a columnar vector-database client.
//!
//! The engine behind a C-ABI surface: foreign callers enqueue commands that a
//! dispatcher on a dedicated worker runtime executes against vendor-owned
//! connections and tables.  This crate holds the verified core of that
//! bridge: the handle registries with their monotone, never-reused ids, the
//! engine lifecycle state machine, the result-envelope protocol, request
//! validation and marshalling, batch slicing and stream cancellation, and
//! the Arrow IPC codec boundary.  The asynchronous vendor calls and the raw
//! FFI plumbing live outside, in a thin host layer that drives this core.

pub mod handles;
pub mod envelope;
pub mod text;
pub mod lifecycle;
pub mod enums;
pub mod slicing;
pub mod vector_input;
pub mod connections;
pub mod tables;
pub mod codec;
pub mod requests;
pub mod engine;
pub mod blobs;
pub mod string_lists;
pub mod batches;

use vstd::prelude::*;

verus! {

/// The maximum number of commands that can be queued up for processing
/// before an enqueue blocks the calling thread.
pub const MAX_COMMANDS: usize = 100;

} // verus!
