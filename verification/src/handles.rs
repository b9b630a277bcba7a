//! Strongly typed opaque handles.
//!
//! Every long-lived native resource owned by the engine is named towards the
//! host by a signed 64-bit id.  Each resource class gets its own newtype so
//! that a table id cannot be passed where a connection id is expected.

use vstd::prelude::*;

verus! {

/// Unique identifier for a database connection.
#[derive(Debug, Copy, Clone, Hash, Eq, PartialEq, Structural)]
pub struct ConnectionHandle(pub i64);

/// Unique identifier for an open table, scoped to the connection that
/// opened it.
#[derive(Debug, Copy, Clone, Hash, Eq, PartialEq, Structural)]
pub struct TableHandle(pub i64);

/// Unique identifier for a byte blob held for the host.
#[derive(Debug, Copy, Clone, Hash, Eq, PartialEq, Structural)]
pub struct BlobHandle(pub i64);

/// Unique identifier for a decoded record-batch set held for the host.
#[derive(Debug, Copy, Clone, Hash, Eq, PartialEq, Structural)]
pub struct RecordBatchHandle(pub i64);

} // verus!
