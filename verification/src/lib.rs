//! Verified core of a C-ABI bridge over an embedded columnar vector-database
//! engine.
//!
//! The bridge sits between an async, typed engine API and a foreign caller
//! that speaks a flat ABI of opaque handles, integer return codes and a
//! thread-local last-error slot.  Everything the bridge *decides* — argument
//! validation, enum decoding, the query-builder state machine, error
//! classification and rendering, the index-listing serialization — lives here
//! and is verified.  The unverifiable rim (raw pointers, the async executor,
//! the engine and interchange-format calls themselves) consumes this crate
//! from the outside and hands it plain values.

use vstd::prelude::*;

pub mod connection;
pub mod error;
pub mod index;
pub mod interchange;
pub mod last_error;
pub mod query;
pub mod schema;
pub mod table;

verus! {

/// Close entry points are infallible and null-safe: a null handle is a
/// no-op, any other handle is reclaimed.  The result says whether the rim
/// should reclaim the allocation behind the handle; no error is ever set.
pub fn plan_close(handle_null: bool) -> (reclaim: bool)
    ensures
        reclaim == !handle_null,
{
    !handle_null
}

/// Whenever an entry point returns the failure sentinel it first stores a
/// message, and that message is never empty.  Errors classified through the
/// taxonomy are covered by [`error::lemma_message_nonempty`]; every message
/// an entry-point rejection can store directly is one of the literals below.
pub proof fn lemma_rejection_messages_nonempty()
    ensures
        "dataset_uri cannot be null"@.len() > 0,
        "connection handle cannot be null"@.len() > 0,
        "connection and name cannot be null"@.len() > 0,
        "connection, name, and schema cannot be null"@.len() > 0,
        "table handle cannot be null"@.len() > 0,
        "table handle, array, and schema cannot be null"@.len() > 0,
        "invalid mode: must be 0 (Append) or 1 (Overwrite)"@.len() > 0,
        "table handle and schema_out cannot be null"@.len() > 0,
        "handle, arrays_out, schemas_out, and count_out cannot be null"@.len() > 0,
        "table handle, column, and index_type cannot be null"@.len() > 0,
        "Invalid distance metric. Use 0=L2, 1=Cosine, 2=Dot"@.len() > 0,
        "table handle and indices_json_out cannot be null"@.len() > 0,
        "handle, vector cannot be null and vector_len must be positive"@.len() > 0,
        "handle cannot be null"@.len() > 0,
        "invalid distance type: must be 0 (L2), 1 (Cosine), or 2 (Dot)"@.len() > 0,
        "handle cannot be null and limit must be non-negative"@.len() > 0,
        "handle cannot be null and offset must be non-negative"@.len() > 0,
        "handle and filter cannot be null"@.len() > 0,
        "handle, columns cannot be null and columns_len must be positive"@.len() > 0,
        "handle, array_out, and schema_out cannot be null"@.len() > 0,
{
    reveal_strlit("dataset_uri cannot be null");
    reveal_strlit("connection handle cannot be null");
    reveal_strlit("connection and name cannot be null");
    reveal_strlit("connection, name, and schema cannot be null");
    reveal_strlit("table handle cannot be null");
    reveal_strlit("table handle, array, and schema cannot be null");
    reveal_strlit("invalid mode: must be 0 (Append) or 1 (Overwrite)");
    reveal_strlit("table handle and schema_out cannot be null");
    reveal_strlit("handle, arrays_out, schemas_out, and count_out cannot be null");
    reveal_strlit("table handle, column, and index_type cannot be null");
    reveal_strlit("Invalid distance metric. Use 0=L2, 1=Cosine, 2=Dot");
    reveal_strlit("table handle and indices_json_out cannot be null");
    reveal_strlit("handle, vector cannot be null and vector_len must be positive");
    reveal_strlit("handle cannot be null");
    reveal_strlit("invalid distance type: must be 0 (L2), 1 (Cosine), or 2 (Dot)");
    reveal_strlit("handle cannot be null and limit must be non-negative");
    reveal_strlit("handle cannot be null and offset must be non-negative");
    reveal_strlit("handle and filter cannot be null");
    reveal_strlit("handle, columns cannot be null and columns_len must be positive");
    reveal_strlit("handle, array_out, and schema_out cannot be null");
}

} // verus!
