//! Decision logic of the connection entry points.
//!
//! The entry points themselves live on the unverified rim: they touch raw
//! pointers and drive the engine.  What they decide — which arguments are
//! rejected, with which message, and how the ABI's scalar arguments decode —
//! is here.  Pointer validity crosses over as plain nullness flags.

use vstd::prelude::*;
use vstd::string::StringExecFns;

verus! {

/// Argument check of the connect entry point: the URI pointer must be
/// present; its UTF-8 validity is checked on the rim.
pub fn plan_connect(uri_null: bool) -> (r: Result<(), String>)
    ensures
        !uri_null ==> r == Ok::<(), String>(()),
        uri_null ==> (r matches Err(m) && m@ == "dataset_uri cannot be null"@),
{
    if uri_null {
        Err(String::from_str("dataset_uri cannot be null"))
    } else {
        Ok(())
    }
}

/// Argument check and limit decoding of the table-listing entry point.  A
/// limit of zero or less means unlimited; a positive limit is passed to the
/// engine as it is.
pub fn plan_connection_table_names(handle_null: bool, limit: i32) -> (r: Result<
    Option<u32>,
    String,
>)
    ensures
        handle_null ==> (r matches Err(m) && m@ == "connection handle cannot be null"@),
        !handle_null && limit <= 0 ==> r == Ok::<Option<u32>, String>(None),
        !handle_null && limit > 0 ==> r == Ok::<Option<u32>, String>(Some(limit as u32)),
{
    if handle_null {
        Err(String::from_str("connection handle cannot be null"))
    } else if limit <= 0 {
        Ok(None)
    } else {
        Ok(Some(limit as u32))
    }
}

} // verus!
