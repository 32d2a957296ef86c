//! Decision logic of the columnar interchange adapter.
//!
//! Batches and schemas cross the ABI as producer-filled structure pairs with
//! release callbacks; importing, exporting, zeroing the source slot and
//! firing the callbacks is raw-pointer work that stays on the unverified
//! rim.  What is decided before any of it happens — which slot pointers are
//! rejected, and as what error — is verified here.

use vstd::prelude::*;
use vstd::string::StringExecFns;

use crate::error::Error;

verus! {

/// Null guard of the batch import: both the array and the schema slot must
/// be present.
pub fn plan_import_batch(array_null: bool, schema_null: bool) -> (r: Result<(), Error>)
    ensures
        !array_null && !schema_null ==> r == Ok::<(), Error>(()),
        array_null || schema_null ==> (r matches Err(e) && e matches Error::InvalidArgument {
            message,
        } && message@ == "array and schema pointers cannot be null"@),
{
    if array_null || schema_null {
        Err(
            Error::InvalidArgument {
                message: String::from_str("array and schema pointers cannot be null"),
            },
        )
    } else {
        Ok(())
    }
}

/// Null guard of the batch export: both caller-provided slots must be
/// present.
pub fn plan_export_batch(array_out_null: bool, schema_out_null: bool) -> (r: Result<(), Error>)
    ensures
        !array_out_null && !schema_out_null ==> r == Ok::<(), Error>(()),
        array_out_null || schema_out_null ==> (r matches Err(e) && e
            matches Error::InvalidArgument { message } && message@
            == "array_out and schema_out pointers cannot be null"@),
{
    if array_out_null || schema_out_null {
        Err(
            Error::InvalidArgument {
                message: String::from_str("array_out and schema_out pointers cannot be null"),
            },
        )
    } else {
        Ok(())
    }
}

/// Null guard of the schema export.
pub fn plan_export_schema(schema_out_null: bool) -> (r: Result<(), Error>)
    ensures
        !schema_out_null ==> r == Ok::<(), Error>(()),
        schema_out_null ==> (r matches Err(e) && e matches Error::InvalidArgument { message }
            && message@ == "schema_out pointer cannot be null"@),
{
    if schema_out_null {
        Err(
            Error::InvalidArgument {
                message: String::from_str("schema_out pointer cannot be null"),
            },
        )
    } else {
        Ok(())
    }
}

/// Null guard of the schema import.
pub fn plan_import_schema(schema_null: bool) -> (r: Result<(), Error>)
    ensures
        !schema_null ==> r == Ok::<(), Error>(()),
        schema_null ==> (r matches Err(e) && e matches Error::InvalidArgument { message }
            && message@ == "schema pointer cannot be null"@),
{
    if schema_null {
        Err(Error::InvalidArgument { message: String::from_str("schema pointer cannot be null") })
    } else {
        Ok(())
    }
}

} // verus!
