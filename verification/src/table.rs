//! Decision logic of the table entry points.
//!
//! As with the connection surface, the raw-pointer and engine work stays on
//! the unverified rim; the argument rejection, the messages, and the decoding
//! of the ABI's scalars are verified here.

use vstd::prelude::*;
use vstd::string::StringExecFns;

verus! {

/// How appended rows combine with what a table already holds.
///
/// Across the ABI the mode travels as an integer code: 0 appends to the
/// tail, 1 replaces all rows atomically.
#[derive(Clone, Copy, Debug, PartialEq, Eq, Structural)]
pub enum AddMode {
    Append,
    Overwrite,
}

/// Decodes the ABI's integer append-mode code; every value outside 0..=1 is
/// rejected.
pub fn mode_from_code(mode: i32) -> (r: Result<AddMode, String>)
    ensures
        mode == 0 ==> r == Ok::<AddMode, String>(AddMode::Append),
        mode == 1 ==> r == Ok::<AddMode, String>(AddMode::Overwrite),
        mode != 0 && mode != 1 ==> (r matches Err(m) && m@
            == "invalid mode: must be 0 (Append) or 1 (Overwrite)"@),
{
    match mode {
        0 => Ok(AddMode::Append),
        1 => Ok(AddMode::Overwrite),
        _ => Err(String::from_str("invalid mode: must be 0 (Append) or 1 (Overwrite)")),
    }
}

/// Argument check of the table-open entry point.
pub fn plan_table_open(connection_null: bool, name_null: bool) -> (r: Result<(), String>)
    ensures
        !connection_null && !name_null ==> r == Ok::<(), String>(()),
        connection_null || name_null ==> (r matches Err(m) && m@
            == "connection and name cannot be null"@),
{
    if connection_null || name_null {
        Err(String::from_str("connection and name cannot be null"))
    } else {
        Ok(())
    }
}

/// Argument check of the scaffolding table-create entry point; it shares
/// the open entry point's message.
pub fn plan_table_create(connection_null: bool, name_null: bool) -> (r: Result<(), String>)
    ensures
        !connection_null && !name_null ==> r == Ok::<(), String>(()),
        connection_null || name_null ==> (r matches Err(m) && m@
            == "connection and name cannot be null"@),
{
    plan_table_open(connection_null, name_null)
}

/// Argument check of the create-with-schema entry point.
pub fn plan_table_create_with_schema(
    connection_null: bool,
    name_null: bool,
    schema_null: bool,
) -> (r: Result<(), String>)
    ensures
        !connection_null && !name_null && !schema_null ==> r == Ok::<(), String>(()),
        connection_null || name_null || schema_null ==> (r matches Err(m) && m@
            == "connection, name, and schema cannot be null"@),
{
    if connection_null || name_null || schema_null {
        Err(String::from_str("connection, name, and schema cannot be null"))
    } else {
        Ok(())
    }
}

/// Argument check of the row-count entry point.
pub fn plan_table_count_rows(handle_null: bool) -> (r: Result<(), String>)
    ensures
        !handle_null ==> r == Ok::<(), String>(()),
        handle_null ==> (r matches Err(m) && m@ == "table handle cannot be null"@),
{
    if handle_null {
        Err(String::from_str("table handle cannot be null"))
    } else {
        Ok(())
    }
}

/// Argument check of the append entry point.  The mode code is decoded
/// separately, by [`mode_from_code`], only after the batch import has
/// succeeded — a conversion failure takes precedence over a bad mode.
pub fn plan_table_add(handle_null: bool, array_null: bool, schema_null: bool) -> (r: Result<
    (),
    String,
>)
    ensures
        !handle_null && !array_null && !schema_null ==> r == Ok::<(), String>(()),
        handle_null || array_null || schema_null ==> (r matches Err(m) && m@
            == "table handle, array, and schema cannot be null"@),
{
    if handle_null || array_null || schema_null {
        Err(String::from_str("table handle, array, and schema cannot be null"))
    } else {
        Ok(())
    }
}

/// Argument check of the schema-export entry point.
pub fn plan_table_schema(handle_null: bool, schema_out_null: bool) -> (r: Result<(), String>)
    ensures
        !handle_null && !schema_out_null ==> r == Ok::<(), String>(()),
        handle_null || schema_out_null ==> (r matches Err(m) && m@
            == "table handle and schema_out cannot be null"@),
{
    if handle_null || schema_out_null {
        Err(String::from_str("table handle and schema_out cannot be null"))
    } else {
        Ok(())
    }
}

/// Argument check and limit decoding of the full-read entry point.  A
/// negative limit means unlimited; any other limit caps the row count.
pub fn plan_table_to_arrow(
    handle_null: bool,
    arrays_out_null: bool,
    schemas_out_null: bool,
    count_out_null: bool,
    limit: i64,
) -> (r: Result<Option<i64>, String>)
    ensures
        handle_null || arrays_out_null || schemas_out_null || count_out_null ==> (r matches Err(m)
            && m@ == "handle, arrays_out, schemas_out, and count_out cannot be null"@),
        !(handle_null || arrays_out_null || schemas_out_null || count_out_null) && limit < 0 ==> r
            == Ok::<Option<i64>, String>(None),
        !(handle_null || arrays_out_null || schemas_out_null || count_out_null) && limit >= 0 ==> r
            == Ok::<Option<i64>, String>(Some(limit)),
{
    if handle_null || arrays_out_null || schemas_out_null || count_out_null {
        Err(String::from_str("handle, arrays_out, schemas_out, and count_out cannot be null"))
    } else if limit < 0 {
        Ok(None)
    } else {
        Ok(Some(limit))
    }
}

/// Argument check of the index-creation entry point; the metric and the
/// partition counts are decoded afterwards, once the strings have crossed
/// over.
pub fn plan_table_create_index(
    handle_null: bool,
    column_null: bool,
    index_type_null: bool,
) -> (r: Result<(), String>)
    ensures
        !handle_null && !column_null && !index_type_null ==> r == Ok::<(), String>(()),
        handle_null || column_null || index_type_null ==> (r matches Err(m) && m@
            == "table handle, column, and index_type cannot be null"@),
{
    if handle_null || column_null || index_type_null {
        Err(String::from_str("table handle, column, and index_type cannot be null"))
    } else {
        Ok(())
    }
}

/// Argument check of the index-listing entry point.
pub fn plan_table_list_indices(handle_null: bool, json_out_null: bool) -> (r: Result<(), String>)
    ensures
        !handle_null && !json_out_null ==> r == Ok::<(), String>(()),
        handle_null || json_out_null ==> (r matches Err(m) && m@
            == "table handle and indices_json_out cannot be null"@),
{
    if handle_null || json_out_null {
        Err(String::from_str("table handle and indices_json_out cannot be null"))
    } else {
        Ok(())
    }
}

} // verus!
