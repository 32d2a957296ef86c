//! The table and connection entry-point plans, the append-mode decoding,
//! the default schema and the null-safe closes.

use lancedb_bridge::connection::{plan_connect, plan_connection_table_names};
use lancedb_bridge::plan_close;
use lancedb_bridge::schema::{default_schema, DType};
use lancedb_bridge::table::{
    mode_from_code, plan_table_add, plan_table_count_rows, plan_table_create,
    plan_table_create_index, plan_table_create_with_schema, plan_table_list_indices,
    plan_table_open, plan_table_schema, plan_table_to_arrow, AddMode,
};

#[test]
fn mode_codes_decode() {
    assert_eq!(mode_from_code(0), Ok(AddMode::Append));
    assert_eq!(mode_from_code(1), Ok(AddMode::Overwrite));
    let expected = "invalid mode: must be 0 (Append) or 1 (Overwrite)";
    assert_eq!(mode_from_code(2), Err(expected.to_string()));
    assert_eq!(mode_from_code(-1), Err(expected.to_string()));
}

#[test]
fn plan_connect_checks_uri() {
    assert_eq!(plan_connect(false), Ok(()));
    assert_eq!(plan_connect(true), Err("dataset_uri cannot be null".to_string()));
}

#[test]
fn table_names_limit_of_zero_or_less_means_unlimited() {
    assert_eq!(plan_connection_table_names(false, 0), Ok(None));
    assert_eq!(plan_connection_table_names(false, -3), Ok(None));
    assert_eq!(plan_connection_table_names(false, 10), Ok(Some(10)));
    assert_eq!(
        plan_connection_table_names(true, 10),
        Err("connection handle cannot be null".to_string())
    );
}

#[test]
fn plan_open_and_create_check_nulls() {
    assert_eq!(plan_table_open(false, false), Ok(()));
    let expected = "connection and name cannot be null";
    assert_eq!(plan_table_open(true, false), Err(expected.to_string()));
    assert_eq!(plan_table_open(false, true), Err(expected.to_string()));
    assert_eq!(plan_table_create(false, false), Ok(()));
    assert_eq!(plan_table_create(true, true), Err(expected.to_string()));
}

#[test]
fn plan_create_with_schema_checks_nulls() {
    assert_eq!(plan_table_create_with_schema(false, false, false), Ok(()));
    let expected = "connection, name, and schema cannot be null";
    assert_eq!(plan_table_create_with_schema(true, false, false), Err(expected.to_string()));
    assert_eq!(plan_table_create_with_schema(false, false, true), Err(expected.to_string()));
}

#[test]
fn plan_count_rows_checks_handle() {
    assert_eq!(plan_table_count_rows(false), Ok(()));
    assert_eq!(plan_table_count_rows(true), Err("table handle cannot be null".to_string()));
}

#[test]
fn plan_add_reports_null_arguments() {
    assert_eq!(plan_table_add(false, false, false), Ok(()));
    let expected = "table handle, array, and schema cannot be null";
    let r = plan_table_add(false, true, true);
    assert_eq!(r, Err(expected.to_string()));
    // The stored message names the null arguments.
    assert!(r.unwrap_err().contains("null"));
}

#[test]
fn plan_schema_checks_nulls() {
    assert_eq!(plan_table_schema(false, false), Ok(()));
    let expected = "table handle and schema_out cannot be null";
    assert_eq!(plan_table_schema(true, false), Err(expected.to_string()));
    assert_eq!(plan_table_schema(false, true), Err(expected.to_string()));
}

#[test]
fn plan_to_arrow_decodes_limit() {
    assert_eq!(plan_table_to_arrow(false, false, false, false, -1), Ok(None));
    assert_eq!(plan_table_to_arrow(false, false, false, false, 0), Ok(Some(0)));
    assert_eq!(plan_table_to_arrow(false, false, false, false, 42), Ok(Some(42)));
    let expected = "handle, arrays_out, schemas_out, and count_out cannot be null";
    assert_eq!(plan_table_to_arrow(true, false, false, false, 1), Err(expected.to_string()));
    assert_eq!(plan_table_to_arrow(false, false, false, true, 1), Err(expected.to_string()));
}

#[test]
fn plan_create_index_checks_nulls() {
    assert_eq!(plan_table_create_index(false, false, false), Ok(()));
    let expected = "table handle, column, and index_type cannot be null";
    assert_eq!(plan_table_create_index(true, false, false), Err(expected.to_string()));
    assert_eq!(plan_table_create_index(false, true, false), Err(expected.to_string()));
    assert_eq!(plan_table_create_index(false, false, true), Err(expected.to_string()));
}

#[test]
fn plan_list_indices_checks_nulls() {
    assert_eq!(plan_table_list_indices(false, false), Ok(()));
    let expected = "table handle and indices_json_out cannot be null";
    assert_eq!(plan_table_list_indices(true, false), Err(expected.to_string()));
    assert_eq!(plan_table_list_indices(false, true), Err(expected.to_string()));
}

#[test]
fn close_is_null_safe() {
    // A null handle is a no-op: nothing to reclaim, no error set.
    assert!(!plan_close(true));
    assert!(plan_close(false));
}

#[test]
fn default_schema_is_id_and_text() {
    let schema = default_schema();
    assert_eq!(schema.fields.len(), 2);
    assert_eq!(schema.fields[0].name, "id");
    assert_eq!(schema.fields[0].data_type, DType::Int32);
    assert!(!schema.fields[0].nullable);
    assert_eq!(schema.fields[1].name, "text");
    assert_eq!(schema.fields[1].data_type, DType::Utf8);
    assert!(schema.fields[1].nullable);
}
