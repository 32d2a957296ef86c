//! The last-error slot and the interchange null guards.

use lancedb_bridge::error::Error;
use lancedb_bridge::interchange::{
    plan_export_batch, plan_export_schema, plan_import_batch, plan_import_schema,
};
use lancedb_bridge::last_error::ErrorSlot;

#[test]
fn fresh_slot_is_empty() {
    let slot = ErrorSlot::new();
    assert_eq!(slot.get(), None);
}

#[test]
fn set_stores_and_get_reads_back() {
    let mut slot = ErrorSlot::new();
    slot.set(Some("boom".to_string()));
    assert_eq!(slot.get(), Some(&"boom".to_string()));
}

#[test]
fn set_replaces_the_previous_message() {
    let mut slot = ErrorSlot::new();
    slot.set(Some("first".to_string()));
    slot.set(Some("second".to_string()));
    assert_eq!(slot.get(), Some(&"second".to_string()));
}

#[test]
fn set_with_nothing_empties_the_slot() {
    let mut slot = ErrorSlot::new();
    slot.set(Some("stale".to_string()));
    slot.set(None);
    assert_eq!(slot.get(), None);
}

fn invalid_argument_message(r: Result<(), Error>) -> String {
    match r {
        Err(Error::InvalidArgument { message }) => message,
        _ => panic!("expected an invalid-argument error"),
    }
}

#[test]
fn import_batch_guards_both_slots() {
    assert!(plan_import_batch(false, false).is_ok());
    let expected = "array and schema pointers cannot be null";
    assert_eq!(invalid_argument_message(plan_import_batch(true, false)), expected);
    assert_eq!(invalid_argument_message(plan_import_batch(false, true)), expected);
}

#[test]
fn export_batch_guards_both_slots() {
    assert!(plan_export_batch(false, false).is_ok());
    let expected = "array_out and schema_out pointers cannot be null";
    assert_eq!(invalid_argument_message(plan_export_batch(true, false)), expected);
    assert_eq!(invalid_argument_message(plan_export_batch(false, true)), expected);
}

#[test]
fn schema_export_and_import_guard_their_slot() {
    assert!(plan_export_schema(false).is_ok());
    assert_eq!(
        invalid_argument_message(plan_export_schema(true)),
        "schema_out pointer cannot be null"
    );
    assert!(plan_import_schema(false).is_ok());
    assert_eq!(
        invalid_argument_message(plan_import_schema(true)),
        "schema pointer cannot be null"
    );
}
