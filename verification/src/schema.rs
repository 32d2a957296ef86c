//! A plain model of the tabular schema the bridge itself constructs.
//!
//! Schemas that merely pass through the bridge stay opaque interchange
//! structures on the unverified rim.  The one schema the bridge builds for
//! itself — the built-in default used by the scaffolding create-table entry
//! point — is modeled here as plain values, and the rim converts it into the
//! engine's schema type.

use vstd::prelude::*;
use vstd::string::StringExecFns;

verus! {

/// The column types the bridge itself needs to name.
#[derive(Clone, Copy, Debug, PartialEq, Eq, Structural)]
pub enum DType {
    Int32,
    Utf8,
}

/// One column: a name, a type, and whether nulls are allowed.
#[derive(Debug, Clone, PartialEq, Eq)]
pub struct FieldSpec {
    pub name: String,
    pub data_type: DType,
    pub nullable: bool,
}

/// An ordered list of columns.
#[derive(Debug, Clone, PartialEq, Eq)]
pub struct SchemaSpec {
    pub fields: Vec<FieldSpec>,
}

/// The built-in default schema of the scaffolding create-table entry point:
/// a non-nullable 32-bit integer `id` and a nullable string `text`.
pub fn default_schema() -> (r: SchemaSpec)
    ensures
        r.fields@.len() == 2,
        r.fields@[0].name@ == "id"@,
        r.fields@[0].data_type == DType::Int32,
        !r.fields@[0].nullable,
        r.fields@[1].name@ == "text"@,
        r.fields@[1].data_type == DType::Utf8,
        r.fields@[1].nullable,
{
    let mut fields: Vec<FieldSpec> = Vec::new();
    fields.push(
        FieldSpec { name: String::from_str("id"), data_type: DType::Int32, nullable: false },
    );
    fields.push(
        FieldSpec { name: String::from_str("text"), data_type: DType::Utf8, nullable: true },
    );
    SchemaSpec { fields }
}

} // verus!
