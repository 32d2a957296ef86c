//! The error substrate: a closed taxonomy of bridge-visible error kinds,
//! each rendered to a human-readable message, and the classification of
//! engine-reported failures into that taxonomy.
//!
//! The engine reports failures on two layers — the storage layer underneath
//! and the engine proper on top — as rich error values of its own.  The
//! unverified rim flattens those values, one arm per variant, into the plain
//! [`LanceError`] and [`EngineError`] models below; the classification into
//! the bridge taxonomy is then ordinary verified code.

use vstd::prelude::*;
use vstd::string::StringExecFns;

verus! {

/// A bridge-visible error.  Every variant renders to a non-empty message via
/// [`Error::message`]; the rim writes that message to the thread-local
/// last-error slot before returning the failure sentinel.
#[derive(Debug, Clone, PartialEq, Eq)]
pub enum Error {
    /// Null pointer where not allowed, out-of-range enum value, bad UTF-8,
    /// negative where non-negative required, or an illegal state transition.
    InvalidArgument { message: String },
    /// Storage-layer I/O failure.
    IO { message: String },
    /// Columnar interchange-format conversion failure.
    Arrow { message: String },
    /// Index-build or index-metadata failure.
    Index { message: String },
    /// Serialization failure.
    JSON { message: String },
    /// Dataset absent at the given path.
    DatasetNotFound { path: String },
    /// Dataset conflict on create.
    DatasetAlreadyExists { uri: String },
    /// Table conflict on create.
    TableAlreadyExists { name: String },
    /// Table absent; `source` carries the engine's own description.
    TableNotFound { name: String, source: String },
    /// Table name does not satisfy the engine's rules.
    InvalidTableName { name: String, reason: String },
    /// Named embedding function not registered.
    EmbeddingFunctionNotFound { name: String, reason: String },
    /// Unclassified storage-layer failure.
    OtherLance { message: String },
    /// Unclassified engine failure.
    OtherLanceDB { message: String },
    /// Null pointer handed across the ABI.
    NullPointer,
    /// A string argument was not valid UTF-8.
    Utf8Error { message: String },
}

impl Error {
    /// What [`Error::message`] returns, as a sequence of characters.
    pub open spec fn spec_message(&self) -> Seq<char> {
        match self {
            Error::InvalidArgument { message } => "Invalid argument: "@ + message@,
            Error::IO { message } => "IO error: "@ + message@,
            Error::Arrow { message } => "Arrow error: "@ + message@,
            Error::Index { message } => "Index error: "@ + message@,
            Error::JSON { message } => "JSON error: "@ + message@,
            Error::DatasetNotFound { path } => "Dataset at path "@ + path@ + " was not found"@,
            Error::DatasetAlreadyExists { uri } => "Dataset already exists: "@ + uri@,
            Error::TableAlreadyExists { name } => "Table '"@ + name@ + "' already exists"@,
            Error::TableNotFound { name, source } => "Table '"@ + name@ + "' was not found: "@
                + source@,
            Error::InvalidTableName { name, reason } => "Invalid table name '"@ + name@ + "': "@
                + reason@,
            Error::EmbeddingFunctionNotFound { name, reason } => "Embedding function '"@ + name@
                + "' was not found: "@ + reason@,
            Error::OtherLance { message } => "Other Lance error: "@ + message@,
            Error::OtherLanceDB { message } => "Other LanceDB error: "@ + message@,
            Error::NullPointer => "Null pointer error"@,
            Error::Utf8Error { message } => "UTF-8 conversion error: "@ + message@,
        }
    }

    /// Renders the error kind and its context to a human-readable message.
    pub fn message(&self) -> (r: String)
        ensures
            r@ == self.spec_message(),
    {
        match self {
            Error::InvalidArgument { message } => String::from_str("Invalid argument: ").concat(
                message.as_str(),
            ),
            Error::IO { message } => String::from_str("IO error: ").concat(message.as_str()),
            Error::Arrow { message } => String::from_str("Arrow error: ").concat(message.as_str()),
            Error::Index { message } => String::from_str("Index error: ").concat(message.as_str()),
            Error::JSON { message } => String::from_str("JSON error: ").concat(message.as_str()),
            Error::DatasetNotFound { path } => String::from_str("Dataset at path ").concat(
                path.as_str(),
            ).concat(" was not found"),
            Error::DatasetAlreadyExists { uri } => String::from_str("Dataset already exists: ")
                .concat(uri.as_str()),
            Error::TableAlreadyExists { name } => String::from_str("Table '").concat(name.as_str())
                .concat("' already exists"),
            Error::TableNotFound { name, source } => String::from_str("Table '").concat(
                name.as_str(),
            ).concat("' was not found: ").concat(source.as_str()),
            Error::InvalidTableName { name, reason } => String::from_str("Invalid table name '")
                .concat(name.as_str()).concat("': ").concat(reason.as_str()),
            Error::EmbeddingFunctionNotFound { name, reason } => String::from_str(
                "Embedding function '",
            ).concat(name.as_str()).concat("' was not found: ").concat(reason.as_str()),
            Error::OtherLance { message } => String::from_str("Other Lance error: ").concat(
                message.as_str(),
            ),
            Error::OtherLanceDB { message } => String::from_str("Other LanceDB error: ").concat(
                message.as_str(),
            ),
            Error::NullPointer => String::from_str("Null pointer error"),
            Error::Utf8Error { message } => String::from_str("UTF-8 conversion error: ").concat(
                message.as_str(),
            ),
        }
    }
}

/// Every failing entry point stores a message before returning the failure
/// sentinel, so a reader of the last-error slot must never find an empty
/// string there: no bridge error renders to one.
pub proof fn lemma_message_nonempty(e: &Error)
    ensures
        e.spec_message().len() > 0,
{
    reveal_strlit("Invalid argument: ");
    reveal_strlit("IO error: ");
    reveal_strlit("Arrow error: ");
    reveal_strlit("Index error: ");
    reveal_strlit("JSON error: ");
    reveal_strlit("Dataset at path ");
    reveal_strlit("Dataset already exists: ");
    reveal_strlit("Table '");
    reveal_strlit("Invalid table name '");
    reveal_strlit("Embedding function '");
    reveal_strlit("Other Lance error: ");
    reveal_strlit("Other LanceDB error: ");
    reveal_strlit("Null pointer error");
    reveal_strlit("UTF-8 conversion error: ");
}

/// A storage-layer failure, as the rim hands it over: one variant per arm the
/// bridge distinguishes, plus a catch-all carrying the storage layer's own
/// rendering of everything else.
#[derive(Debug, Clone, PartialEq, Eq)]
pub enum LanceError {
    DatasetNotFound { path: String },
    DatasetAlreadyExists { uri: String },
    IO { message: String },
    Arrow { message: String },
    Index { message: String },
    InvalidInput { message: String },
    Other { message: String },
}

/// An engine failure, as the rim hands it over.  A storage-layer failure
/// surfaced through the engine arrives wrapped in [`EngineError::Lance`].
#[derive(Debug, Clone, PartialEq, Eq)]
pub enum EngineError {
    InvalidTableName { name: String, reason: String },
    InvalidInput { message: String },
    TableNotFound { name: String },
    TableAlreadyExists { name: String },
    EmbeddingFunctionNotFound { name: String, reason: String },
    Arrow { message: String },
    Lance { source: LanceError },
    Other { message: String },
}

/// How a storage-layer failure classifies into the bridge taxonomy: every
/// distinguished variant maps to its counterpart, the rest collapse into the
/// storage-layer catch-all.
pub open spec fn classifies_lance(e: LanceError, r: Error) -> bool {
    match e {
        LanceError::DatasetNotFound { path } => r == (Error::DatasetNotFound { path }),
        LanceError::DatasetAlreadyExists { uri } => r == (Error::DatasetAlreadyExists { uri }),
        LanceError::IO { message } => r == (Error::IO { message }),
        LanceError::Arrow { message } => r == (Error::Arrow { message }),
        LanceError::Index { message } => r == (Error::Index { message }),
        LanceError::InvalidInput { message } => r == (Error::InvalidArgument { message }),
        LanceError::Other { message } => r == (Error::OtherLance { message }),
    }
}

/// How an engine failure classifies into the bridge taxonomy.  A wrapped
/// storage-layer failure classifies by [`classifies_lance`]; a missing table
/// carries the engine's own description, pinned here by its text.
pub open spec fn classifies_engine(e: EngineError, r: Error) -> bool {
    match e {
        EngineError::InvalidTableName { name, reason } => r == (Error::InvalidTableName {
            name,
            reason,
        }),
        EngineError::InvalidInput { message } => r == (Error::InvalidArgument { message }),
        EngineError::TableNotFound { name } => r matches Error::TableNotFound {
            name: rname,
            source,
        } && rname == name && source@ == spec_table_not_found_source(name@),
        EngineError::TableAlreadyExists { name } => r == (Error::TableAlreadyExists { name }),
        EngineError::EmbeddingFunctionNotFound { name, reason } => r == (
        Error::EmbeddingFunctionNotFound { name, reason }),
        EngineError::Arrow { message } => r == (Error::Arrow { message }),
        EngineError::Lance { source } => classifies_lance(source, r),
        EngineError::Other { message } => r == (Error::OtherLanceDB { message }),
    }
}

pub open spec fn spec_table_not_found_source(name: Seq<char>) -> Seq<char> {
    "Table '"@ + name + "' not found"@
}

impl Error {
    /// Classifies a storage-layer failure into the bridge taxonomy.
    pub fn from_lance(e: LanceError) -> (r: Error)
        ensures
            classifies_lance(e, r),
    {
        match e {
            LanceError::DatasetNotFound { path } => Error::DatasetNotFound { path },
            LanceError::DatasetAlreadyExists { uri } => Error::DatasetAlreadyExists { uri },
            LanceError::IO { message } => Error::IO { message },
            LanceError::Arrow { message } => Error::Arrow { message },
            LanceError::Index { message } => Error::Index { message },
            LanceError::InvalidInput { message } => Error::InvalidArgument { message },
            LanceError::Other { message } => Error::OtherLance { message },
        }
    }

    /// Classifies an engine failure into the bridge taxonomy, descending
    /// into a wrapped storage-layer failure where one is carried.
    pub fn from_engine(e: EngineError) -> (r: Error)
        ensures
            classifies_engine(e, r),
    {
        match e {
            EngineError::InvalidTableName { name, reason } => Error::InvalidTableName {
                name,
                reason,
            },
            EngineError::InvalidInput { message } => Error::InvalidArgument { message },
            EngineError::TableNotFound { name } => {
                let source = String::from_str("Table '").concat(name.as_str()).concat(
                    "' not found",
                );
                Error::TableNotFound { name, source }
            },
            EngineError::TableAlreadyExists { name } => Error::TableAlreadyExists { name },
            EngineError::EmbeddingFunctionNotFound { name, reason } => {
                Error::EmbeddingFunctionNotFound { name, reason }
            },
            EngineError::Arrow { message } => Error::Arrow { message },
            EngineError::Lance { source } => Error::from_lance(source),
            EngineError::Other { message } => Error::OtherLanceDB { message },
        }
    }
}

} // verus!
