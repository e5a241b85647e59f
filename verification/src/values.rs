//! Plain data carried between the workbench core and the storage engine.

use vstd::prelude::*;

verus! {

/// A dynamically typed scalar cell: null, integer, real, text or binary.
///
/// A real is carried as the bit pattern of its IEEE 754 double so that the
/// value passes through the core unchanged; the shell encodes and decodes
/// the bits at the boundary.
#[derive(Clone, Debug, PartialEq, Eq)]
pub enum ScalarValue {
    Null,
    Integer(i64),
    Real(u64),
    Text(String),
    Blob(Vec<u8>),
}

/// One named cell of a row, as a row is handed across the boundary.
#[derive(Clone, Debug, PartialEq, Eq)]
pub struct RowField {
    pub name: String,
    pub value: ScalarValue,
}

/// One column of a table: its declared type and its name, in the table's
/// physical column order.
#[derive(Clone, Debug, PartialEq, Eq)]
pub struct TableInfo {
    pub data_type: String,
    pub name: String,
}

/// The error taxonomy of the workbench core.
#[derive(Clone, Debug, PartialEq, Eq)]
pub enum DbError {
    /// The database file could not be opened: missing file, bad key, or an
    /// unrecognized on-disk format.
    ConnectionError(String),
    /// No table, view or other schema object of the given name exists.
    NotFound(String),
    /// A statement was malformed or failed at the engine level.
    QueryError(String),
    /// A batch edit failed part-way and was rolled back, or its commit was
    /// refused.
    TransactionError(String),
}

impl DbError {
    /// The diagnostic text carried by the error, whichever kind it is.
    pub fn message(&self) -> (m: &String)
        ensures
            m@ == self.message_view(),
    {
        match self {
            DbError::ConnectionError(m) => m,
            DbError::NotFound(m) => m,
            DbError::QueryError(m) => m,
            DbError::TransactionError(m) => m,
        }
    }

    /// The diagnostic text of the error, as a sequence of characters.
    pub open spec fn message_view(&self) -> Seq<char> {
        match self {
            DbError::ConnectionError(m) => m@,
            DbError::NotFound(m) => m@,
            DbError::QueryError(m) => m@,
            DbError::TransactionError(m) => m@,
        }
    }
}

/// The error returned where the running platform offers no place for the
/// workbench's configuration, so no history of opened files can be kept.
#[derive(Clone, Copy, Debug, PartialEq, Eq, Structural)]
pub struct NotSupportedOs;

/// One statement of a batch edit: its SQL text and the values bound to its
/// `?` placeholders, in order.
#[derive(Clone, Debug, PartialEq, Eq)]
pub struct SqlStatement {
    pub sql: String,
    pub args: Vec<ScalarValue>,
}

} // verus!
