//! The closed set of failures that a storage operation can report.

use vstd::prelude::*;

verus! {

/// Why a storage operation, or the start-up of a storage backend, failed.
#[derive(Debug, Clone, Copy, PartialEq, Eq, Structural)]
pub enum Error {
    /// A required configuration setting is missing.
    EnvVarConfigError,
    /// The storage backend failed in a way the caller cannot repair.
    DatabaseInternalFatal,
    /// The storage backend could not be reached or prepared at start-up.
    DatabaseConnectError,
    /// A patch named an identifier that no stored record carries.
    PatchTodoNotFound { id: u128 },
    /// A delete named an identifier that no stored record carries.
    DeleteTodoNotFound { id: u128 },
}

impl Error {
    /// The HTTP status under which this failure is reported: 404 where the
    /// named item does not exist, 500 for every other failure.
    pub fn status_code(&self) -> (code: u16)
        ensures
            code == if *self is PatchTodoNotFound || *self is DeleteTodoNotFound {
                404u16
            } else {
                500u16
            },
    {
        match self {
            Error::PatchTodoNotFound { .. } => 404,
            Error::DeleteTodoNotFound { .. } => 404,
            Error::EnvVarConfigError => 500,
            Error::DatabaseInternalFatal => 500,
            Error::DatabaseConnectError => 500,
        }
    }
}

} // verus!
