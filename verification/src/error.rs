//! The failures that the engine reports.

use vstd::prelude::*;
use crate::guard::ConfigError;
use crate::metadata::CacheError;

verus! {

/// A statement, a rollback or a commit that the database refused.
#[derive(Clone, Debug)]
pub enum DbError {
    /// The engine refused; the text is its message.
    Engine(String),
    /// The session had failed before, and nothing was run.
    Poisoned,
}

/// A migrations directory or file that could not be read or written.
#[derive(Clone, Debug)]
pub struct IoError {
    pub message: String,
}

/// A connection on which no transaction could be started.
#[derive(Clone, Debug)]
pub struct ConnectionError {
    pub message: String,
}

/// Why a recording session could not be opened.
#[derive(Clone, Debug)]
pub enum RecorderError {
    Io(IoError),
    Connection(ConnectionError),
}

/// Why a migration was not applied in full.
#[derive(Clone, Debug)]
pub enum MigrationError {
    /// The migration file could not be written; nothing was replayed.
    Io(IoError),
    /// The migration file `identifier` is written, but the replay stopped:
    /// `index` statements had been replayed when the database refused with
    /// `cause`, and nothing was committed.
    PartialApply { identifier: u64, index: usize, cause: DbError },
}

/// Why an administrative operation did not come to its end.
#[derive(Clone, Debug)]
pub enum AdminError {
    /// What was asked for cannot be done on the schema as it is.
    Precondition(String),
    /// The recording session could not be opened.
    Recorder(RecorderError),
    /// A statement or the rollback failed while recording.
    Database(DbError),
    /// The configuration was not accepted.
    Config(ConfigError),
    /// The migration was not applied in full.
    Migration(MigrationError),
    /// The metadata cache could not be refreshed.
    Cache(CacheError),
    /// A step was asked for that does not follow the step before it.
    OutOfOrder,
}

/// To whom a failure is addressed.
#[derive(Clone, Copy, Debug, PartialEq, Eq, Structural)]
pub enum ErrorClass {
    /// The request can be mended and sent again.
    Precondition,
    /// An operator has to look into it.
    Internal,
}

impl AdminError {
    /// The class of the failure: a precondition that does not hold and a
    /// configuration that is stale or invalid are for the caller to mend;
    /// everything else is internal.
    pub open spec fn class_of(self) -> ErrorClass {
        match self {
            AdminError::Precondition(_) => ErrorClass::Precondition,
            AdminError::Config(_) => ErrorClass::Precondition,
            _ => ErrorClass::Internal,
        }
    }

    /// The class of the failure.
    pub fn class(&self) -> (r: ErrorClass)
        ensures
            r == self.class_of(),
    {
        match self {
            AdminError::Precondition(_) => ErrorClass::Precondition,
            AdminError::Config(_) => ErrorClass::Precondition,
            _ => ErrorClass::Internal,
        }
    }
}

} // verus!
