//! A recording session: the statements of one administrative operation, run
//! inside a transaction that is rolled back at the end, and kept for the
//! migration.

use vstd::prelude::*;
use crate::artifact::{PendingArtifact, allocate_identifier, fresh_identifier, texts};
use crate::error::{ConnectionError, DbError, IoError, RecorderError};

verus! {

/// An open recording session.
#[derive(Debug)]
pub struct Recorder {
    operation: String,
    statements: Vec<String>,
    poisoned: bool,
}

impl Recorder {
    /// The name of the operation that is recorded.
    pub closed spec fn operation(&self) -> Seq<char> {
        self.operation@
    }

    /// The statements recorded so far, in the order they were run.
    pub closed spec fn recorded(&self) -> Seq<Seq<char>> {
        texts(self.statements@)
    }

    /// Whether a statement has failed in this session.
    pub closed spec fn poisoned(&self) -> bool {
        self.poisoned
    }

    /// Opens a session for the operation called `operation_name`.
    /// `directory` is what probing the migrations directory came to, and
    /// `transaction` what starting a transaction on the connection came to.
    /// A directory that cannot be used is reported before a transaction that
    /// could not be started.
    pub fn open(
        directory: Result<(), IoError>,
        transaction: Result<(), ConnectionError>,
        operation_name: String,
    ) -> (r: Result<Recorder, RecorderError>)
        ensures
            match (directory, transaction) {
                (Err(e), _) => r == Err::<Recorder, RecorderError>(RecorderError::Io(e)),
                (Ok(_), Err(e)) => r == Err::<Recorder, RecorderError>(
                    RecorderError::Connection(e),
                ),
                (Ok(_), Ok(_)) => {
                    &&& r matches Ok(recorder)
                    &&& recorder.operation() == operation_name@
                    &&& recorder.recorded() == Seq::<Seq<char>>::empty()
                    &&& !recorder.poisoned()
                },
            },
    {
        match directory {
            Err(e) => Err(RecorderError::Io(e)),
            Ok(()) => match transaction {
                Err(e) => Err(RecorderError::Connection(e)),
                Ok(()) => {
                    let recorder = Recorder {
                        operation: operation_name,
                        statements: Vec::new(),
                        poisoned: false,
                    };
                    assert(recorder.recorded() =~= Seq::<Seq<char>>::empty());
                    Ok(recorder)
                },
            },
        }
    }

    /// Whether a statement has failed in this session, so that no further
    /// statement is to be run.
    pub fn is_poisoned(&self) -> (r: bool)
        ensures
            r == self.poisoned(),
    {
        self.poisoned
    }

    /// The number of statements recorded so far.
    pub fn recorded_count(&self) -> (r: usize)
        ensures
            r == self.recorded().len(),
    {
        self.statements.len()
    }

    /// Takes note of the statement `sql`, where `outcome` is what running it
    /// on the connection came to.
    ///
    /// A statement that went well is appended to the record. One that failed
    /// leaves the record as it was and poisons the session. A poisoned
    /// session refuses every statement, whatever `outcome` says, and stays as
    /// it is.
    pub fn execute(&mut self, sql: &str, outcome: Result<(), DbError>) -> (r: Result<(), DbError>)
        ensures
            final(self).operation() == old(self).operation(),
            if old(self).poisoned() {
                &&& r matches Err(DbError::Poisoned)
                &&& final(self).recorded() == old(self).recorded()
                &&& final(self).poisoned()
            } else {
                match outcome {
                    Ok(_) => {
                        &&& r is Ok
                        &&& final(self).recorded() == old(self).recorded().push(sql@)
                        &&& !final(self).poisoned()
                    },
                    Err(e) => {
                        &&& r == Err::<(), DbError>(e)
                        &&& final(self).recorded() == old(self).recorded()
                        &&& final(self).poisoned()
                    },
                }
            },
    {
        if self.poisoned {
            return Err(DbError::Poisoned);
        }
        match outcome {
            Ok(()) => {
                self.statements.push(sql.to_owned());
                assert(self.recorded() =~= old(self).recorded().push(sql@));
                Ok(())
            },
            Err(e) => {
                self.poisoned = true;
                Err(e)
            },
        }
    }

    /// Ends the session. `rollback` is what rolling the transaction back
    /// came to, `existing` the identifiers of the migrations in the
    /// migrations directory, and `now` the time.
    ///
    /// A rollback that failed is handed on. After a rollback that went
    /// well, a poisoned session yields its failure, a session that recorded
    /// nothing yields no artifact, and any other session yields the artifact
    /// of its statements under the name of its operation and a fresh
    /// identifier.
    pub fn finalize_as_rollback(
        self,
        rollback: Result<(), DbError>,
        existing: &Vec<u64>,
        now: u64,
    ) -> (r: Result<Option<PendingArtifact>, DbError>)
        ensures
            match rollback {
                Err(e) => r == Err::<Option<PendingArtifact>, DbError>(e),
                Ok(_) => if self.poisoned() {
                    r matches Err(DbError::Poisoned)
                } else if self.recorded().len() == 0 {
                    r matches Ok(None)
                } else {
                    &&& r matches Ok(Some(artifact))
                    &&& artifact.identifier() == fresh_identifier(existing@, now)
                    &&& artifact.slug() == self.operation()
                    &&& artifact.statements() == self.recorded()
                },
            },
    {
        match rollback {
            Err(e) => Err(e),
            Ok(()) => {
                if self.poisoned {
                    Err(DbError::Poisoned)
                } else if self.statements.len() == 0 {
                    Ok(None)
                } else {
                    let identifier = allocate_identifier(existing, now);
                    Ok(Some(PendingArtifact::new(identifier, self.operation, self.statements)))
                }
            },
        }
    }
}

} // verus!
