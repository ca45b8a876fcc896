//! Writing a migration out and replaying it: the file first, then every
//! statement in its order, then the commit.

use vstd::prelude::*;
use crate::artifact::PendingArtifact;
use crate::error::{DbError, IoError, MigrationError};

verus! {

/// What an applied migration amounts to.
#[derive(Clone, Copy, Debug, PartialEq, Eq, Structural)]
pub struct ApplyReport {
    pub identifier: u64,
    pub statements: usize,
    pub elapsed_millis: u64,
}

/// A migration whose file is written and whose first `position` statements
/// are replayed.
#[derive(Debug)]
pub struct Replay {
    artifact: PendingArtifact,
    position: usize,
    started: u64,
}

/// What a replay has come to after a step that went well.
#[derive(Debug)]
pub enum Progress {
    /// There is more to do.
    Replaying(Replay),
    /// Everything is replayed and committed.
    Applied(ApplyReport),
}

/// The time from `started` to `now`, and nothing where the clock went back.
pub open spec fn elapsed(started: u64, now: u64) -> u64 {
    if now >= started {
        (now - started) as u64
    } else {
        0
    }
}

impl PendingArtifact {
    /// Takes note of how writing the migration file went. `file` is what
    /// creating the file called `file_name()` with `content()` came to, and
    /// `started_millis` the time at which the writing began. A file that
    /// could not be created, because one of that name exists or for another
    /// reason, ends the writing; else the replay begins at the first
    /// statement.
    pub fn begin_write(self, file: Result<(), IoError>, started_millis: u64) -> (r: Result<
        Replay,
        MigrationError,
    >)
        ensures
            match file {
                Ok(_) => {
                    &&& r matches Ok(replay)
                    &&& replay.artifact() == self
                    &&& replay.position() == 0
                    &&& replay.started() == started_millis
                },
                Err(e) => r == Err::<Replay, MigrationError>(MigrationError::Io(e)),
            },
    {
        match file {
            Ok(()) => Ok(Replay { artifact: self, position: 0, started: started_millis }),
            Err(e) => Err(MigrationError::Io(e)),
        }
    }
}

impl Replay {
    #[verifier::type_invariant]
    spec fn within(&self) -> bool {
        self.position <= self.artifact.statements().len()
    }

    /// The migration that is replayed.
    pub closed spec fn artifact(&self) -> PendingArtifact {
        self.artifact
    }

    /// The number of statements replayed so far.
    pub closed spec fn position(&self) -> nat {
        self.position as nat
    }

    /// The time at which the writing began.
    pub closed spec fn started(&self) -> u64 {
        self.started
    }

    /// Whether every statement is replayed, so that the commit is next.
    pub open spec fn at_commit(&self) -> bool {
        self.position() >= self.artifact().statements().len()
    }

    /// The statement to run next, or nothing when the commit is next.
    pub fn pending(&self) -> (r: Option<&String>)
        ensures
            self.position() <= self.artifact().statements().len(),
            match r {
                Some(s) => !self.at_commit() && s@ == self.artifact().statements()[self.position() as int],
                None => self.at_commit(),
            },
    {
        proof {
            use_type_invariant(self);
        }
        self.artifact.statement(self.position)
    }

    /// Takes note of how the pending step went: the next statement, or the
    /// commit once every statement is replayed. `now_millis` is the time
    /// after the step.
    ///
    /// A step that the database refused ends the replay as a partial apply
    /// that names the migration, the number of statements replayed before
    /// and the refusal. A statement that went well moves the replay on by
    /// one; a commit that went well yields the report.
    pub fn advance(self, outcome: Result<(), DbError>, now_millis: u64) -> (r: Result<
        Progress,
        MigrationError,
    >)
        ensures
            self.position() <= self.artifact().statements().len(),
            match outcome {
                Err(cause) => r == Err::<Progress, MigrationError>(
                    MigrationError::PartialApply {
                        identifier: self.artifact().identifier(),
                        index: self.position() as usize,
                        cause,
                    },
                ),
                Ok(_) => if self.at_commit() {
                    r == Ok::<Progress, MigrationError>(
                        Progress::Applied(
                            ApplyReport {
                                identifier: self.artifact().identifier(),
                                statements: self.artifact().statements().len() as usize,
                                elapsed_millis: elapsed(self.started(), now_millis),
                            },
                        ),
                    )
                } else {
                    &&& r matches Ok(Progress::Replaying(next))
                    &&& next.artifact() == self.artifact()
                    &&& next.position() == self.position() + 1
                    &&& next.started() == self.started()
                },
            },
    {
        proof {
            use_type_invariant(&self);
        }
        let Replay { artifact, position, started } = self;
        match outcome {
            Err(cause) => Err(
                MigrationError::PartialApply { identifier: artifact.id(), index: position, cause },
            ),
            Ok(()) => {
                if position < artifact.statement_count() {
                    Ok(Progress::Replaying(Replay { artifact, position: position + 1, started }))
                } else {
                    let elapsed_millis = if now_millis >= started {
                        now_millis - started
                    } else {
                        0
                    };
                    Ok(
                        Progress::Applied(
                            ApplyReport {
                                identifier: artifact.id(),
                                statements: artifact.statement_count(),
                                elapsed_millis,
                            },
                        ),
                    )
                }
            },
        }
    }
}

} // verus!
