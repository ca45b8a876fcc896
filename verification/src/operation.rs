//! One schema-changing administrative operation, step by step: record,
//! roll back, update the configuration, write and replay the migration,
//! refresh the metadata cache.
//!
//! Every step takes what the outside work before it came to and yields the
//! state that follows. A step that fails aborts the operation; a step that
//! does not follow the step before it aborts it too; an operation that has
//! ended stays as it is.

use vstd::prelude::*;
use crate::artifact::{PendingArtifact, fresh_identifier};
use crate::config::Configuration;
use crate::error::{AdminError, ConnectionError, DbError, IoError, MigrationError, RecorderError};
use crate::guard::ConfigVersionGuard;
use crate::metadata::{CacheError, SchemaSnapshot, TableMetadataCache, without_name};
use crate::recorder::Recorder;
use crate::replay::{ApplyReport, Progress, Replay, elapsed};

verus! {

/// The state of an administrative operation.
#[derive(Debug)]
pub enum Operation {
    /// Nothing has happened yet.
    Idle,
    /// Statements are run and recorded inside a transaction.
    Recording(Recorder),
    /// The transaction is rolled back; the artifact waits.
    RolledBack(PendingArtifact),
    /// The configuration is updated; the artifact is to be written.
    ConfigUpdated(PendingArtifact),
    /// The migration file is written; the statements are replayed.
    Applying(Replay),
    /// The migration is committed; the cache is to be refreshed.
    Applied(ApplyReport),
    /// The operation has come to its end.
    Done,
    /// The operation was given up.
    Aborted(AdminError),
}

impl Operation {
    /// Whether the operation has ended, one way or the other.
    pub open spec fn is_terminal(self) -> bool {
        self is Done || self is Aborted
    }

    /// What a step does to a state that it does not follow: an operation
    /// that has ended stays as it is, any other is aborted.
    pub open spec fn misplaced(before: Self, after: Self) -> bool {
        if before.is_terminal() {
            after == before
        } else {
            after == Operation::Aborted(AdminError::OutOfOrder)
        }
    }

    /// How `begin` leads from `before` to `after`.
    pub open spec fn begins(
        before: Self,
        directory: Result<(), IoError>,
        transaction: Result<(), ConnectionError>,
        operation_name: Seq<char>,
        after: Self,
    ) -> bool {
        match before {
            Operation::Idle => match (directory, transaction) {
                (Err(e), _) => after == Operation::Aborted(
                    AdminError::Recorder(RecorderError::Io(e)),
                ),
                (Ok(_), Err(e)) => after == Operation::Aborted(
                    AdminError::Recorder(RecorderError::Connection(e)),
                ),
                (Ok(_), Ok(_)) => {
                    &&& after matches Operation::Recording(recorder)
                    &&& recorder.operation() == operation_name
                    &&& recorder.recorded() == Seq::<Seq<char>>::empty()
                    &&& !recorder.poisoned()
                },
            },
            _ => Self::misplaced(before, after),
        }
    }

    /// How `execute` leads from `before` to `after`.
    pub open spec fn executes(
        before: Self,
        sql: Seq<char>,
        outcome: Result<(), DbError>,
        after: Self,
    ) -> bool {
        match before {
            Operation::Recording(recorder) => if recorder.poisoned() {
                after matches Operation::Aborted(AdminError::Database(DbError::Poisoned))
            } else {
                match outcome {
                    Ok(_) => {
                        &&& after matches Operation::Recording(next)
                        &&& next.operation() == recorder.operation()
                        &&& next.recorded() == recorder.recorded().push(sql)
                        &&& !next.poisoned()
                    },
                    Err(e) => after == Operation::Aborted(AdminError::Database(e)),
                }
            },
            _ => Self::misplaced(before, after),
        }
    }

    /// How `roll_back` leads from `before` to `after`.
    pub open spec fn rolls_back(
        before: Self,
        rollback: Result<(), DbError>,
        existing: Seq<u64>,
        now: u64,
        after: Self,
    ) -> bool {
        match before {
            Operation::Recording(recorder) => match rollback {
                Err(e) => after == Operation::Aborted(AdminError::Database(e)),
                Ok(_) => if recorder.poisoned() {
                    after matches Operation::Aborted(AdminError::Database(DbError::Poisoned))
                } else if recorder.recorded().len() == 0 {
                    after is Done
                } else {
                    &&& after matches Operation::RolledBack(artifact)
                    &&& artifact.identifier() == fresh_identifier(existing, now)
                    &&& artifact.slug() == recorder.operation()
                    &&& artifact.statements() == recorder.recorded()
                },
            },
            _ => Self::misplaced(before, after),
        }
    }

    /// How `update_config` leads from `before` to `after`, and the guard
    /// from `guard_before` to `guard_after`.
    pub open spec fn updates_config(
        before: Self,
        guard_before: ConfigVersionGuard,
        config: Configuration,
        expected: Option<u64>,
        schema: TableMetadataCache,
        guard_after: ConfigVersionGuard,
        after: Self,
    ) -> bool {
        match before {
            Operation::RolledBack(artifact) => match after {
                Operation::ConfigUpdated(kept) => {
                    &&& kept == artifact
                    &&& ConfigVersionGuard::updates(
                        guard_before,
                        config,
                        expected,
                        schema,
                        guard_after,
                        Ok(()),
                    )
                },
                Operation::Aborted(AdminError::Config(e)) => ConfigVersionGuard::updates(
                    guard_before,
                    config,
                    expected,
                    schema,
                    guard_after,
                    Err(e),
                ),
                _ => false,
            },
            _ => guard_after == guard_before && Self::misplaced(before, after),
        }
    }

    /// How `file_written` leads from `before` to `after`.
    pub open spec fn writes_file(
        before: Self,
        file: Result<(), IoError>,
        started_millis: u64,
        after: Self,
    ) -> bool {
        match before {
            Operation::ConfigUpdated(artifact) => match file {
                Ok(_) => {
                    &&& after matches Operation::Applying(replay)
                    &&& replay.artifact() == artifact
                    &&& replay.position() == 0
                    &&& replay.started() == started_millis
                },
                Err(e) => after == Operation::Aborted(
                    AdminError::Migration(MigrationError::Io(e)),
                ),
            },
            _ => Self::misplaced(before, after),
        }
    }

    /// How `replayed` leads from `before` to `after`.
    pub open spec fn replays(
        before: Self,
        outcome: Result<(), DbError>,
        now_millis: u64,
        after: Self,
    ) -> bool {
        match before {
            Operation::Applying(replay) => match outcome {
                Err(cause) => after == Operation::Aborted(
                    AdminError::Migration(
                        MigrationError::PartialApply {
                            identifier: replay.artifact().identifier(),
                            index: replay.position() as usize,
                            cause,
                        },
                    ),
                ),
                Ok(_) => if replay.at_commit() {
                    after == Operation::Applied(
                        ApplyReport {
                            identifier: replay.artifact().identifier(),
                            statements: replay.artifact().statements().len() as usize,
                            elapsed_millis: elapsed(replay.started(), now_millis),
                        },
                    )
                } else {
                    &&& after matches Operation::Applying(next)
                    &&& next.artifact() == replay.artifact()
                    &&& next.position() == replay.position() + 1
                    &&& next.started() == replay.started()
                },
            },
            _ => Self::misplaced(before, after),
        }
    }

    /// How `cache_refreshed` leads from `before` to `after`, and the cache
    /// from `cache_before` to `cache_after`.
    pub open spec fn refreshes_cache(
        before: Self,
        cache_before: TableMetadataCache,
        introspection: Result<SchemaSnapshot, CacheError>,
        cache_after: TableMetadataCache,
        after: Self,
    ) -> bool {
        match before {
            Operation::Applied(_) => match introspection {
                Ok(snapshot) => {
                    &&& after is Done
                    &&& cache_after.tables() == snapshot.tables@
                    &&& cache_after.views() == snapshot.views@
                },
                Err(e) => {
                    &&& after == Operation::Aborted(AdminError::Cache(e))
                    &&& cache_after.tables() == cache_before.tables()
                    &&& cache_after.views() == cache_before.views()
                },
            },
            _ => cache_after == cache_before && Self::misplaced(before, after),
        }
    }

    /// How `cache_invalidated` leads from `before` to `after`, and the
    /// cache from `cache_before` to `cache_after`.
    pub open spec fn invalidates_cache(
        before: Self,
        cache_before: TableMetadataCache,
        name: Seq<char>,
        cache_after: TableMetadataCache,
        after: Self,
    ) -> bool {
        match before {
            Operation::Applied(_) => {
                &&& after is Done
                &&& cache_after.tables() == without_name(cache_before.tables(), name)
                &&& cache_after.views() == without_name(cache_before.views(), name)
            },
            _ => cache_after == cache_before && Self::misplaced(before, after),
        }
    }

    /// An operation on which nothing has happened yet.
    pub fn new() -> (r: Self)
        ensures
            r is Idle,
    {
        Operation::Idle
    }

    fn out_of_order(self) -> (r: Self)
        ensures
            Self::misplaced(self, r),
    {
        match self {
            Operation::Done => Operation::Done,
            Operation::Aborted(e) => Operation::Aborted(e),
            _ => Operation::Aborted(AdminError::OutOfOrder),
        }
    }

    /// Opens the recording session of an idle operation. `directory` is
    /// what probing the migrations directory came to, `transaction` what
    /// starting a transaction came to.
    pub fn begin(
        self,
        directory: Result<(), IoError>,
        transaction: Result<(), ConnectionError>,
        operation_name: String,
    ) -> (r: Self)
        ensures
            Self::begins(self, directory, transaction, operation_name@, r),
    {
        match self {
            Operation::Idle => match Recorder::open(directory, transaction, operation_name) {
                Ok(recorder) => Operation::Recording(recorder),
                Err(e) => Operation::Aborted(AdminError::Recorder(e)),
            },
            other => other.out_of_order(),
        }
    }

    /// Records the statement `sql` of a recording operation, where `outcome`
    /// is what running it came to. A statement that failed aborts the
    /// operation.
    pub fn execute(self, sql: &str, outcome: Result<(), DbError>) -> (r: Self)
        ensures
            Self::executes(self, sql@, outcome, r),
    {
        match self {
            Operation::Recording(recorder) => {
                let mut recorder = recorder;
                match recorder.execute(sql, outcome) {
                    Ok(()) => Operation::Recording(recorder),
                    Err(e) => Operation::Aborted(AdminError::Database(e)),
                }
            },
            other => other.out_of_order(),
        }
    }

    /// Ends the recording. `rollback` is what rolling the transaction back
    /// came to, `existing` the identifiers in the migrations directory and
    /// `now` the time. An operation that recorded nothing is done: there is
    /// nothing to write, to replay or to refresh.
    pub fn roll_back(self, rollback: Result<(), DbError>, existing: &Vec<u64>, now: u64) -> (r:
        Self)
        ensures
            Self::rolls_back(self, rollback, existing@, now, r),
    {
        match self {
            Operation::Recording(recorder) => match recorder.finalize_as_rollback(
                rollback,
                existing,
                now,
            ) {
                Ok(Some(artifact)) => Operation::RolledBack(artifact),
                Ok(None) => Operation::Done,
                Err(e) => Operation::Aborted(AdminError::Database(e)),
            },
            other => other.out_of_order(),
        }
    }

    /// Puts `config` in the place of the live configuration, for a writer
    /// that had read the configuration with the hash `expected`. A
    /// configuration that is refused aborts the operation, and the artifact
    /// is dropped with it. An operation that is not rolled back leaves the
    /// guard alone.
    pub fn update_config(
        self,
        guard: &mut ConfigVersionGuard,
        config: Configuration,
        expected: Option<u64>,
        schema: &TableMetadataCache,
    ) -> (r: Self)
        ensures
            Self::updates_config(self, *old(guard), config, expected, *schema, *final(guard), r),
    {
        match self {
            Operation::RolledBack(artifact) => match guard.compare_and_update(
                config,
                expected,
                schema,
            ) {
                Ok(()) => Operation::ConfigUpdated(artifact),
                Err(e) => Operation::Aborted(AdminError::Config(e)),
            },
            other => other.out_of_order(),
        }
    }

    /// Takes note of how writing the migration file went: `file` is what
    /// creating it came to, `started_millis` the time at which the writing
    /// began.
    pub fn file_written(self, file: Result<(), IoError>, started_millis: u64) -> (r: Self)
        ensures
            Self::writes_file(self, file, started_millis, r),
    {
        match self {
            Operation::ConfigUpdated(artifact) => match artifact.begin_write(file, started_millis) {
                Ok(replay) => Operation::Applying(replay),
                Err(e) => Operation::Aborted(AdminError::Migration(e)),
            },
            other => other.out_of_order(),
        }
    }

    /// Takes note of how the pending step of the replay went: the next
    /// statement, or the commit once every statement is replayed.
    pub fn replayed(self, outcome: Result<(), DbError>, now_millis: u64) -> (r: Self)
        ensures
            Self::replays(self, outcome, now_millis, r),
    {
        match self {
            Operation::Applying(replay) => match replay.advance(outcome, now_millis) {
                Ok(Progress::Replaying(next)) => Operation::Applying(next),
                Ok(Progress::Applied(report)) => Operation::Applied(report),
                Err(e) => Operation::Aborted(AdminError::Migration(e)),
            },
            other => other.out_of_order(),
        }
    }

    /// Refreshes the cache of an applied operation from `introspection`,
    /// which is what introspecting the schema came to. An operation that is
    /// not applied leaves the cache alone.
    pub fn cache_refreshed(
        self,
        cache: &mut TableMetadataCache,
        introspection: Result<SchemaSnapshot, CacheError>,
    ) -> (r: Self)
        ensures
            Self::refreshes_cache(self, *old(cache), introspection, *final(cache), r),
    {
        match self {
            Operation::Applied(_) => match cache.invalidate_all(introspection) {
                Ok(()) => Operation::Done,
                Err(e) => Operation::Aborted(AdminError::Cache(e)),
            },
            other => other.out_of_order(),
        }
    }

    /// Makes the cache of an applied operation forget `name`, where the
    /// operation is known to have touched nothing else. An operation that
    /// is not applied leaves the cache alone.
    pub fn cache_invalidated(self, cache: &mut TableMetadataCache, name: &str) -> (r: Self)
        ensures
            Self::invalidates_cache(self, *old(cache), name@, *final(cache), r),
    {
        match self {
            Operation::Applied(_) => {
                cache.invalidate(name);
                Operation::Done
            },
            other => other.out_of_order(),
        }
    }
}

/// An operation that records no statement is done once it is rolled back,
/// without an artifact; and whatever step is asked of it then, it stays
/// done, and the configuration and the cache stay as they are.
pub proof fn lemma_empty_session_changes_nothing(
    directory: Result<(), IoError>,
    transaction: Result<(), ConnectionError>,
    operation_name: Seq<char>,
    opened: Operation,
    rollback: Result<(), DbError>,
    existing: Seq<u64>,
    now: u64,
    ended: Operation,
    guard: ConfigVersionGuard,
    config: Configuration,
    expected: Option<u64>,
    cache: TableMetadataCache,
    guard_after: ConfigVersionGuard,
    updated: Operation,
    file: Result<(), IoError>,
    written: Operation,
    outcome: Result<(), DbError>,
    replayed: Operation,
    introspection: Result<SchemaSnapshot, CacheError>,
    cache_after: TableMetadataCache,
    refreshed: Operation,
)
    requires
        Operation::begins(Operation::Idle, directory, transaction, operation_name, opened),
        opened is Recording,
        rollback is Ok,
        Operation::rolls_back(opened, rollback, existing, now, ended),
        Operation::updates_config(ended, guard, config, expected, cache, guard_after, updated),
        Operation::writes_file(updated, file, now, written),
        Operation::replays(written, outcome, now, replayed),
        Operation::refreshes_cache(replayed, cache, introspection, cache_after, refreshed),
    ensures
        ended is Done,
        updated is Done,
        written is Done,
        replayed is Done,
        refreshed is Done,
        guard_after == guard,
        cache_after == cache,
{
}

/// Whether `steps` is a replay of the artifact `artifact` of which every
/// step so far went well: it starts where the file was written, and each
/// state follows from the one before it by a step that went well.
pub open spec fn replays_well(
    artifact: PendingArtifact,
    started_millis: u64,
    steps: Seq<Operation>,
    times: Seq<u64>,
) -> bool {
    &&& steps.len() >= 1
    &&& times.len() == steps.len()
    &&& Operation::writes_file(
        Operation::ConfigUpdated(artifact),
        Ok(()),
        started_millis,
        steps[0],
    )
    &&& forall|i: int|
        0 <= i < steps.len() - 1 ==> Operation::replays(
            #[trigger] steps[i],
            Ok(()),
            times[i],
            steps[i + 1],
        )
}

/// The replay follows the record: after `i` steps that went well the
/// statement that is pending is statement `i` of the artifact, for every
/// `i` below the number of its statements, and after that number of steps
/// the commit is pending.
pub proof fn lemma_replay_follows_the_record(
    artifact: PendingArtifact,
    started_millis: u64,
    steps: Seq<Operation>,
    times: Seq<u64>,
    i: int,
)
    requires
        replays_well(artifact, started_millis, steps, times),
        0 <= i < steps.len(),
        i <= artifact.statements().len(),
    ensures
        steps[i] matches Operation::Applying(replay) && replay.artifact() == artifact
            && replay.position() == i && replay.started() == started_millis && (replay.at_commit()
            <==> i == artifact.statements().len()),
    decreases i,
{
    if i > 0 {
        lemma_replay_follows_the_record(artifact, started_millis, steps, times, i - 1);
        assert(Operation::replays(steps[i - 1], Ok(()), times[i - 1], steps[i - 1 + 1]));
    }
}

/// A replay that fails after the migration file was written is never taken
/// for a success: when `failed_at` steps went well and the next one is
/// refused, the operation is aborted as a partial apply that names the
/// migration, the number of steps that went well, and the refusal.
pub proof fn lemma_failed_replay_is_reported(
    artifact: PendingArtifact,
    started_millis: u64,
    steps: Seq<Operation>,
    times: Seq<u64>,
    cause: DbError,
    now_millis: u64,
    last: Operation,
)
    requires
        replays_well(artifact, started_millis, steps, times),
        steps.len() - 1 <= artifact.statements().len(),
        Operation::replays(steps.last(), Err(cause), now_millis, last),
    ensures
        last == Operation::Aborted(
            AdminError::Migration(
                MigrationError::PartialApply {
                    identifier: artifact.identifier(),
                    index: (steps.len() - 1) as usize,
                    cause,
                },
            ),
        ),
{
    lemma_replay_follows_the_record(artifact, started_millis, steps, times, steps.len() - 1);
}

/// A replay of which every step and the commit went well ends applied, with
/// a report that names the migration and counts all its statements.
pub proof fn lemma_full_replay_is_applied(
    artifact: PendingArtifact,
    started_millis: u64,
    steps: Seq<Operation>,
    times: Seq<u64>,
    now_millis: u64,
    last: Operation,
)
    requires
        replays_well(artifact, started_millis, steps, times),
        steps.len() - 1 == artifact.statements().len(),
        Operation::replays(steps.last(), Ok(()), now_millis, last),
    ensures
        last == Operation::Applied(
            ApplyReport {
                identifier: artifact.identifier(),
                statements: artifact.statements().len() as usize,
                elapsed_millis: elapsed(started_millis, now_millis),
            },
        ),
{
    lemma_replay_follows_the_record(artifact, started_millis, steps, times, steps.len() - 1);
}

} // verus!
