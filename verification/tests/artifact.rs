use schema_admin::artifact::allocate_identifier;
use schema_admin::error::{DbError, IoError, MigrationError};
use schema_admin::recorder::Recorder;
use schema_admin::replay::{ApplyReport, Progress, Replay};
use schema_admin::text::{decimal, same_text};

fn artifact(statements: &[&str], now: u64) -> schema_admin::artifact::PendingArtifact {
    let mut recorder = Recorder::open(Ok(()), Ok(()), "op".to_string()).unwrap();
    for s in statements {
        recorder.execute(s, Ok(())).unwrap();
    }
    recorder.finalize_as_rollback(Ok(()), &vec![], now).unwrap().unwrap()
}

fn replaying(progress: Result<Progress, MigrationError>) -> Replay {
    match progress {
        Ok(Progress::Replaying(next)) => next,
        other => panic!("unexpected: {other:?}"),
    }
}

#[test]
fn identifier_is_the_time_where_nothing_is_later() {
    assert_eq!(allocate_identifier(&vec![], 0), 0);
    assert_eq!(allocate_identifier(&vec![], 17), 17);
    assert_eq!(allocate_identifier(&vec![3, 16, 5], 17), 17);
}

#[test]
fn identifier_follows_the_highest_existing_one() {
    assert_eq!(allocate_identifier(&vec![17], 17), 18);
    assert_eq!(allocate_identifier(&vec![3, 99, 5], 17), 100);
    assert_eq!(allocate_identifier(&vec![0], 0), 1);
}

#[test]
fn identifier_stops_at_the_highest_number() {
    assert_eq!(allocate_identifier(&vec![u64::MAX], 5), u64::MAX);
    assert_eq!(allocate_identifier(&vec![u64::MAX - 1], 5), u64::MAX);
    assert_eq!(allocate_identifier(&vec![1, u64::MAX, 2], u64::MAX), u64::MAX);
}

#[test]
fn decimal_notation() {
    assert_eq!(decimal(0), "0");
    assert_eq!(decimal(7), "7");
    assert_eq!(decimal(10), "10");
    assert_eq!(decimal(1234567890), "1234567890");
    assert_eq!(decimal(u64::MAX), "18446744073709551615");
}

#[test]
fn text_helpers() {
    assert!(same_text("", ""));
    assert!(same_text("abc", "abc"));
    assert!(!same_text("abc", "abd"));
    assert!(!same_text("abc", "ab"));
    assert!(same_text("\u{e9}t\u{e9}", "\u{e9}t\u{e9}"));
}

#[test]
fn file_name_and_content() {
    let a = artifact(&["DROP TABLE IF EXISTS users"], 1728810800);
    assert_eq!(a.file_name(), "U1728810800__op.sql");
    assert_eq!(a.content(), "DROP TABLE IF EXISTS users;\n");
}

#[test]
fn unwritable_file_ends_the_write() {
    let a = artifact(&["DROP TABLE IF EXISTS users"], 1);
    let r = a.begin_write(Err(IoError { message: "exists".to_string() }), 0);
    match r {
        Err(MigrationError::Io(e)) => assert_eq!(e.message, "exists"),
        other => panic!("unexpected: {other:?}"),
    }
}

#[test]
fn replay_runs_every_statement_in_order_and_commits() {
    let a = artifact(&["CREATE TABLE a (id INTEGER)", "INSERT INTO a VALUES (1)"], 42);
    let replay = a.begin_write(Ok(()), 1000).unwrap();
    assert_eq!(replay.pending().unwrap(), "CREATE TABLE a (id INTEGER)");
    let replay = replaying(replay.advance(Ok(()), 1001));
    assert_eq!(replay.pending().unwrap(), "INSERT INTO a VALUES (1)");
    let replay = replaying(replay.advance(Ok(()), 1002));
    assert!(replay.pending().is_none());
    match replay.advance(Ok(()), 1250) {
        Ok(Progress::Applied(report)) => assert_eq!(
            report,
            ApplyReport { identifier: 42, statements: 2, elapsed_millis: 250 }
        ),
        other => panic!("unexpected: {other:?}"),
    }
}

#[test]
fn elapsed_time_is_nothing_where_the_clock_went_back() {
    let a = artifact(&["DROP TABLE IF EXISTS users"], 42);
    let replay = a.begin_write(Ok(()), 1000).unwrap();
    let replay = replaying(replay.advance(Ok(()), 900));
    match replay.advance(Ok(()), 900) {
        Ok(Progress::Applied(report)) => assert_eq!(report.elapsed_millis, 0),
        other => panic!("unexpected: {other:?}"),
    }
}

#[test]
fn failed_statement_is_a_partial_apply() {
    let a = artifact(&["CREATE TABLE a (id INTEGER)", "INSERT INTO a VALUES (1)"], 42);
    let replay = a.begin_write(Ok(()), 0).unwrap();
    let replay = replaying(replay.advance(Ok(()), 1));
    match replay.advance(Err(DbError::Engine("no such table".to_string())), 2) {
        Err(MigrationError::PartialApply { identifier, index, cause }) => {
            assert_eq!(identifier, 42);
            assert_eq!(index, 1);
            assert!(matches!(cause, DbError::Engine(m) if m == "no such table"));
        }
        other => panic!("unexpected: {other:?}"),
    }
}

#[test]
fn failed_commit_is_a_partial_apply_after_the_last_statement() {
    let a = artifact(&["DROP TABLE IF EXISTS users"], 7);
    let replay = a.begin_write(Ok(()), 0).unwrap();
    let replay = replaying(replay.advance(Ok(()), 1));
    match replay.advance(Err(DbError::Engine("busy".to_string())), 2) {
        Err(MigrationError::PartialApply { identifier, index, .. }) => {
            assert_eq!(identifier, 7);
            assert_eq!(index, 1);
        }
        other => panic!("unexpected: {other:?}"),
    }
}
