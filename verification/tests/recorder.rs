use schema_admin::error::{ConnectionError, DbError, IoError, RecorderError};
use schema_admin::recorder::Recorder;

fn open(name: &str) -> Recorder {
    Recorder::open(Ok(()), Ok(()), name.to_string()).unwrap()
}

#[test]
fn open_reports_an_unusable_directory_first() {
    let r = Recorder::open(
        Err(IoError { message: "read-only".to_string() }),
        Err(ConnectionError { message: "busy".to_string() }),
        "drop_table_users".to_string(),
    );
    match r {
        Err(RecorderError::Io(e)) => assert_eq!(e.message, "read-only"),
        other => panic!("unexpected: {other:?}"),
    }
}

#[test]
fn open_reports_a_refused_transaction() {
    let r = Recorder::open(
        Ok(()),
        Err(ConnectionError { message: "nested".to_string() }),
        "drop_table_users".to_string(),
    );
    match r {
        Err(RecorderError::Connection(e)) => assert_eq!(e.message, "nested"),
        other => panic!("unexpected: {other:?}"),
    }
}

#[test]
fn session_without_statements_yields_no_artifact() {
    let recorder = open("noop");
    assert_eq!(recorder.recorded_count(), 0);
    let r = recorder.finalize_as_rollback(Ok(()), &vec![1, 2, 3], 10).unwrap();
    assert!(r.is_none());
}

#[test]
fn statements_are_kept_in_order() {
    let mut recorder = open("create_things");
    recorder.execute("CREATE TABLE a (id INTEGER)", Ok(())).unwrap();
    recorder.execute("INSERT INTO a VALUES (1)", Ok(())).unwrap();
    let artifact = recorder.finalize_as_rollback(Ok(()), &vec![], 1700000000).unwrap().unwrap();
    assert_eq!(artifact.id(), 1700000000);
    assert_eq!(artifact.statement_count(), 2);
    assert_eq!(artifact.statement(0).unwrap(), "CREATE TABLE a (id INTEGER)");
    assert_eq!(artifact.statement(1).unwrap(), "INSERT INTO a VALUES (1)");
    assert!(artifact.statement(2).is_none());
    assert_eq!(artifact.file_name(), "U1700000000__create_things.sql");
    assert_eq!(
        artifact.content(),
        "CREATE TABLE a (id INTEGER);\nINSERT INTO a VALUES (1);\n"
    );
}

#[test]
fn failed_statement_is_not_recorded_and_poisons() {
    let mut recorder = open("op");
    recorder.execute("CREATE TABLE a (id INTEGER)", Ok(())).unwrap();
    let failed = recorder.execute("CREATE TABLE", Err(DbError::Engine("syntax".to_string())));
    match failed {
        Err(DbError::Engine(m)) => assert_eq!(m, "syntax"),
        other => panic!("unexpected: {other:?}"),
    }
    assert!(recorder.is_poisoned());
    assert_eq!(recorder.recorded_count(), 1);
    let refused = recorder.execute("CREATE TABLE b (id INTEGER)", Ok(()));
    assert!(matches!(refused, Err(DbError::Poisoned)));
    assert_eq!(recorder.recorded_count(), 1);
    let end = recorder.finalize_as_rollback(Ok(()), &vec![], 5);
    assert!(matches!(end, Err(DbError::Poisoned)));
}

#[test]
fn failed_rollback_is_handed_on() {
    let mut recorder = open("op");
    recorder.execute("CREATE TABLE a (id INTEGER)", Ok(())).unwrap();
    let end = recorder.finalize_as_rollback(Err(DbError::Engine("gone".to_string())), &vec![], 5);
    match end {
        Err(DbError::Engine(m)) => assert_eq!(m, "gone"),
        other => panic!("unexpected: {other:?}"),
    }
}

#[test]
fn identifier_is_later_than_every_existing_one() {
    let mut recorder = open("op");
    recorder.execute("DROP TABLE IF EXISTS a", Ok(())).unwrap();
    let artifact = recorder.finalize_as_rollback(Ok(()), &vec![7, 42, 9], 20).unwrap().unwrap();
    assert_eq!(artifact.id(), 43);
    assert_eq!(artifact.file_name(), "U43__op.sql");
}
