use ansi_transactions::connection::ScriptedConnection;
use ansi_transactions::error::DatabaseErrorKind;
use ansi_transactions::error::Error;
use ansi_transactions::manager::AnsiTransactionManager;
use ansi_transactions::manager::TransactionManager;

fn depth(mgr: &AnsiTransactionManager) -> u32 {
    <AnsiTransactionManager as TransactionManager<ScriptedConnection>>::get_transaction_depth(mgr)
}

fn db_err(kind: DatabaseErrorKind, message: &str) -> Option<(DatabaseErrorKind, String)> {
    Some((kind, message.to_string()))
}

fn issued(conn: &ScriptedConnection) -> Vec<String> {
    conn.issued_sql().clone()
}

#[test]
fn new_manager_is_outside_any_transaction() {
    let mgr = AnsiTransactionManager::new();
    assert_eq!(depth(&mgr), 0);
    let by_default = AnsiTransactionManager::default();
    assert_eq!(depth(&by_default), 0);
}

#[test]
fn begin_sequence_tracks_depth_and_savepoint_names() {
    let mut conn = ScriptedConnection::new();
    let mut mgr = AnsiTransactionManager::new();
    let n: u32 = 3;
    let mut k: u32 = 0;
    while k < n {
        assert!(mgr.begin_transaction(&mut conn).is_ok());
        k += 1;
        assert_eq!(depth(&mgr), k);
    }
    assert_eq!(
        issued(&conn),
        vec![
            "BEGIN".to_string(),
            "SAVEPOINT diesel_savepoint_1".to_string(),
            "SAVEPOINT diesel_savepoint_2".to_string(),
        ]
    );
}

#[test]
fn multi_digit_savepoint_names_encode_the_depth() {
    let mut conn = ScriptedConnection::new();
    let mut mgr = AnsiTransactionManager::new();
    let mut k: u32 = 0;
    while k < 11 {
        assert!(mgr.begin_transaction(&mut conn).is_ok());
        k += 1;
    }
    assert_eq!(depth(&mgr), 11);
    assert_eq!(issued(&conn)[10], "SAVEPOINT diesel_savepoint_10".to_string());
}

#[test]
fn begin_then_commit_restores_depth() {
    let mut conn = ScriptedConnection::new();
    let mut mgr = AnsiTransactionManager::new();
    assert!(mgr.begin_transaction(&mut conn).is_ok());
    assert!(mgr.commit_transaction(&mut conn).is_ok());
    assert_eq!(depth(&mgr), 0);

    assert!(mgr.begin_transaction(&mut conn).is_ok());
    assert!(mgr.begin_transaction(&mut conn).is_ok());
    assert!(mgr.commit_transaction(&mut conn).is_ok());
    assert_eq!(depth(&mgr), 1);
}

#[test]
fn begin_then_rollback_restores_depth() {
    let mut conn = ScriptedConnection::new();
    let mut mgr = AnsiTransactionManager::new();
    assert!(mgr.begin_transaction(&mut conn).is_ok());
    assert!(mgr.begin_transaction(&mut conn).is_ok());
    assert!(mgr.rollback_transaction(&mut conn).is_ok());
    assert_eq!(depth(&mgr), 1);
    assert!(mgr.rollback_transaction(&mut conn).is_ok());
    assert_eq!(depth(&mgr), 0);
}

#[test]
fn begin_transaction_sql_at_depth_zero_issues_the_sql() {
    let mut conn = ScriptedConnection::new();
    let mut mgr = AnsiTransactionManager::new();
    let sql = "BEGIN ISOLATION LEVEL SERIALIZABLE";
    assert!(mgr.begin_transaction_sql(&mut conn, sql).is_ok());
    assert_eq!(depth(&mgr), 1);
    assert_eq!(issued(&conn), vec![sql.to_string()]);
}

#[test]
fn begin_transaction_sql_inside_a_transaction_is_refused() {
    let mut conn = ScriptedConnection::new();
    let mut mgr = AnsiTransactionManager::new();
    assert!(mgr.begin_transaction(&mut conn).is_ok());
    let r = mgr.begin_transaction_sql(&mut conn, "BEGIN READ ONLY");
    assert_eq!(r, Err(Error::AlreadyInTransaction));
    assert_eq!(depth(&mgr), 1);
    assert_eq!(issued(&conn), vec!["BEGIN".to_string()]);
}

#[test]
fn begin_transaction_sql_channel_failure_leaves_depth_at_zero() {
    let mut conn = ScriptedConnection::with_script(vec![db_err(
        DatabaseErrorKind::Other,
        "syntax error",
    )]);
    let mut mgr = AnsiTransactionManager::new();
    let r = mgr.begin_transaction_sql(&mut conn, "BEGIN READ ONLY");
    assert_eq!(r, Err(Error::DatabaseError(DatabaseErrorKind::Other, "syntax error".to_string())));
    assert_eq!(depth(&mgr), 0);
    assert_eq!(issued(&conn), vec!["BEGIN READ ONLY".to_string()]);
}

#[test]
fn failed_begin_leaves_depth_unchanged() {
    let mut conn = ScriptedConnection::with_script(vec![db_err(
        DatabaseErrorKind::Other,
        "backend refused",
    )]);
    let mut mgr = AnsiTransactionManager::new();
    let r = mgr.begin_transaction(&mut conn);
    assert_eq!(
        r,
        Err(Error::DatabaseError(DatabaseErrorKind::Other, "backend refused".to_string()))
    );
    assert_eq!(depth(&mgr), 0);
    assert_eq!(issued(&conn), vec!["BEGIN".to_string()]);
}

#[test]
fn failed_nested_begin_leaves_depth_unchanged() {
    let mut conn = ScriptedConnection::with_script(vec![
        None,
        db_err(DatabaseErrorKind::Other, "backend refused"),
    ]);
    let mut mgr = AnsiTransactionManager::new();
    assert!(mgr.begin_transaction(&mut conn).is_ok());
    assert!(mgr.begin_transaction(&mut conn).is_err());
    assert_eq!(depth(&mgr), 1);
}

#[test]
fn commit_serialization_failure_rolls_back_and_returns_commit_error() {
    let mut conn = ScriptedConnection::with_script(vec![
        None,
        db_err(DatabaseErrorKind::SerializationFailure, "could not serialize access"),
        None,
    ]);
    let mut mgr = AnsiTransactionManager::new();
    assert!(mgr.begin_transaction(&mut conn).is_ok());
    let r = mgr.commit_transaction(&mut conn);
    assert_eq!(
        r,
        Err(Error::DatabaseError(
            DatabaseErrorKind::SerializationFailure,
            "could not serialize access".to_string(),
        ))
    );
    assert_eq!(depth(&mgr), 0);
    assert_eq!(
        issued(&conn),
        vec!["BEGIN".to_string(), "COMMIT".to_string(), "ROLLBACK".to_string()]
    );
}

#[test]
fn commit_read_only_violation_rolls_back_and_returns_commit_error() {
    let mut conn = ScriptedConnection::with_script(vec![
        None,
        db_err(DatabaseErrorKind::ReadOnlyTransaction, "cannot write in a read-only transaction"),
        None,
    ]);
    let mut mgr = AnsiTransactionManager::new();
    assert!(mgr.begin_transaction(&mut conn).is_ok());
    let r = mgr.commit_transaction(&mut conn);
    assert_eq!(
        r,
        Err(Error::DatabaseError(
            DatabaseErrorKind::ReadOnlyTransaction,
            "cannot write in a read-only transaction".to_string(),
        ))
    );
    assert_eq!(depth(&mgr), 0);
    assert_eq!(
        issued(&conn),
        vec!["BEGIN".to_string(), "COMMIT".to_string(), "ROLLBACK".to_string()]
    );
}

#[test]
fn commit_failure_whose_rollback_also_fails_returns_the_rollback_error() {
    let mut conn = ScriptedConnection::with_script(vec![
        None,
        db_err(DatabaseErrorKind::SerializationFailure, "could not serialize access"),
        db_err(DatabaseErrorKind::Other, "connection lost"),
    ]);
    let mut mgr = AnsiTransactionManager::new();
    assert!(mgr.begin_transaction(&mut conn).is_ok());
    let r = mgr.commit_transaction(&mut conn);
    assert_eq!(
        r,
        Err(Error::DatabaseError(DatabaseErrorKind::Other, "connection lost".to_string()))
    );
    assert_ne!(
        r,
        Err(Error::DatabaseError(
            DatabaseErrorKind::SerializationFailure,
            "could not serialize access".to_string(),
        ))
    );
    assert_eq!(depth(&mgr), 0);
    assert_eq!(
        issued(&conn),
        vec!["BEGIN".to_string(), "COMMIT".to_string(), "ROLLBACK".to_string()]
    );
}

#[test]
fn commit_other_failure_attempts_no_rollback_and_keeps_depth() {
    let mut conn = ScriptedConnection::with_script(vec![
        None,
        db_err(DatabaseErrorKind::Other, "disk full"),
    ]);
    let mut mgr = AnsiTransactionManager::new();
    assert!(mgr.begin_transaction(&mut conn).is_ok());
    let r = mgr.commit_transaction(&mut conn);
    assert_eq!(r, Err(Error::DatabaseError(DatabaseErrorKind::Other, "disk full".to_string())));
    assert_eq!(depth(&mgr), 1);
    assert_eq!(issued(&conn), vec!["BEGIN".to_string(), "COMMIT".to_string()]);
}

#[test]
fn nested_commit_releases_savepoint_then_commits() {
    let mut conn = ScriptedConnection::new();
    let mut mgr = AnsiTransactionManager::new();
    assert!(mgr.begin_transaction(&mut conn).is_ok());
    assert_eq!(depth(&mgr), 1);
    assert!(mgr.begin_transaction(&mut conn).is_ok());
    assert_eq!(depth(&mgr), 2);
    assert!(mgr.commit_transaction(&mut conn).is_ok());
    assert_eq!(depth(&mgr), 1);
    assert!(mgr.commit_transaction(&mut conn).is_ok());
    assert_eq!(depth(&mgr), 0);
    assert_eq!(
        issued(&conn),
        vec![
            "BEGIN".to_string(),
            "SAVEPOINT diesel_savepoint_1".to_string(),
            "RELEASE SAVEPOINT diesel_savepoint_1".to_string(),
            "COMMIT".to_string(),
        ]
    );
}

#[test]
fn failed_savepoint_release_leaves_depth_unchanged() {
    let mut conn = ScriptedConnection::with_script(vec![
        None,
        None,
        db_err(DatabaseErrorKind::Other, "release refused"),
    ]);
    let mut mgr = AnsiTransactionManager::new();
    assert!(mgr.begin_transaction(&mut conn).is_ok());
    assert!(mgr.begin_transaction(&mut conn).is_ok());
    assert!(mgr.commit_transaction(&mut conn).is_err());
    assert_eq!(depth(&mgr), 2);
}

#[test]
fn rollback_goes_to_the_most_recent_savepoint() {
    let mut conn = ScriptedConnection::new();
    let mut mgr = AnsiTransactionManager::new();
    assert!(mgr.begin_transaction(&mut conn).is_ok());
    assert!(mgr.begin_transaction(&mut conn).is_ok());
    assert!(mgr.rollback_transaction(&mut conn).is_ok());
    assert_eq!(issued(&conn)[2], "ROLLBACK TO SAVEPOINT diesel_savepoint_1".to_string());
    assert_eq!(depth(&mgr), 1);
}

#[test]
fn failed_rollback_leaves_depth_unchanged() {
    let mut conn = ScriptedConnection::with_script(vec![
        None,
        db_err(DatabaseErrorKind::Other, "rollback refused"),
    ]);
    let mut mgr = AnsiTransactionManager::new();
    assert!(mgr.begin_transaction(&mut conn).is_ok());
    assert!(mgr.rollback_transaction(&mut conn).is_err());
    assert_eq!(depth(&mgr), 1);
}

#[test]
fn serialization_race_leaves_the_losing_connection_at_depth_zero() {
    // Two serializable transactions on separate connections race on the same
    // rows; the backend lets one commit and reports a serialization failure
    // to the other, whose manager then rolls back.
    let mut winner_conn = ScriptedConnection::new();
    let mut winner = AnsiTransactionManager::new();
    let mut loser_conn = ScriptedConnection::with_script(vec![
        None,
        db_err(DatabaseErrorKind::SerializationFailure, "could not serialize access"),
        None,
    ]);
    let mut loser = AnsiTransactionManager::new();

    assert_eq!(depth(&winner), 0);
    assert_eq!(depth(&loser), 0);
    assert!(winner.begin_transaction(&mut winner_conn).is_ok());
    assert!(loser.begin_transaction(&mut loser_conn).is_ok());
    assert_eq!(depth(&winner), 1);
    assert_eq!(depth(&loser), 1);

    let winner_result = winner.commit_transaction(&mut winner_conn);
    let loser_result = loser.commit_transaction(&mut loser_conn);

    assert!(winner_result.is_ok());
    assert!(matches!(
        loser_result,
        Err(Error::DatabaseError(DatabaseErrorKind::SerializationFailure, _))
    ));
    assert_eq!(depth(&winner), 0);
    assert_eq!(depth(&loser), 0);
    assert_eq!(issued(&loser_conn)[2], "ROLLBACK".to_string());
}
