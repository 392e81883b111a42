use rusqlite::Connection;
use vapor_cli::transactions::{
    after_drop, after_lookup, classify_command, CommandKind, DropPlan, FailedStep, Intercept,
    Notice, TransactionManager, TransactionOp,
};

fn database() -> Connection {
    let conn = Connection::open_in_memory().unwrap();
    conn.execute("CREATE TABLE test (id INTEGER PRIMARY KEY, name TEXT)", []).unwrap();
    conn
}

fn count(conn: &Connection, sql: &str) -> i64 {
    conn.query_row(sql, [], |row| row.get(0)).unwrap()
}

#[test]
fn test_vapor_db_transactions() {
    let conn = database();
    let mut manager = TransactionManager::new();

    assert!(!manager.is_active());
    manager.begin_transaction(&conn).unwrap();
    assert!(manager.is_active());

    conn.execute("INSERT INTO test (name) VALUES ('test_transaction')", []).unwrap();
    manager.commit_transaction(&conn).unwrap();
    assert!(!manager.is_active());
    assert_eq!(count(&conn, "SELECT COUNT(*) FROM test"), 1);
}

#[test]
fn test_transaction_rollback() {
    let conn = Connection::open_in_memory().unwrap();
    conn.execute("CREATE TABLE rollback_test (id INTEGER PRIMARY KEY, name TEXT)", []).unwrap();
    conn.execute("INSERT INTO rollback_test (name) VALUES ('initial')", []).unwrap();
    let mut manager = TransactionManager::new();

    manager.begin_transaction(&conn).unwrap();
    conn.execute("INSERT INTO rollback_test (name) VALUES ('transactional')", []).unwrap();

    manager.rollback_transaction(&conn).unwrap();
    assert!(!manager.is_active());
    assert_eq!(count(&conn, "SELECT COUNT(*) FROM rollback_test"), 1);
}

#[test]
fn second_begin_is_a_warning_and_the_transaction_stays_open() {
    let conn = database();
    let mut manager = TransactionManager::new();
    assert_eq!(manager.begin_transaction(&conn).unwrap(), Notice::Started);
    assert!(manager.is_active());
    let second = manager.begin_transaction(&conn).unwrap();
    assert_eq!(second, Notice::AlreadyActive);
    assert!(second.is_warning());
    assert!(manager.is_active());
    assert_eq!(
        second.message(),
        "Warning: Transaction already active. Use COMMIT or ROLLBACK first."
    );
    // The database still has exactly one transaction open.
    assert!(!conn.is_autocommit());
    assert_eq!(manager.commit_transaction(&conn).unwrap(), Notice::Committed);
    assert!(conn.is_autocommit());
}

#[test]
fn commit_and_rollback_outside_a_transaction_issue_nothing() {
    let conn = database();
    let mut manager = TransactionManager::new();
    // SQLite refuses COMMIT and ROLLBACK without a transaction, so an Ok
    // shows that none was issued.
    assert_eq!(manager.commit_transaction(&conn).unwrap(), Notice::NothingToCommit);
    assert_eq!(manager.rollback_transaction(&conn).unwrap(), Notice::NothingToRollback);
    assert!(!manager.is_active());
    assert_eq!(manager.pending_statement(TransactionOp::Commit), None);
    assert_eq!(manager.pending_statement(TransactionOp::Rollback), None);
    assert_eq!(manager.pending_statement(TransactionOp::Begin), Some("BEGIN"));
    assert_eq!(Notice::NothingToCommit.message(), "No active transaction to commit.");
    assert_eq!(Notice::NothingToRollback.message(), "No active transaction to rollback.");
    assert_eq!(manager.show_status(), "No active transaction.");
}

#[test]
fn refused_begin_leaves_the_state() {
    let conn = database();
    // The database is already in a transaction that the manager does not know.
    conn.execute("BEGIN", []).unwrap();
    let mut manager = TransactionManager::new();
    let failure = manager.begin_transaction(&conn).unwrap_err();
    assert_eq!(failure.step, FailedStep::Begin);
    assert!(!manager.is_active());
}

#[test]
fn refused_commit_leaves_the_transaction_tracked() {
    let conn = database();
    let mut manager = TransactionManager::new();
    manager.begin_transaction(&conn).unwrap();
    // The transaction ends behind the manager's back.
    conn.execute("ROLLBACK", []).unwrap();
    let failure = manager.commit_transaction(&conn).unwrap_err();
    assert_eq!(failure.step, FailedStep::Commit);
    assert!(manager.is_active());
    let failure = manager.rollback_transaction(&conn).unwrap_err();
    assert_eq!(failure.step, FailedStep::Rollback);
    assert!(manager.is_active());
    assert_eq!(manager.show_status(), "Transaction is active.");
}

#[test]
fn conclude_moves_the_state_on_success_only() {
    let mut manager = TransactionManager::new();
    assert_eq!(manager.conclude(TransactionOp::Begin, Ok(0)).unwrap(), Notice::Started);
    assert!(manager.is_active());
    let failed = manager.conclude(TransactionOp::Commit, Err(rusqlite::Error::InvalidQuery));
    assert_eq!(failed.unwrap_err().step, FailedStep::Commit);
    assert!(manager.is_active());
    assert_eq!(manager.conclude(TransactionOp::Rollback, Ok(0)).unwrap(), Notice::RolledBack);
    assert!(!manager.is_active());
}

#[test]
fn commands_are_classified_on_their_lowercase_text() {
    assert_eq!(classify_command("begin"), CommandKind::Control(TransactionOp::Begin));
    assert_eq!(classify_command("  begin transaction "), CommandKind::Control(TransactionOp::Begin));
    assert_eq!(classify_command("commit"), CommandKind::Control(TransactionOp::Commit));
    assert_eq!(classify_command("commit transaction"), CommandKind::Control(TransactionOp::Commit));
    assert_eq!(classify_command("rollback"), CommandKind::Control(TransactionOp::Rollback));
    assert_eq!(
        classify_command("rollback transaction"),
        CommandKind::Control(TransactionOp::Rollback)
    );
    assert_eq!(classify_command("begin;"), CommandKind::Other);
    assert_eq!(classify_command("begin  transaction"), CommandKind::Other);
    assert_eq!(classify_command("drop"), CommandKind::DropUsage);
    assert_eq!(classify_command("drop table"), CommandKind::DropTableUsage);
    assert_eq!(classify_command("drop table users;"), CommandKind::Drop("users".to_string()));
    assert_eq!(classify_command("drop users;;"), CommandKind::Drop("users".to_string()));
    assert_eq!(classify_command("drop\ttable\n users extra"), CommandKind::Drop("users".to_string()));
    assert_eq!(classify_command("drop ;"), CommandKind::Drop("".to_string()));
    assert_eq!(classify_command("select 1;"), CommandKind::Other);
    assert_eq!(classify_command(""), CommandKind::Other);
}

#[test]
fn guard_takes_control_statements_in_any_case() {
    let conn = database();
    let mut manager = TransactionManager::new();
    assert_eq!(
        manager.handle_sql_command(&conn, "BEGIN").unwrap(),
        Intercept::Handled(Notice::Started)
    );
    assert!(manager.is_active());
    assert_eq!(
        manager.handle_sql_command(&conn, "Begin Transaction").unwrap(),
        Intercept::Handled(Notice::AlreadyActive)
    );
    assert_eq!(
        manager.handle_sql_command(&conn, "  RollBack  ").unwrap(),
        Intercept::Handled(Notice::RolledBack)
    );
    assert!(!manager.is_active());
    assert_eq!(
        manager.handle_sql_command(&conn, "COMMIT TRANSACTION").unwrap(),
        Intercept::Handled(Notice::NothingToCommit)
    );
    assert_eq!(manager.handle_sql_command(&conn, "SELECT 1;").unwrap(), Intercept::NotMine);
    assert_eq!(manager.handle_sql_command(&conn, "COMMIT;").unwrap(), Intercept::NotMine);
}

#[test]
fn drop_of_a_missing_table_is_reported_and_not_issued() {
    let conn = database();
    let mut manager = TransactionManager::new();
    // SQLite refuses to drop a table that is not there, so an Ok shows that
    // the statement was not issued.
    let answer = manager.handle_sql_command(&conn, "DROP TABLE ghosts;").unwrap();
    assert_eq!(answer, Intercept::Handled(Notice::TableMissing("ghosts".to_string())));
    assert_eq!(
        Notice::TableMissing("ghosts".to_string()).message(),
        "Table 'ghosts' does not exist"
    );
    assert_eq!(
        count(&conn, "SELECT COUNT(*) FROM sqlite_master WHERE type='table'"),
        1
    );
    assert!(!manager.is_active());
}

#[test]
fn drop_of_a_present_table_drops_it() {
    let conn = database();
    let mut manager = TransactionManager::new();
    let answer = manager.handle_sql_command(&conn, "drop test;").unwrap();
    assert_eq!(answer, Intercept::Handled(Notice::TableDropped("test".to_string())));
    assert_eq!(
        Notice::TableDropped("test".to_string()).message(),
        "Table 'test' dropped successfully"
    );
    assert_eq!(
        count(&conn, "SELECT COUNT(*) FROM sqlite_master WHERE type='table'"),
        0
    );
    assert_eq!(
        manager.handle_sql_command(&conn, "DROP").unwrap(),
        Intercept::Handled(Notice::DropUsage)
    );
    assert_eq!(
        manager.handle_sql_command(&conn, "drop table").unwrap(),
        Intercept::Handled(Notice::DropTableUsage)
    );
    assert_eq!(Notice::DropUsage.message(), "Usage: DROP TABLE table_name; or DROP table_name;");
    assert_eq!(Notice::DropTableUsage.message(), "Usage: DROP TABLE table_name;");
}

#[test]
fn the_catalog_answer_decides_the_drop() {
    match after_lookup("t".to_string(), Ok(0)).unwrap() {
        DropPlan::Missing(table) => assert_eq!(table, "t"),
        DropPlan::Issue { .. } => panic!("nothing is issued for a missing table"),
    }
    match after_lookup("t".to_string(), Ok(1)).unwrap() {
        DropPlan::Issue { table, statement } => {
            assert_eq!(table, "t");
            assert_eq!(statement, "DROP TABLE t");
        }
        DropPlan::Missing(_) => panic!("the table is there"),
    }
    let failed = after_lookup("t".to_string(), Err(rusqlite::Error::InvalidQuery)).unwrap_err();
    assert_eq!(failed.step, FailedStep::TableLookup("t".to_string()));
    assert_eq!(after_drop("t".to_string(), Ok(0)).unwrap(), Notice::TableDropped("t".to_string()));
    let failed = after_drop("t".to_string(), Err(rusqlite::Error::InvalidQuery)).unwrap_err();
    assert_eq!(failed.step, FailedStep::DropTable("t".to_string()));
}

#[test]
fn end_of_session_rolls_an_open_transaction_back() {
    let conn = database();
    let mut manager = TransactionManager::new();
    let (rolled_back, failure) = manager.end_session(&conn);
    assert!(!rolled_back);
    assert!(failure.is_none());
    manager.begin_transaction(&conn).unwrap();
    conn.execute("INSERT INTO test (name) VALUES ('lost')", []).unwrap();
    let (rolled_back, failure) = manager.end_session(&conn);
    assert!(rolled_back);
    assert!(failure.is_none());
    assert!(!manager.is_active());
    assert_eq!(count(&conn, "SELECT COUNT(*) FROM test"), 0);
    // A rollback that the database refuses is handed back, not raised.
    manager.begin_transaction(&conn).unwrap();
    conn.execute("COMMIT", []).unwrap();
    let (rolled_back, failure) = manager.end_session(&conn);
    assert!(rolled_back);
    assert_eq!(failure.unwrap().step, FailedStep::Rollback);
}
