//! Single operations, with each reply given by hand.
use pg_connection::connection::{AnsiTransactionManager, PgConnection};
use pg_connection::copy::{
    CopyFromAnswer, CopyFromError, CopyFromReply, CopyFromRequest, CopyFromStep, CopyToBuffer,
};
use pg_connection::error::{
    ConnectionError, DatabaseErrorInformation, DatabaseErrorKind, Error, NulError, QueryResult,
};
use pg_connection::establish::{EstablishReply, EstablishRequest};
use pg_connection::instrumentation::{DynInstrumentation, InstrumentationEvent};
use pg_connection::load::{Cursor, DefaultLoadingMode, PgRowByRowLoadingMode, RowByRowCursor};
use pg_connection::query::{Answer, CollectedBinds, Query, Reply, Request, Step};
use pg_connection::raw::{
    ExecReply, NoticeProcessor, PgNotification, PgResult, PgTransactionStatus,
};
use pg_connection::statement_cache::{
    CacheSize, CachedType, MaybeCached, PgTypeMetadata, RenderedQuery, Statement,
};
use pg_connection::text::{append_decimal, CString};
use pg_connection::transaction_builder::TransactionError;
use pg_connection::transaction_status::{
    InTransactionStatus, TransactionDepthChange, TransactionManagerStatus,
    ValidTransactionManagerStatus,
};

const IDLE: PgTransactionStatus = PgTransactionStatus::Idle;

fn server_error(message: &str) -> Error {
    Error::DatabaseError(
        DatabaseErrorKind::Unknown,
        DatabaseErrorInformation::from_message(message.to_string()),
    )
}

fn rows(rows_affected: usize) -> PgResult {
    PgResult { handle: 5, rows_affected }
}

fn no_binds() -> Answer {
    Answer::Binds(Ok(CollectedBinds { binds: vec![], metadata: vec![] }))
}

fn idle(answer: Answer) -> Reply {
    Reply { answer, transaction_status: IDLE }
}

/// A connection that was just established, and that somebody listens to.
fn fresh() -> PgConnection {
    let mut attempt = PgConnection::establish("pg", DynInstrumentation::none());
    loop {
        let reply = match attempt.request() {
            EstablishRequest::Connect { .. } => {
                EstablishReply::Connected { result: Ok(()), transaction_status: IDLE }
            }
            EstablishRequest::Query(Request::CollectBinds) => EstablishReply::Query(idle(no_binds())),
            EstablishRequest::Query(Request::Prepare { .. }) => {
                EstablishReply::Query(idle(Answer::Prepared(Ok(Statement { handle: 0 }))))
            }
            EstablishRequest::Query(Request::Execute { .. }) => {
                EstablishReply::Query(idle(Answer::Executed(Ok(rows(0)))))
            }
            EstablishRequest::Query(Request::NextResult) => {
                EstablishReply::Query(idle(Answer::NextResult(Ok(None))))
            }
        };
        match attempt.resume(reply) {
            Step::Pending(next) => attempt = next,
            Step::Done(result) => {
                let mut conn = result.unwrap();
                conn.set_instrumentation(DynInstrumentation::listening());
                return conn;
            }
        }
    }
}

fn pending<Operation, Outcome>(step: Step<Operation, Outcome>) -> Operation {
    match step {
        Step::Pending(operation) => operation,
        Step::Done(_) => panic!("the operation has ended"),
    }
}

fn done<Operation, Outcome>(step: Step<Operation, Outcome>) -> Outcome {
    match step {
        Step::Pending(_) => panic!("the operation has not ended"),
        Step::Done(outcome) => outcome,
    }
}

fn status(
    transaction_depth: u32,
    requires_rollback_maybe_up_to_top_level: bool,
) -> TransactionManagerStatus {
    TransactionManagerStatus::Valid(ValidTransactionManagerStatus {
        in_transaction: Some(InTransactionStatus {
            transaction_depth,
            requires_rollback_maybe_up_to_top_level,
            test_transaction: false,
        }),
    })
}

fn start(query: &str) -> InstrumentationEvent {
    InstrumentationEvent::StartQuery { query: query.to_string() }
}

fn finish(query: &str, error: Option<Error>) -> InstrumentationEvent {
    InstrumentationEvent::FinishQuery { query: query.to_string(), error }
}

fn events(conn: &mut PgConnection) -> Vec<InstrumentationEvent> {
    conn.instrumentation().take_events()
}

fn record(conn: &mut PgConnection) -> TransactionManagerStatus {
    conn.transaction_state().status
}

/// A query whose statement may be kept.
fn kept(sql: &str, query_id: Option<u64>) -> Query {
    Query {
        debug: sql.to_string(),
        rendered: Ok(RenderedQuery {
            sql: sql.to_string(),
            query_id,
            is_safe_to_cache_prepared: true,
        }),
    }
}

fn ok_exec(transaction_status: PgTransactionStatus) -> ExecReply {
    ExecReply { result: Ok(rows(0)), transaction_status }
}

fn failed_exec(message: &str, transaction_status: PgTransactionStatus) -> ExecReply {
    ExecReply { result: Err(server_error(message)), transaction_status }
}

#[test]
fn the_record_follows_the_server() {
    let idle_record = TransactionManagerStatus::default();
    let broken = TransactionManagerStatus::InError;
    let sound = status(2, false);
    let failed = status(2, true);
    let after = |mut record: TransactionManagerStatus, server, is_err| {
        record.update(server, is_err);
        record
    };
    for record in [idle_record, broken, sound, failed] {
        for is_err in [false, true] {
            assert_eq!(after(record, PgTransactionStatus::Idle, is_err), idle_record);
            assert_eq!(after(record, PgTransactionStatus::Unknown, is_err), broken);
            assert_eq!(after(record, PgTransactionStatus::Active, is_err), record);
        }
    }
    for is_err in [false, true] {
        assert_eq!(after(sound, PgTransactionStatus::InError, is_err), failed);
        assert_eq!(after(failed, PgTransactionStatus::InError, is_err), failed);
        assert_eq!(after(idle_record, PgTransactionStatus::InError, is_err), idle_record);
        assert_eq!(after(broken, PgTransactionStatus::InError, is_err), broken);
        assert_eq!(after(broken, PgTransactionStatus::InTransaction, is_err), broken);
    }
    assert_eq!(after(failed, PgTransactionStatus::InTransaction, false), sound);
    assert_eq!(after(sound, PgTransactionStatus::InTransaction, false), sound);
    assert_eq!(after(idle_record, PgTransactionStatus::InTransaction, false), idle_record);
    assert_eq!(after(failed, PgTransactionStatus::InTransaction, true), failed);
    assert_eq!(after(sound, PgTransactionStatus::InTransaction, true), sound);
    assert_eq!(after(idle_record, PgTransactionStatus::InTransaction, true), broken);
}

#[test]
fn following_the_server_twice_changes_nothing() {
    let servers = [
        PgTransactionStatus::Idle,
        PgTransactionStatus::Active,
        PgTransactionStatus::InTransaction,
        PgTransactionStatus::InError,
        PgTransactionStatus::Unknown,
    ];
    for server in servers {
        for is_err in [false, true] {
            let mut once = status(3, false);
            once.update(server, is_err);
            let mut twice = once;
            twice.update(server, is_err);
            assert_eq!(once, twice);
        }
    }
}

#[test]
fn a_batch_is_sent_and_reported_once() {
    let mut conn = fresh();
    let batch = conn.batch_execute("SELECT 1; SELECT 2").unwrap();
    assert_eq!(batch.c_query().as_bytes(), b"SELECT 1; SELECT 2");
    assert_eq!(batch.resume(&mut conn, ok_exec(IDLE)), Ok(()));
    let batch = conn.batch_execute("SELECT 3").unwrap();
    assert_eq!(
        batch.resume(&mut conn, failed_exec("no", IDLE)),
        Err(server_error("no"))
    );
    assert_eq!(
        events(&mut conn),
        [
            start("SELECT 1; SELECT 2"),
            finish("SELECT 1; SELECT 2", None),
            start("SELECT 3"),
            finish("SELECT 3", Some(server_error("no"))),
        ]
    );
}

#[test]
fn a_batch_with_a_nul_character_is_not_sent() {
    let mut conn = fresh();
    conn.transaction_state().status = status(1, true);
    let refused = conn.batch_execute("SELECT '\u{e9}\0', '\0'");
    assert_eq!(
        refused,
        Err(Error::InvalidCString(NulError {
            position: 10,
            data: "SELECT '\u{e9}\0', '\0'".to_string(),
        }))
    );
    assert_eq!(events(&mut conn), [start("SELECT '\u{e9}\0', '\0'")]);
    assert_eq!(record(&mut conn), status(1, true));
}

#[test]
fn texts_for_libpq_hold_no_nul_byte() {
    assert_eq!(CString::new("").unwrap().as_bytes(), b"");
    assert_eq!(CString::new("\u{20ac}1").unwrap().as_bytes(), [0xe2, 0x82, 0xac, b'1']);
    assert_eq!(
        CString::new("\0"),
        Err(NulError { position: 0, data: "\0".to_string() })
    );
}

#[test]
fn numbers_are_written_in_decimal() {
    for (number, expected) in [(0, "n0"), (9, "n9"), (10, "n10"), (u32::MAX, "n4294967295")] {
        let mut text = "n".to_string();
        append_decimal(&mut text, number);
        assert_eq!(text, expected);
    }
}

#[test]
fn a_depth_that_cannot_grow_stays() {
    let mut conn = fresh();
    conn.transaction_state().status = status(u32::MAX, false);
    let begin = AnsiTransactionManager::begin_transaction(&mut conn).unwrap();
    assert_eq!(begin.c_query().as_bytes(), b"SAVEPOINT diesel_savepoint_4294967295");
    assert_eq!(
        begin.resume(&mut conn, ok_exec(PgTransactionStatus::InTransaction)),
        Ok(())
    );
    assert_eq!(record(&mut conn), status(u32::MAX, false));
    assert_eq!(events(&mut conn)[0], InstrumentationEvent::BeginTransaction { depth: 1 });
}

#[test]
fn levels_are_added_and_taken_away() {
    let mut valid = ValidTransactionManagerStatus { in_transaction: None };
    assert_eq!(
        valid.change_transaction_depth(TransactionDepthChange::DecreaseDepth),
        Err(Error::NotInTransaction)
    );
    for depth in 1..4 {
        valid.change_transaction_depth(TransactionDepthChange::IncreaseDepth).unwrap();
        assert_eq!(valid.transaction_depth(), Some(depth));
    }
    for depth in [Some(2), Some(1), None] {
        valid.change_transaction_depth(TransactionDepthChange::DecreaseDepth).unwrap();
        assert_eq!(valid.transaction_depth(), depth);
    }
}

#[test]
fn a_level_is_not_recorded_on_a_lost_connection() {
    let mut conn = fresh();
    let begin = AnsiTransactionManager::begin_transaction(&mut conn).unwrap();
    assert_eq!(
        begin.resume(&mut conn, ok_exec(PgTransactionStatus::Unknown)),
        Err(Error::BrokenTransactionManager)
    );
}

#[test]
fn a_begin_that_fails_opens_nothing() {
    let mut conn = fresh();
    let begin = AnsiTransactionManager::begin_transaction(&mut conn).unwrap();
    assert_eq!(
        begin.resume(&mut conn, failed_exec("no", IDLE)),
        Err(server_error("no"))
    );
    assert_eq!(record(&mut conn), TransactionManagerStatus::default());
}

#[test]
fn a_begin_command_with_a_nul_character_is_refused() {
    let mut conn = fresh();
    assert_eq!(
        AnsiTransactionManager::begin_transaction_sql(&mut conn, "BEGIN\0"),
        Err(Error::InvalidCString(NulError { position: 5, data: "BEGIN\0".to_string() }))
    );
    assert_eq!(
        events(&mut conn),
        [InstrumentationEvent::BeginTransaction { depth: 1 }, start("BEGIN\0")]
    );
    assert_eq!(record(&mut conn), TransactionManagerStatus::default());
}

#[test]
fn a_failed_commit_is_followed_by_a_rollback() {
    let mut conn = fresh();
    conn.transaction_state().status = status(2, false);
    let commit = AnsiTransactionManager::commit_transaction(&mut conn).unwrap();
    assert_eq!(commit.c_query().as_bytes(), b"RELEASE SAVEPOINT diesel_savepoint_1");
    let rollback = pending(
        commit.resume(&mut conn, failed_exec("commit", PgTransactionStatus::InError)),
    );
    assert_eq!(rollback.c_query().as_bytes(), b"ROLLBACK TO SAVEPOINT diesel_savepoint_1");
    assert_eq!(
        done(rollback.resume(&mut conn, ok_exec(PgTransactionStatus::InTransaction))),
        Err(server_error("commit"))
    );
    assert_eq!(record(&mut conn), status(1, false));
}

#[test]
fn both_errors_of_a_commit_and_its_rollback_are_told() {
    let mut conn = fresh();
    conn.transaction_state().status = status(1, false);
    let commit = AnsiTransactionManager::commit_transaction(&mut conn).unwrap();
    let rollback = pending(
        commit.resume(&mut conn, failed_exec("commit", PgTransactionStatus::InError)),
    );
    assert_eq!(
        done(rollback.resume(&mut conn, failed_exec("rollback", PgTransactionStatus::InError))),
        Err(Error::RollbackErrorOnCommit {
            rollback_error: Box::new(server_error("rollback")),
            commit_error: Box::new(server_error("commit")),
        })
    );
    assert_eq!(record(&mut conn), TransactionManagerStatus::InError);
}

#[test]
fn a_failed_commit_that_leaves_the_block_needs_no_rollback() {
    let mut conn = fresh();
    conn.transaction_state().status = status(1, false);
    let commit = AnsiTransactionManager::commit_transaction(&mut conn).unwrap();
    assert_eq!(
        done(commit.resume(&mut conn, failed_exec("commit", IDLE))),
        Err(server_error("commit"))
    );
    assert_eq!(record(&mut conn), TransactionManagerStatus::default());
}

#[test]
fn a_failed_savepoint_rollback_is_passed_over_once_expected() {
    for (required, told) in [(true, Ok(())), (false, Err(server_error("no")))] {
        let mut conn = fresh();
        conn.transaction_state().status = status(3, required);
        let rollback = AnsiTransactionManager::rollback_transaction(&mut conn).unwrap();
        assert_eq!(rollback.c_query().as_bytes(), b"ROLLBACK TO SAVEPOINT diesel_savepoint_2");
        assert_eq!(
            rollback.resume(&mut conn, failed_exec("no", PgTransactionStatus::InError)),
            told
        );
        assert_eq!(record(&mut conn), status(2, true));
    }
}

#[test]
fn a_failed_rollback_of_the_top_level_breaks_the_record_unless_the_block_is_gone() {
    for (server, left) in [
        (PgTransactionStatus::InTransaction, TransactionManagerStatus::InError),
        (PgTransactionStatus::Idle, TransactionManagerStatus::default()),
    ] {
        let mut conn = fresh();
        conn.transaction_state().status = status(1, false);
        let rollback = AnsiTransactionManager::rollback_transaction(&mut conn).unwrap();
        assert_eq!(rollback.c_query().as_bytes(), b"ROLLBACK");
        assert_eq!(
            rollback.resume(&mut conn, failed_exec("no", server)),
            Err(server_error("no"))
        );
        assert_eq!(record(&mut conn), left);
    }
}

#[test]
fn work_on_a_broken_record_is_told_by_its_own_error() {
    let mut conn = fresh();
    conn.transaction_state().status = TransactionManagerStatus::InError;
    assert_eq!(
        done(conn.conclude_transaction::<(), &str>(Err("work"))),
        Err(TransactionError::Callback("work"))
    );
    assert_eq!(
        done(conn.conclude_transaction::<u8, &str>(Ok(1))),
        Err(TransactionError::Query(Error::BrokenTransactionManager))
    );
    conn.transaction_state().status = TransactionManagerStatus::default();
    assert_eq!(
        done(conn.conclude_transaction::<(), &str>(Err("work"))),
        Err(TransactionError::Query(Error::NotInTransaction))
    );
}

#[test]
fn work_is_concluded_by_its_outcome() {
    let mut conn = fresh();
    conn.transaction_state().status = status(1, false);
    let commit = pending(conn.conclude_transaction::<u8, &str>(Ok(9)));
    assert_eq!(commit.c_query().as_bytes(), b"COMMIT");
    assert_eq!(done(commit.resume(&mut conn, ok_exec(IDLE))), Ok(9));
    conn.transaction_state().status = status(1, false);
    let rollback = pending(conn.conclude_transaction::<u8, &str>(Err("work")));
    assert_eq!(rollback.c_query().as_bytes(), b"ROLLBACK");
    assert_eq!(
        done(rollback.resume(&mut conn, ok_exec(IDLE))),
        Err(TransactionError::Callback("work"))
    );
    conn.transaction_state().status = status(1, false);
    let rollback = pending(conn.conclude_transaction::<u8, &str>(Err("work")));
    assert_eq!(
        done(rollback.resume(&mut conn, failed_exec("rollback", IDLE))),
        Err(TransactionError::Query(server_error("rollback")))
    );
}

#[test]
fn an_execution_counts_its_first_result() {
    let mut conn = fresh();
    let execution = conn.execute_returning_count(kept("UPDATE", None));
    assert_eq!(execution.request(), Request::CollectBinds);
    let execution = pending(execution.resume(&mut conn, idle(no_binds())));
    assert_eq!(
        execution.request(),
        Request::Prepare { sql: &"UPDATE".to_string(), bind_types: &vec![], for_cache: true }
    );
    let statement = Statement { handle: 3 };
    let execution =
        pending(execution.resume(&mut conn, idle(Answer::Prepared(Ok(statement)))));
    assert_eq!(
        execution.request(),
        Request::Execute {
            statement: MaybeCached::Cached(statement),
            binds: &vec![],
            row_by_row: false,
        }
    );
    let execution = pending(execution.resume(&mut conn, idle(Answer::Executed(Ok(rows(4))))));
    assert_eq!(execution.request(), Request::NextResult);
    let execution =
        pending(execution.resume(&mut conn, idle(Answer::NextResult(Ok(Some(rows(8)))))));
    assert_eq!(done(execution.resume(&mut conn, idle(Answer::NextResult(Ok(None))))), Ok(4));
    assert_eq!(
        events(&mut conn),
        [
            start("UPDATE"),
            InstrumentationEvent::CacheQuery { sql: "UPDATE".to_string() },
            finish("UPDATE", None),
        ]
    );
}

#[test]
fn an_error_among_further_results_replaces_the_count() {
    for executed in [Ok(rows(4)), Err(server_error("first"))] {
        let mut conn = fresh();
        let execution = conn.execute_returning_count(Query::sql_query("UPDATE"));
        let execution = pending(execution.resume(&mut conn, idle(no_binds())));
        let execution = pending(
            execution.resume(&mut conn, idle(Answer::Prepared(Ok(Statement { handle: 3 })))),
        );
        let execution = pending(execution.resume(&mut conn, idle(Answer::Executed(executed))));
        assert_eq!(
            done(execution.resume(
                &mut conn,
                idle(Answer::NextResult(Err(server_error("later"))))
            )),
            Err(server_error("later"))
        );
        assert_eq!(
            events(&mut conn),
            [
                start("UPDATE -- binds: []"),
                finish("UPDATE -- binds: []", Some(server_error("later"))),
            ]
        );
    }
}

#[test]
fn an_execution_reports_every_failure_once() {
    let query = || Query {
        debug: "debug".to_string(),
        rendered: Err(Error::QueryBuilderError("unwritable".to_string())),
    };
    let mut conn = fresh();
    let execution = conn.execute_returning_count(query());
    let error = Error::QueryBuilderError("unwritable".to_string());
    assert_eq!(
        done(execution.resume(&mut conn, idle(no_binds()))),
        Err(error.clone())
    );
    assert_eq!(events(&mut conn), [start("debug"), finish("debug", Some(error))]);

    let execution = conn.execute_returning_count(query());
    let error = Error::SerializationError("unbindable".to_string());
    assert_eq!(
        done(execution.resume(&mut conn, idle(Answer::Binds(Err(error.clone()))))),
        Err(error.clone())
    );
    assert_eq!(events(&mut conn), [start("debug"), finish("debug", Some(error))]);
}

#[test]
fn a_kept_statement_is_not_prepared_twice() {
    let mut conn = fresh();
    let statement = Statement { handle: 3 };
    let keep = |conn: &mut PgConnection, query: Query| {
        let prepare = conn.with_prepared_query(query, true);
        prepare.resume(conn, idle(no_binds()))
    };
    let prepare = pending(keep(&mut conn, kept("SELECT 1", None)));
    let first = done(prepare.resume(&mut conn, idle(Answer::Prepared(Ok(statement))))).unwrap();
    assert_eq!(first.statement, MaybeCached::Cached(statement));
    let again = done(keep(&mut conn, kept("SELECT 1", None))).unwrap();
    assert_eq!(again.statement, MaybeCached::Cached(statement));

    // Other bind types, another text or a number of its own take another statement.
    let prepare = conn.with_prepared_query(kept("SELECT 1", None), true);
    let typed = Answer::Binds(Ok(CollectedBinds {
        binds: vec![None],
        metadata: vec![PgTypeMetadata { oid: 23, array_oid: 1007 }],
    }));
    pending(prepare.resume(&mut conn, idle(typed)));
    pending(keep(&mut conn, kept("SELECT 2", None)));
    let prepare = pending(keep(&mut conn, kept("SELECT 1", Some(7))));
    let numbered = Statement { handle: 4 };
    done(prepare.resume(&mut conn, idle(Answer::Prepared(Ok(numbered))))).unwrap();
    let found = done(keep(&mut conn, kept("whatever", Some(7)))).unwrap();
    assert_eq!(found.statement, MaybeCached::Cached(numbered));

    // The same size changes nothing, another one empties the cache.
    conn.set_prepared_statement_cache_size(CacheSize::Unbounded);
    done(keep(&mut conn, kept("SELECT 1", None))).unwrap();
    conn.set_prepared_statement_cache_size(CacheSize::Disabled);
    let prepare = pending(keep(&mut conn, kept("SELECT 1", None)));
    assert!(matches!(prepare.request(), Request::Prepare { for_cache: false, .. }));
    let unkept = done(prepare.resume(&mut conn, idle(Answer::Prepared(Ok(statement))))).unwrap();
    assert_eq!(unkept.statement, MaybeCached::CannotCache(statement));
    conn.set_prepared_statement_cache_size(CacheSize::Unbounded);
    pending(keep(&mut conn, kept("SELECT 1", None)));
}

#[test]
fn a_statement_that_cannot_be_prepared_is_reported_once() {
    for (returning_count, reported) in [(true, 1), (false, 2)] {
        let mut conn = fresh();
        let prepare = conn.with_prepared_query(Query::sql_query("SELECT"), returning_count);
        let prepare = pending(prepare.resume(&mut conn, idle(no_binds())));
        assert_eq!(
            done(prepare.resume(&mut conn, idle(Answer::Prepared(Err(server_error("no")))))),
            Err(server_error("no"))
        );
        assert_eq!(events(&mut conn).len(), reported);
    }
}

#[test]
fn all_rows_are_loaded_at_once_by_default() {
    let mut conn = fresh();
    let mut cursors = Vec::new();
    for handle in [1, 2] {
        let load = conn.load(Query::sql_query("SELECT 1"), DefaultLoadingMode);
        let load = pending(load.resume(&mut conn, idle(no_binds())));
        let load =
            pending(load.resume(&mut conn, idle(Answer::Prepared(Ok(Statement { handle: 0 })))));
        assert!(matches!(load.request(), Request::Execute { row_by_row: false, .. }));
        let result = PgResult { handle, rows_affected: 0 };
        let load = pending(load.resume(&mut conn, idle(Answer::Executed(Ok(result)))));
        assert_eq!(events(&mut conn), [start("SELECT 1 -- binds: []")]);
        assert_eq!(load.request(), Request::NextResult);
        cursors.push(done(load.resume(&mut conn, idle(Answer::NextResult(Ok(None))))).unwrap());
        assert_eq!(events(&mut conn), [finish("SELECT 1 -- binds: []", None)]);
    }
    // Two cursors of one connection are there at the same time.
    for (cursor, handle) in cursors.iter().zip([1, 2]) {
        let db_result = PgResult { handle, rows_affected: 0 };
        assert_eq!(*cursor, Cursor { current_row: 0, db_result });
    }
}

#[test]
fn rows_are_loaded_one_by_one_on_demand() {
    let mut conn = fresh();
    let load = conn.load(Query::sql_query("SELECT 1"), PgRowByRowLoadingMode);
    let load = pending(load.resume(&mut conn, idle(no_binds())));
    let load = pending(load.resume(&mut conn, idle(Answer::Prepared(Ok(Statement { handle: 0 })))));
    assert!(matches!(load.request(), Request::Execute { row_by_row: true, .. }));
    assert_eq!(
        done(load.resume(&mut conn, idle(Answer::Executed(Ok(rows(0)))))),
        Ok(RowByRowCursor {
            first_row: rows(0),
            source: "SELECT 1 -- binds: []".to_string(),
        })
    );
    // The end of the query is left to the cursor.
    assert_eq!(events(&mut conn), [start("SELECT 1 -- binds: []")]);
}

#[test]
fn loading_fails_with_its_execution_or_its_cursor() {
    let mut conn = fresh();
    conn.transaction_state().status = status(1, false);
    let failed = |answer| Reply { answer, transaction_status: PgTransactionStatus::InError };
    let load = conn.load(Query::sql_query("SELECT 1"), DefaultLoadingMode);
    let load = pending(load.resume(&mut conn, idle(no_binds())));
    let load = pending(load.resume(&mut conn, idle(Answer::Prepared(Ok(Statement { handle: 0 })))));
    assert_eq!(
        done(load.resume(&mut conn, failed(Answer::Executed(Err(server_error("no")))))),
        Err(server_error("no"))
    );
    assert_eq!(record(&mut conn), status(1, true));

    let load = conn.load(Query::sql_query("SELECT 1"), DefaultLoadingMode);
    let load = pending(load.resume(&mut conn, idle(no_binds())));
    let load = pending(load.resume(&mut conn, idle(Answer::Prepared(Ok(Statement { handle: 0 })))));
    let sound = Reply {
        answer: Answer::Executed(Ok(rows(0))),
        transaction_status: PgTransactionStatus::InTransaction,
    };
    let load = pending(load.resume(&mut conn, sound));
    assert_eq!(record(&mut conn), status(1, false));
    assert_eq!(
        done(load.resume(&mut conn, failed(Answer::NextResult(Err(server_error("late")))))),
        Err(server_error("late"))
    );
    assert_eq!(record(&mut conn), status(1, true));
    let query = "SELECT 1 -- binds: []";
    assert_eq!(
        events(&mut conn),
        [
            start(query),
            finish(query, Some(server_error("no"))),
            start(query),
            finish(query, Some(server_error("late"))),
        ]
    );
}

#[test]
fn the_end_of_a_load_without_binds_is_not_reported() {
    let mut conn = fresh();
    let load = conn.load(Query::sql_query("SELECT 1"), DefaultLoadingMode);
    let error = Error::SerializationError("unbindable".to_string());
    let answer = Answer::Binds(Err(error.clone()));
    assert_eq!(done(load.resume(&mut conn, idle(answer))), Err(error));
    assert_eq!(events(&mut conn), [start("SELECT 1 -- binds: []")]);
}

/// Runs a copy whose command is prepared and executed, with the given answers from then on.
fn copy_in(
    conn: &mut PgConnection,
    executed: QueryResult<PgResult>,
    answers: Vec<CopyFromAnswer>,
) -> CopyFromStep {
    let reply = |answer| CopyFromReply { answer, transaction_status: IDLE };
    let mut all = vec![
        CopyFromAnswer::Query(no_binds()),
        CopyFromAnswer::Query(Answer::Prepared(Ok(Statement { handle: 0 }))),
        CopyFromAnswer::Query(Answer::Executed(executed)),
    ];
    all.extend(answers);
    let mut step = Step::Pending(conn.copy_from(Query::sql_query("COPY")));
    for answer in all {
        let copy = pending(step);
        assert!(copy.request().is_answered_by(&answer));
        step = copy.resume(conn, reply(answer));
    }
    step
}

fn next_result(next: QueryResult<Option<PgResult>>) -> CopyFromAnswer {
    CopyFromAnswer::Query(Answer::NextResult(next))
}

const COPY: &str = "COPY -- binds: []";

#[test]
fn copied_rows_are_counted() {
    let mut conn = fresh();
    let copied = copy_in(
        &mut conn,
        Ok(rows(0)),
        vec![
            CopyFromAnswer::Sent(Ok(())),
            CopyFromAnswer::Finished(Ok(())),
            next_result(Ok(Some(rows(6)))),
            next_result(Ok(Some(rows(9)))),
            next_result(Ok(None)),
        ],
    );
    assert_eq!(done(copied), Ok(6));
    assert_eq!(events(&mut conn), [start(COPY), finish(COPY, None)]);
}

#[test]
fn a_caller_that_fails_to_produce_data_is_told_in_the_end() {
    let mut conn = fresh();
    let copy = pending(copy_in(
        &mut conn,
        Ok(rows(0)),
        vec![CopyFromAnswer::Sent(Err("mine".to_string()))],
    ));
    assert_eq!(copy.request(), CopyFromRequest::Finish { error: Some(&"mine".to_string()) });
    events(&mut conn);

    let copy = pending(copy_in(
        &mut conn,
        Ok(rows(0)),
        vec![
            CopyFromAnswer::Sent(Err("mine".to_string())),
            CopyFromAnswer::Finished(Ok(())),
            next_result(Ok(Some(rows(6)))),
            next_result(Ok(None)),
        ],
    ));
    assert_eq!(copy.request(), CopyFromRequest::Describe { error: &CopyFromError::Callback });
    let described = CopyFromReply {
        answer: CopyFromAnswer::Described("mine".to_string()),
        transaction_status: IDLE,
    };
    assert_eq!(done(copy.resume(&mut conn, described)), Err(CopyFromError::Callback));
    assert_eq!(events(&mut conn), [start(COPY), finish(COPY, Some(server_error("mine")))]);
}

#[test]
fn the_first_failure_of_a_copy_is_its_outcome() {
    let sent = || CopyFromAnswer::Sent(Err("mine".to_string()));
    let finished = || CopyFromAnswer::Finished(Ok(()));
    let missing = Error::DeserializationError(
        "Failed to receive result from the database".to_string(),
    );
    let attempts = [
        (Err(server_error("execute")), vec![], server_error("execute")),
        (
            Ok(rows(0)),
            vec![sent(), CopyFromAnswer::Finished(Err(server_error("finish")))],
            server_error("finish"),
        ),
        (
            Ok(rows(0)),
            vec![sent(), finished(), next_result(Err(server_error("receive")))],
            server_error("receive"),
        ),
        (Ok(rows(0)), vec![sent(), finished(), next_result(Ok(None))], missing),
        (
            Ok(rows(0)),
            vec![
                sent(),
                finished(),
                next_result(Ok(Some(rows(6)))),
                next_result(Err(server_error("drain"))),
            ],
            server_error("drain"),
        ),
    ];
    for (executed, answers, error) in attempts {
        let mut conn = fresh();
        conn.transaction_state().status = status(1, false);
        let copy = pending(copy_in(&mut conn, executed, answers));
        let expected = CopyFromError::Query(error);
        assert_eq!(copy.request(), CopyFromRequest::Describe { error: &expected });
        let described = CopyFromReply {
            answer: CopyFromAnswer::Described("in words".to_string()),
            transaction_status: IDLE,
        };
        assert_eq!(done(copy.resume(&mut conn, described)), Err(expected));
        assert_eq!(
            events(&mut conn),
            [start(COPY), finish(COPY, Some(server_error("in words")))]
        );
        // Copying does not touch the record of the transaction.
        assert_eq!(record(&mut conn), status(1, false));
    }
}

#[test]
fn a_copy_command_that_cannot_be_prepared_is_reported_with_its_own_error() {
    let mut conn = fresh();
    let copy = conn.copy_from(Query::sql_query("COPY"));
    let reply = |answer| CopyFromReply {
        answer: CopyFromAnswer::Query(answer),
        transaction_status: IDLE,
    };
    let copy = pending(copy.resume(&mut conn, reply(no_binds())));
    assert_eq!(
        done(copy.resume(&mut conn, reply(Answer::Prepared(Err(server_error("no")))))),
        Err(CopyFromError::Query(server_error("no")))
    );
    assert_eq!(events(&mut conn), [start(COPY), finish(COPY, Some(server_error("no")))]);
}

#[test]
fn data_can_be_read_once_the_copy_is_executed() {
    for executed in [Ok(rows(3)), Err(server_error("no"))] {
        let mut conn = fresh();
        conn.transaction_state().status = status(1, false);
        let copy = conn.copy_to(Query::sql_query("COPY"));
        let copy = pending(copy.resume(&mut conn, idle(no_binds())));
        let copy =
            pending(copy.resume(&mut conn, idle(Answer::Prepared(Ok(Statement { handle: 0 })))));
        let (outcome, error) = match &executed {
            Ok(result) => (Ok(CopyToBuffer { result: *result }), None),
            Err(error) => (Err(error.clone()), Some(error.clone())),
        };
        assert_eq!(
            done(copy.resume(&mut conn, idle(Answer::Executed(executed)))),
            outcome
        );
        assert_eq!(events(&mut conn), [start(COPY), finish(COPY, error)]);
        assert_eq!(record(&mut conn), status(1, false));
    }
}

#[test]
fn a_refused_connection_is_reported() {
    let errors = [
        ConnectionError::BadConnection("refused".to_string()),
        ConnectionError::InvalidConnectionUrl("malformed".to_string()),
        ConnectionError::InvalidCString(NulError { position: 1, data: "p\0".to_string() }),
    ];
    for error in errors {
        let attempt = PgConnection::establish("pg", DynInstrumentation::listening());
        let refused = EstablishReply::Connected {
            result: Err(error.clone()),
            transaction_status: PgTransactionStatus::Unknown,
        };
        let mut failure = done(attempt.resume(refused)).unwrap_err();
        assert_eq!(failure.error, error);
        assert_eq!(
            failure.instrumentation.take_events(),
            [
                InstrumentationEvent::StartEstablishConnection { url: "pg".to_string() },
                InstrumentationEvent::FinishEstablishConnection {
                    url: "pg".to_string(),
                    error: Some(error),
                },
            ]
        );
    }
}

#[test]
fn a_connection_without_its_options_is_given_up() {
    let attempt = PgConnection::establish("pg", DynInstrumentation::listening());
    let connected = EstablishReply::Connected { result: Ok(()), transaction_status: IDLE };
    let attempt = pending(attempt.resume(connected));
    let attempt = pending(attempt.resume(EstablishReply::Query(idle(no_binds()))));
    assert_eq!(
        attempt.request(),
        EstablishRequest::Query(Request::Prepare {
            sql: &"SET TIME ZONE 'UTC'".to_string(),
            bind_types: &vec![],
            for_cache: false,
        })
    );
    let refused = EstablishReply::Query(idle(Answer::Prepared(Err(server_error("no")))));
    let mut failure = done(attempt.resume(refused)).unwrap_err();
    let error = ConnectionError::CouldntSetupConfiguration(server_error("no"));
    assert_eq!(failure.error, error);
    assert_eq!(
        failure.instrumentation.take_events()[1..],
        [InstrumentationEvent::FinishEstablishConnection {
            url: "pg".to_string(),
            error: Some(error),
        }]
    );
}

#[test]
fn notices_are_dropped_once_the_options_are_set() {
    let conn = fresh();
    let raw = &conn.connection_and_transaction_manager.raw_connection;
    assert_eq!(raw.notice_processor, NoticeProcessor::Noop);
    assert_eq!(raw.transaction_status(), IDLE);
}

#[test]
fn notifications_and_failures_come_in_order() {
    let mut conn = fresh();
    let notification = |payload: &str| PgNotification {
        process_id: 1,
        channel: "channel".to_string(),
        payload: payload.to_string(),
    };
    let raw = &mut conn.connection_and_transaction_manager.raw_connection;
    raw.receive(Ok(notification("first")));
    raw.receive(Err(Error::DeserializationError("garbled".to_string())));
    raw.receive(Ok(notification("second")));
    let mut waiting = conn.notifications_iter();
    assert_eq!(waiting.next(), Some(Ok(notification("first"))));
    assert_eq!(
        waiting.next(),
        Some(Err(Error::DeserializationError("garbled".to_string())))
    );
    assert_eq!(waiting.next(), Some(Ok(notification("second"))));
    assert_eq!(waiting.next(), None);
    waiting.raw_connection.receive(Ok(notification("late")));
    assert_eq!(waiting.next(), Some(Ok(notification("late"))));
    assert_eq!(conn.notifications_iter().next(), None);
}

#[test]
fn the_latest_lookup_of_a_type_counts() {
    let mut conn = fresh();
    let looked_up = |schema: Option<&str>, oid: u32| CachedType {
        schema: schema.map(|schema| schema.to_string()),
        name: "mood".to_string(),
        metadata: PgTypeMetadata { oid, array_oid: oid + 1 },
    };
    let cache = conn.get_metadata_cache();
    assert_eq!(cache.lookup_type(&None, "mood"), None);
    cache.store_type(looked_up(None, 10));
    cache.store_type(looked_up(Some("app"), 20));
    cache.store_type(looked_up(None, 30));
    let oid = |found: Option<PgTypeMetadata>| found.map(|found| found.oid);
    assert_eq!(oid(cache.lookup_type(&None, "mood")), Some(30));
    assert_eq!(oid(cache.lookup_type(&Some("app".to_string()), "mood")), Some(20));
    assert_eq!(oid(cache.lookup_type(&Some("other".to_string()), "mood")), None);
    assert_eq!(oid(cache.lookup_type(&None, "moods")), None);
}

#[test]
fn nobody_hears_of_a_connection_without_listeners() {
    let mut conn = fresh();
    conn.set_instrumentation(DynInstrumentation::none());
    conn.batch_execute("SELECT 1").unwrap();
    assert_eq!(events(&mut conn), []);
}

#[test]
fn an_answer_to_something_else_is_passed_over() {
    let misfit = || Reply {
        answer: Answer::NextResult(Ok(None)),
        transaction_status: PgTransactionStatus::Active,
    };
    let mut conn = fresh();
    let execution = conn.execute_returning_count(Query::sql_query("SELECT 1"));
    let execution = pending(execution.resume(&mut conn, misfit()));
    assert_eq!(execution.request(), Request::CollectBinds);
    let raw = &conn.connection_and_transaction_manager.raw_connection;
    assert_eq!(raw.transaction_status(), PgTransactionStatus::Active);
    let load = conn.load(Query::sql_query("SELECT 1"), DefaultLoadingMode);
    assert_eq!(pending(load.resume(&mut conn, misfit())).request(), Request::CollectBinds);
    let copy = conn.copy_to(Query::sql_query("COPY"));
    assert_eq!(pending(copy.resume(&mut conn, misfit())).request(), Request::CollectBinds);
    let copy = conn.copy_from(Query::sql_query("COPY"));
    let reply = CopyFromReply { answer: CopyFromAnswer::Sent(Ok(())), transaction_status: IDLE };
    assert_eq!(
        pending(copy.resume(&mut conn, reply)).request(),
        CopyFromRequest::Query(Request::CollectBinds)
    );
    let attempt = PgConnection::establish("pg", DynInstrumentation::none());
    let attempt = pending(attempt.resume(EstablishReply::Query(misfit())));
    assert_eq!(
        attempt.request(),
        EstablishRequest::Connect { database_url: &"pg".to_string() }
    );
}

#[test]
fn a_cursor_yields_each_row_once() {
    let mut left = Cursor { current_row: 0, db_result: rows(0) };
    let mut right = Cursor { current_row: 0, db_result: rows(0) };
    assert_eq!(left.next_row(2), Some(0));
    assert_eq!(right.next_row(1), Some(0));
    assert_eq!(left.next_row(2), Some(1));
    assert_eq!(left.next_row(2), None);
    assert_eq!(left.next_row(2), None);
    assert_eq!(right.next_row(1), None);
}

#[test]
fn counting_changes_one_report_alone() {
    let failures = [
        vec![Answer::Binds(Err(Error::SerializationError("unbindable".to_string())))],
        vec![no_binds(), Answer::Prepared(Err(server_error("no")))],
        vec![no_binds(), Answer::Prepared(Ok(Statement { handle: 1 }))],
    ];
    for (answers, more) in failures.iter().zip([0, 1, 0]) {
        let mut heard = Vec::new();
        let mut outcomes = Vec::new();
        for counting in [true, false] {
            let mut conn = fresh();
            let mut step =
                Step::Pending(conn.with_prepared_query(Query::sql_query("SELECT"), counting));
            for answer in answers {
                // Answers cannot be copied, so each one is made anew.
                let answer = match answer {
                    Answer::Binds(Ok(_)) => no_binds(),
                    Answer::Binds(Err(error)) => Answer::Binds(Err(error.clone())),
                    Answer::Prepared(Ok(statement)) => Answer::Prepared(Ok(*statement)),
                    Answer::Prepared(Err(error)) => Answer::Prepared(Err(error.clone())),
                    _ => panic!("no other answer is given"),
                };
                step = pending(step).resume(&mut conn, idle(answer));
            }
            heard.push(events(&mut conn));
            outcomes.push(done(step));
        }
        assert_eq!(outcomes[0], outcomes[1]);
        assert_eq!(heard[1][..heard[0].len()], heard[0][..]);
        assert_eq!(heard[1].len(), heard[0].len() + more);
    }
}

#[test]
fn a_bad_connection_breaks_the_record_while_it_is_established() {
    for (server, record_left) in [
        (PgTransactionStatus::Idle, TransactionManagerStatus::default()),
        (PgTransactionStatus::InTransaction, TransactionManagerStatus::default()),
        (PgTransactionStatus::Unknown, TransactionManagerStatus::InError),
    ] {
        let mut attempt = PgConnection::establish("pg", DynInstrumentation::none());
        let mut conn = loop {
            let reply = |answer| EstablishReply::Query(Reply { answer, transaction_status: server });
            let reply = match attempt.request() {
                EstablishRequest::Connect { .. } => {
                    EstablishReply::Connected { result: Ok(()), transaction_status: server }
                }
                EstablishRequest::Query(Request::CollectBinds) => reply(no_binds()),
                EstablishRequest::Query(Request::Prepare { .. }) => {
                    reply(Answer::Prepared(Ok(Statement { handle: 0 })))
                }
                EstablishRequest::Query(Request::Execute { .. }) => {
                    reply(Answer::Executed(Ok(rows(0))))
                }
                EstablishRequest::Query(Request::NextResult) => reply(Answer::NextResult(Ok(None))),
            };
            match attempt.resume(reply) {
                Step::Pending(next) => attempt = next,
                Step::Done(result) => break result.unwrap(),
            }
        };
        assert_eq!(record(&mut conn), record_left);
    }
}

#[test]
fn a_query_ends_with_one_report_after_types_were_looked_up() {
    let mut conn = fresh();
    let execution = conn.execute_returning_count(kept("UPDATE", None));
    // Until the binds are there the connection is used for another query.
    let lookup = conn.load(Query::sql_query("SELECT oid"), DefaultLoadingMode);
    let lookup = pending(lookup.resume(&mut conn, idle(no_binds())));
    let statement = Statement { handle: 1 };
    let lookup = pending(lookup.resume(&mut conn, idle(Answer::Prepared(Ok(statement)))));
    let lookup = pending(lookup.resume(&mut conn, idle(Answer::Executed(Ok(rows(1))))));
    done(lookup.resume(&mut conn, idle(Answer::NextResult(Ok(None))))).unwrap();
    assert_eq!(
        events(&mut conn),
        [
            start("UPDATE"),
            start("SELECT oid -- binds: []"),
            finish("SELECT oid -- binds: []", None),
        ]
    );
    let execution = pending(execution.resume(&mut conn, idle(no_binds())));
    let execution = pending(execution.resume(&mut conn, idle(Answer::Prepared(Ok(statement)))));
    let execution = pending(execution.resume(&mut conn, idle(Answer::Executed(Ok(rows(2))))));
    assert_eq!(done(execution.resume(&mut conn, idle(Answer::NextResult(Ok(None))))), Ok(2));
    assert_eq!(
        events(&mut conn),
        [
            InstrumentationEvent::CacheQuery { sql: "UPDATE".to_string() },
            finish("UPDATE", None),
        ]
    );
}

#[test]
fn a_depth_of_zero_counts_as_the_top_level() {
    let mut conn = fresh();
    conn.transaction_state().status = status(0, false);
    let commit = AnsiTransactionManager::commit_transaction(&mut conn).unwrap();
    assert_eq!(commit.c_query().as_bytes(), b"COMMIT");
    assert_eq!(done(commit.resume(&mut conn, ok_exec(IDLE))), Ok(()));
    conn.transaction_state().status = status(0, false);
    let rollback = AnsiTransactionManager::rollback_transaction(&mut conn).unwrap();
    assert_eq!(rollback.c_query().as_bytes(), b"ROLLBACK");
}

#[test]
fn a_connection_needs_both_options() {
    // Which of the replies fails, if any: connecting, or one of the four of each command.
    for failing in 0..10 {
        let mut attempt = PgConnection::establish("pg", DynInstrumentation::none());
        let mut given = 0;
        let outcome = loop {
            let no = || server_error("no");
            let fails = given == failing;
            let reply = match attempt.request() {
                EstablishRequest::Connect { .. } => EstablishReply::Connected {
                    result: if fails {
                        Err(ConnectionError::BadConnection("no".to_string()))
                    } else {
                        Ok(())
                    },
                    transaction_status: IDLE,
                },
                EstablishRequest::Query(request) => EstablishReply::Query(idle(match request {
                    Request::CollectBinds if fails => Answer::Binds(Err(no())),
                    Request::CollectBinds => no_binds(),
                    Request::Prepare { .. } if fails => Answer::Prepared(Err(no())),
                    Request::Prepare { .. } => Answer::Prepared(Ok(Statement { handle: 0 })),
                    Request::Execute { .. } if fails => Answer::Executed(Err(no())),
                    Request::Execute { .. } => Answer::Executed(Ok(rows(0))),
                    Request::NextResult if fails => Answer::NextResult(Err(no())),
                    Request::NextResult => Answer::NextResult(Ok(None)),
                })),
            };
            given += 1;
            match attempt.resume(reply) {
                Step::Pending(next) => attempt = next,
                Step::Done(outcome) => break outcome,
            }
        };
        assert_eq!(outcome.is_ok(), failing == 9);
    }
}
