//! Whole sessions, against a small stand-in for a server.
use pg_connection::connection::{AnsiTransactionManager, PgConnection};
use pg_connection::error::{DatabaseErrorInformation, DatabaseErrorKind, Error, QueryResult};
use pg_connection::establish::{EstablishReply, EstablishRequest};
use pg_connection::instrumentation::{DynInstrumentation, InstrumentationEvent};
use pg_connection::query::{Answer, CollectedBinds, Query, Reply, Request, Step};
use pg_connection::raw::{
    ExecReply, NoticeProcessor, PgNotification, PgResult, PgTransactionStatus,
};
use pg_connection::statement_cache::{MaybeCached, PgTypeMetadata, RenderedQuery, Statement};
use pg_connection::transaction_builder::{ConcludeStep, TransactionError};
use pg_connection::transaction_manager::BeginTransaction;
use std::cell::RefCell;
use std::collections::BTreeMap;
use std::rc::Rc;

fn database_error(kind: DatabaseErrorKind, message: &str, position: Option<i32>) -> Error {
    Error::DatabaseError(
        kind,
        DatabaseErrorInformation {
            message: message.to_string(),
            details: None,
            hint: None,
            table_name: None,
            column_name: None,
            constraint_name: None,
            statement_position: position,
        },
    )
}

#[derive(Clone, Default)]
struct Table {
    rows: Vec<i32>,
    unique_initially_deferred: bool,
    deferred_trigger: bool,
}

/// What a transaction does to the tables once it is committed.
#[derive(Clone)]
enum Change {
    Drop(String),
    Create(String, bool),
    Trigger(String),
    Insert(String, i32),
}

/// What a committed transaction has read and written.
struct Committed {
    reads: Vec<(String, i32)>,
    writes: Vec<(String, i32)>,
}

/// What the sessions of one server share.
#[derive(Default)]
struct Database {
    tables: BTreeMap<String, Table>,
    history: Vec<Committed>,
}

#[derive(Default)]
struct Transaction {
    serializable: bool,
    /// How much had been committed when it began.
    began: usize,
    changes: Vec<Change>,
    reads: Vec<(String, i32)>,
    /// Each savepoint, with the number of changes before it.
    savepoints: Vec<(String, usize)>,
}

impl Transaction {
    fn writes(&self) -> Vec<(String, i32)> {
        self.changes
            .iter()
            .filter_map(|change| match change {
                Change::Insert(table, value) => Some((table.clone(), *value)),
                _ => None,
            })
            .collect()
    }
}

/// The tables after the changes, or which deferred check they do not pass.
fn checked(
    mut tables: BTreeMap<String, Table>,
    changes: &[Change],
) -> QueryResult<BTreeMap<String, Table>> {
    for change in changes {
        match change {
            Change::Drop(table) => {
                tables.remove(table);
            }
            Change::Create(table, unique_initially_deferred) => {
                tables.insert(
                    table.clone(),
                    Table {
                        unique_initially_deferred: *unique_initially_deferred,
                        ..Table::default()
                    },
                );
            }
            Change::Trigger(table) => tables.entry(table.clone()).or_default().deferred_trigger = true,
            Change::Insert(table, value) => {
                tables.entry(table.clone()).or_default().rows.push(*value)
            }
        }
    }
    for change in changes {
        if let Change::Insert(name, value) = change {
            let table = &tables[name];
            if table.deferred_trigger && *value == 42 {
                return Err(database_error(
                    DatabaseErrorKind::Unknown,
                    "Transaction kaboom",
                    None,
                ));
            }
            let same = table.rows.iter().filter(|row| *row == value).count();
            if table.unique_initially_deferred && same > 1 {
                return Err(database_error(
                    DatabaseErrorKind::UniqueViolation,
                    "duplicate key value violates unique constraint",
                    None,
                ));
            }
        }
    }
    Ok(tables)
}

fn first_word(text: &str) -> String {
    text.trim_start()
        .trim_start_matches('"')
        .chars()
        .take_while(|c| c.is_alphanumeric() || *c == '_')
        .collect()
}

/// One session on the server's side.
struct Server {
    database: Rc<RefCell<Database>>,
    status: PgTransactionStatus,
    transaction: Option<Transaction>,
    prepared: Vec<String>,
    seen: Vec<String>,
    listening: Vec<String>,
    outbox: Vec<PgNotification>,
}

impl Server {
    fn new(database: &Rc<RefCell<Database>>) -> Server {
        Server {
            database: database.clone(),
            status: PgTransactionStatus::Idle,
            transaction: None,
            prepared: Vec::new(),
            seen: Vec::new(),
            listening: Vec::new(),
            outbox: Vec::new(),
        }
    }

    fn fail<T>(&mut self, error: Error) -> QueryResult<T> {
        if self.status == PgTransactionStatus::InTransaction {
            self.status = PgTransactionStatus::InError;
        }
        Err(error)
    }

    /// What is wrong with a statement before it is executed.
    fn analyse(&self, sql: &str) -> Option<Error> {
        let sql = sql.trim();
        if self.status == PgTransactionStatus::InError {
            return Some(database_error(
                DatabaseErrorKind::Unknown,
                "current transaction is aborted",
                None,
            ));
        }
        if sql.starts_with("SELECT_SYNTAX_ERROR") {
            return Some(database_error(DatabaseErrorKind::Unknown, "syntax error", Some(1)));
        }
        if let Some(place) = sql.find(" FROM ") {
            let name = first_word(&sql[place + 6..]);
            if !self.database.borrow().tables.contains_key(&name) {
                return Some(database_error(
                    DatabaseErrorKind::Unknown,
                    "relation does not exist",
                    Some(place as i32 + 7),
                ));
            }
        }
        None
    }

    fn commit(&mut self) -> QueryResult<PgResult> {
        let failed = self.status == PgTransactionStatus::InError;
        self.status = PgTransactionStatus::Idle;
        let transaction = self.transaction.take().unwrap_or_default();
        let done = Ok(PgResult { handle: 0, rows_affected: 0 });
        if failed {
            // A failed block is rolled back, and that is no error.
            return done;
        }
        let mut database = self.database.borrow_mut();
        let writes = transaction.writes();
        if transaction.serializable {
            let conflict = database.history[transaction.began..].iter().any(|other| {
                other.reads.iter().any(|read| writes.contains(read))
                    && other.writes.iter().any(|write| transaction.reads.contains(write))
            });
            if conflict {
                return Err(database_error(
                    DatabaseErrorKind::SerializationFailure,
                    "could not serialize access due to read/write dependencies among transactions",
                    None,
                ));
            }
        }
        database.tables = checked(database.tables.clone(), &transaction.changes)?;
        database.history.push(Committed { reads: transaction.reads, writes });
        done
    }

    fn change(&mut self, change: Change) -> QueryResult<()> {
        match &mut self.transaction {
            Some(transaction) => transaction.changes.push(change),
            None => {
                let mut database = self.database.borrow_mut();
                database.tables = checked(database.tables.clone(), &[change])?;
            }
        }
        Ok(())
    }

    fn run(&mut self, text: &str, binds: &[i32]) -> QueryResult<PgResult> {
        self.seen.push(text.to_string());
        let sql = text.trim();
        let done = Ok(PgResult { handle: 0, rows_affected: 0 });
        if let Some(name) = sql.strip_prefix("ROLLBACK TO SAVEPOINT ") {
            let transaction = self.transaction.as_mut().unwrap();
            let place = transaction.savepoints.iter().rposition(|(own, _)| own == name).unwrap();
            transaction.savepoints.truncate(place + 1);
            let changes = transaction.savepoints[place].1;
            transaction.changes.truncate(changes);
            self.status = PgTransactionStatus::InTransaction;
            return done;
        }
        if sql == "ROLLBACK" {
            self.transaction = None;
            self.status = PgTransactionStatus::Idle;
            return done;
        }
        if sql == "COMMIT" {
            return self.commit();
        }
        if let Some(error) = self.analyse(sql) {
            return self.fail(error);
        }
        if sql.starts_with("BEGIN") {
            self.transaction = Some(Transaction {
                serializable: sql.contains("SERIALIZABLE"),
                began: self.database.borrow().history.len(),
                ..Transaction::default()
            });
            self.status = PgTransactionStatus::InTransaction;
        } else if let Some(name) = sql.strip_prefix("SAVEPOINT ") {
            let transaction = self.transaction.as_mut().unwrap();
            transaction.savepoints.push((name.to_string(), transaction.changes.len()));
        } else if let Some(name) = sql.strip_prefix("RELEASE SAVEPOINT ") {
            let transaction = self.transaction.as_mut().unwrap();
            let place = transaction.savepoints.iter().rposition(|(own, _)| own == name).unwrap();
            transaction.savepoints.truncate(place);
        } else if let Some(channel) = sql.strip_prefix("LISTEN ") {
            self.listening.push(channel.to_string());
        } else if let Some(rest) = sql.strip_prefix("NOTIFY ") {
            let (channel, payload) = match rest.split_once(", ") {
                Some((channel, payload)) => (channel, payload.trim_matches('\'')),
                None => (rest, ""),
            };
            if self.listening.iter().any(|listened| listened == channel) {
                self.outbox.push(PgNotification {
                    process_id: 7,
                    channel: channel.to_string(),
                    payload: payload.to_string(),
                });
            }
        } else if let Some(rest) = sql.strip_prefix("DROP TABLE IF EXISTS ") {
            self.change(Change::Drop(first_word(rest)))?;
        } else if let Some(rest) = sql.strip_prefix("CREATE TABLE ") {
            let unique = rest.contains("UNIQUE INITIALLY DEFERRED");
            self.change(Change::Create(first_word(rest), unique))?;
        } else if sql.starts_with("CREATE CONSTRAINT TRIGGER") {
            let table = sql.split('"').nth(1).unwrap().to_string();
            self.change(Change::Trigger(table))?;
        } else if sql.starts_with("SELECT COUNT(*) FROM ") {
            let table = sql.split('"').nth(1).unwrap().to_string();
            if let Some(transaction) = &mut self.transaction {
                transaction.reads.push((table, binds[0]));
            }
        } else if let Some(rest) = sql.strip_prefix("INSERT INTO ") {
            let table = first_word(rest);
            let values = match rest.split_once("VALUES(") {
                Some((_, value)) => vec![value.trim_end_matches(')').parse().unwrap()],
                None => binds.to_vec(),
            };
            for value in &values {
                self.change(Change::Insert(table.clone(), *value))?;
            }
            return Ok(PgResult { handle: 0, rows_affected: values.len() });
        }
        done
    }

    fn exec(&mut self, bytes: &[u8]) -> ExecReply {
        let sql = String::from_utf8(bytes.to_vec()).unwrap();
        let result = self.run(&sql, &[]);
        ExecReply { result, transaction_status: self.status }
    }

    fn perform(&mut self, request: &Request, values: &[i32]) -> Reply {
        let answer = match request {
            Request::CollectBinds => Answer::Binds(Ok(CollectedBinds {
                binds: values.iter().map(|value| Some(value.to_be_bytes().to_vec())).collect(),
                metadata: values
                    .iter()
                    .map(|_| PgTypeMetadata { oid: 23, array_oid: 1007 })
                    .collect(),
            })),
            Request::Prepare { sql, .. } => Answer::Prepared(match self.analyse(sql) {
                Some(error) => self.fail(error),
                None => {
                    self.prepared.push(sql.to_string());
                    Ok(Statement { handle: self.prepared.len() as u64 - 1 })
                }
            }),
            Request::Execute { statement, binds, .. } => {
                let statement = match statement {
                    MaybeCached::Cached(statement) => statement,
                    MaybeCached::CannotCache(statement) => statement,
                };
                let sql = self.prepared[statement.handle as usize].clone();
                let binds: Vec<i32> = binds
                    .iter()
                    .map(|bytes| {
                        let bytes = bytes.as_ref().unwrap();
                        i32::from_be_bytes([bytes[0], bytes[1], bytes[2], bytes[3]])
                    })
                    .collect();
                Answer::Executed(self.run(&sql, &binds))
            }
            Request::NextResult => Answer::NextResult(Ok(None)),
        };
        assert!(request.is_answered_by(&answer));
        Reply { answer, transaction_status: self.status }
    }
}

struct Session {
    conn: PgConnection,
    server: Server,
}

fn told<T>(result: Result<T, TransactionError<Error>>) -> QueryResult<T> {
    match result {
        Ok(value) => Ok(value),
        Err(TransactionError::Callback(error)) => Err(error),
        Err(TransactionError::Query(error)) => Err(error),
    }
}

/// A query with integers as its binds.
fn with_binds(sql: &str, values: &[i32]) -> Query {
    Query {
        debug: format!("{sql} -- binds: {values:?}"),
        rendered: Ok(RenderedQuery {
            sql: sql.to_string(),
            query_id: None,
            is_safe_to_cache_prepared: true,
        }),
    }
}

impl Session {
    fn establish() -> Session {
        Session::connect(&Rc::new(RefCell::new(Database::default())))
    }

    fn connect(database: &Rc<RefCell<Database>>) -> Session {
        let mut server = Server::new(database);
        let mut attempt =
            PgConnection::establish("postgres://localhost", DynInstrumentation::listening());
        loop {
            let reply = match attempt.request() {
                EstablishRequest::Connect { database_url } => {
                    assert_eq!(database_url, "postgres://localhost");
                    EstablishReply::Connected {
                        result: Ok(()),
                        transaction_status: PgTransactionStatus::Idle,
                    }
                }
                EstablishRequest::Query(request) => {
                    EstablishReply::Query(server.perform(&request, &[]))
                }
            };
            match attempt.resume(reply) {
                Step::Pending(next) => attempt = next,
                Step::Done(result) => {
                    return Session { conn: result.unwrap(), server };
                }
            }
        }
    }

    fn execute_query(&mut self, query: Query, values: &[i32]) -> QueryResult<usize> {
        let mut execution = self.conn.execute_returning_count(query);
        loop {
            let reply = self.server.perform(&execution.request(), values);
            match execution.resume(&mut self.conn, reply) {
                Step::Pending(next) => execution = next,
                Step::Done(result) => {
                    self.receive();
                    return result;
                }
            }
        }
    }

    fn execute(&mut self, sql: &str) -> QueryResult<usize> {
        self.execute_query(Query::sql_query(sql), &[])
    }

    fn receive(&mut self) {
        for notification in self.server.outbox.drain(..) {
            self.conn.connection_and_transaction_manager.raw_connection.receive(Ok(notification));
        }
    }

    fn depth(&mut self) -> Option<u32> {
        AnsiTransactionManager::transaction_manager_status_mut(&mut self.conn)
            .transaction_depth()
            .expect("Transaction depth")
    }

    fn server_status(&self) -> PgTransactionStatus {
        self.conn.connection_and_transaction_manager.raw_connection.transaction_status()
    }

    fn open(&mut self, begin: QueryResult<BeginTransaction>) -> QueryResult<()> {
        let begin = begin?;
        let reply = self.server.exec(begin.c_query().as_bytes());
        begin.resume(&mut self.conn, reply)
    }

    fn close<T>(&mut self, outcome: QueryResult<T>) -> QueryResult<T> {
        let mut step: ConcludeStep<T, Error> = self.conn.conclude_transaction(outcome);
        loop {
            match step {
                Step::Done(result) => return told(result),
                Step::Pending(pending) => {
                    let reply = self.server.exec(pending.c_query().as_bytes());
                    step = pending.resume(&mut self.conn, reply);
                }
            }
        }
    }

    fn work<T>(
        &mut self,
        begin: QueryResult<BeginTransaction>,
        work: impl FnOnce(&mut Session) -> QueryResult<T>,
    ) -> QueryResult<T> {
        self.open(begin)?;
        let outcome = work(self);
        self.close(outcome)
    }

    fn run<T>(&mut self, work: impl FnOnce(&mut Session) -> QueryResult<T>) -> QueryResult<T> {
        let begin = self.conn.build_transaction().run();
        self.work(begin, work)
    }

    fn transaction<T>(
        &mut self,
        work: impl FnOnce(&mut Session) -> QueryResult<T>,
    ) -> QueryResult<T> {
        let begin = AnsiTransactionManager::begin_transaction(&mut self.conn);
        self.work(begin, work)
    }
}

#[test]
fn notifications_arrive() {
    let mut conn = Session::establish();
    conn.execute("LISTEN test_notifications").unwrap();
    conn.execute("NOTIFY test_notifications, 'first'").unwrap();
    conn.execute("NOTIFY test_notifications, 'second'").unwrap();

    let notifications = conn
        .conn
        .notifications_iter()
        .collect()
        .into_iter()
        .map(Result::unwrap)
        .collect::<Vec<_>>();

    assert_eq!(2, notifications.len());
    assert_eq!(notifications[0].channel, "test_notifications");
    assert_eq!(notifications[1].channel, "test_notifications");
    assert_eq!(notifications[0].payload, "first");
    assert_eq!(notifications[1].payload, "second");

    let next_notification = conn.conn.notifications_iter().next();
    assert!(
        next_notification.is_none(),
        "Got a next notification, while not expecting one: {next_notification:?}"
    );

    conn.execute("NOTIFY test_notifications").unwrap();
    assert_eq!(conn.conn.notifications_iter().next().unwrap().unwrap().payload, "");
}

#[test]
fn malformed_sql_query() {
    let mut connection = Session::establish();
    let query = connection.execute("SELECT not_existent FROM also_not_there;");

    if let Err(Error::DatabaseError(_, information)) = query {
        assert_eq!(Some(26), information.statement_position);
    } else {
        unreachable!();
    }
}

#[test]
fn transaction_manager_returns_an_error_when_attempting_to_commit_outside_of_a_transaction() {
    let mut conn = Session::establish();
    assert_eq!(None, conn.depth());
    let result = AnsiTransactionManager::commit_transaction(&mut conn.conn);
    assert!(matches!(result, Err(Error::NotInTransaction)))
}

#[test]
fn transaction_manager_returns_an_error_when_attempting_to_rollback_outside_of_a_transaction() {
    let mut conn = Session::establish();
    assert_eq!(None, conn.depth());
    let result = AnsiTransactionManager::rollback_transaction(&mut conn.conn);
    assert!(matches!(result, Err(Error::NotInTransaction)))
}

#[test]
fn postgres_transaction_is_rolled_back_upon_syntax_error() {
    let mut conn = Session::establish();
    assert_eq!(None, conn.depth());
    let _result = conn.run(|conn| {
        assert_eq!(Some(1), conn.depth());
        // In Postgres, a syntax error breaks the transaction block
        let query_result = conn.execute("SELECT_SYNTAX_ERROR 1");
        assert!(query_result.is_err());
        assert_eq!(PgTransactionStatus::InError, conn.server_status());
        query_result
    });
    assert_eq!(None, conn.depth());
    assert_eq!(PgTransactionStatus::Idle, conn.server_status());
}

#[test]
fn nested_postgres_transaction_is_rolled_back_upon_syntax_error() {
    let mut conn = Session::establish();
    assert_eq!(None, conn.depth());
    let result = conn.run(|conn| {
        assert_eq!(Some(1), conn.depth());
        let result = conn.run(|conn| {
            assert_eq!(Some(2), conn.depth());
            conn.execute("SELECT_SYNTAX_ERROR 1")
        });
        assert!(result.is_err());
        assert_eq!(Some(1), conn.depth());
        let query_result = conn.execute("SELECT 1");
        assert!(query_result.is_ok());
        assert_eq!(PgTransactionStatus::InTransaction, conn.server_status());
        query_result
    });
    assert!(result.is_ok());
    assert_eq!(PgTransactionStatus::Idle, conn.server_status());
    assert_eq!(None, conn.depth());
}

#[test]
fn postgres_transaction_depth_is_tracked_properly_on_serialization_failure() {
    let database = Rc::new(RefCell::new(Database::default()));
    let mut conn = Session::connect(&database);

    conn.execute("DROP TABLE IF EXISTS pg_transaction_depth_is_tracked_properly_on_commit_failure;").unwrap();
    conn.execute(
        r#"
            CREATE TABLE pg_transaction_depth_is_tracked_properly_on_commit_failure (
                id SERIAL PRIMARY KEY,
                class INTEGER NOT NULL
            )
        "#,
    )
    .unwrap();

    let example = "pg_transaction_depth_is_tracked_properly_on_commit_failure";
    let count = format!(
        "SELECT COUNT(*) FROM \"{example}\" WHERE (\"{example}\".\"class\" = $1)"
    );
    let insert = format!("INSERT INTO \"{example}\" (\"class\") VALUES ($1)");
    let insert_two = format!("INSERT INTO \"{example}\" (\"class\") VALUES ($1), ($2)");
    conn.execute_query(with_binds(&insert_two, &[1, 2]), &[1, 2]).unwrap();

    // The sessions take turns: both have read before either writes, and both have written before
    // either commits.
    let mut sessions = (1..3).map(|_| Session::connect(&database)).collect::<Vec<_>>();
    for (i, conn) in (1..3).zip(&mut sessions) {
        assert_eq!(None, conn.depth());
        let begin = conn.conn.build_transaction().serializable().run();
        conn.open(begin).unwrap();
        assert_eq!(Some(1), conn.depth());
        conn.execute_query(with_binds(&count, &[i]), &[i]).unwrap();
    }
    let mut written = Vec::new();
    for (i, conn) in (1..3).zip(&mut sessions) {
        let other_i = if i == 1 { 2 } else { 1 };
        written.push(conn.execute_query(with_binds(&insert, &[other_i]), &[other_i]));
    }
    let mut results = Vec::new();
    for (r, conn) in written.into_iter().zip(&mut sessions) {
        results.push(conn.close(r));
        assert_eq!(PgTransactionStatus::Idle, conn.server_status());

        assert_eq!(None, conn.depth());
    }

    results.sort_by_key(|r| r.is_err());

    assert!(results[0].is_ok(), "Got {:?} instead", results);
    assert!(
        matches!(
            &results[1],
            Err(Error::DatabaseError(DatabaseErrorKind::SerializationFailure, _))
        ),
        "Got {:?} instead",
        results
    );
    assert_eq!(PgTransactionStatus::Idle, conn.server_status());
}

#[test]
fn postgres_transaction_depth_is_tracked_properly_on_nested_serialization_failure() {
    let database = Rc::new(RefCell::new(Database::default()));
    let mut conn = Session::connect(&database);

    conn.execute("DROP TABLE IF EXISTS pg_nested_transaction_depth_is_tracked_properly_on_commit_failure;").unwrap();
    conn.execute(
        r#"
            CREATE TABLE pg_nested_transaction_depth_is_tracked_properly_on_commit_failure (
                id SERIAL PRIMARY KEY,
                class INTEGER NOT NULL
            )
        "#,
    )
    .unwrap();

    let example = "pg_nested_transaction_depth_is_tracked_properly_on_commit_failure";
    let count = format!(
        "SELECT COUNT(*) FROM \"{example}\" WHERE (\"{example}\".\"class\" = $1)"
    );
    let insert = format!("INSERT INTO \"{example}\" (\"class\") VALUES ($1)");
    let insert_two = format!("INSERT INTO \"{example}\" (\"class\") VALUES ($1), ($2)");
    conn.execute_query(with_binds(&insert_two, &[1, 2]), &[1, 2]).unwrap();

    // The sessions take turns: both have read before either writes, and both have written before
    // either commits.
    let mut sessions = (1..3).map(|_| Session::connect(&database)).collect::<Vec<_>>();
    for (i, conn) in (1..3).zip(&mut sessions) {
        assert_eq!(None, conn.depth());
        let begin = conn.conn.build_transaction().serializable().run();
        conn.open(begin).unwrap();
        assert_eq!(Some(1), conn.depth());
        let begin = AnsiTransactionManager::begin_transaction(&mut conn.conn);
        conn.open(begin).unwrap();
        assert_eq!(Some(2), conn.depth());
        conn.execute_query(with_binds(&count, &[i]), &[i]).unwrap();
    }
    let mut written = Vec::new();
    for (i, conn) in (1..3).zip(&mut sessions) {
        let other_i = if i == 1 { 2 } else { 1 };
        written.push(conn.execute_query(with_binds(&insert, &[other_i]), &[other_i]));
    }
    let mut results = Vec::new();
    for (r, conn) in written.into_iter().zip(&mut sessions) {
        let r = conn.close(r);
        assert_eq!(Some(1), conn.depth());
        assert_eq!(PgTransactionStatus::InTransaction, conn.server_status());
        results.push(conn.close(r));
        assert_eq!(PgTransactionStatus::Idle, conn.server_status());

        assert_eq!(None, conn.depth());
    }

    results.sort_by_key(|r| r.is_err());

    assert!(results[0].is_ok(), "Got {:?} instead", results);
    assert!(
        matches!(
            &results[1],
            Err(Error::DatabaseError(DatabaseErrorKind::SerializationFailure, _))
        ),
        "Got {:?} instead",
        results
    );
    assert_eq!(PgTransactionStatus::Idle, conn.server_status());
}

#[test]
fn postgres_transaction_is_rolled_back_upon_deferred_constraint_failure() {
    let mut conn = Session::establish();
    assert_eq!(None, conn.depth());
    let result: Result<_, Error> = conn.run(|conn| {
        assert_eq!(Some(1), conn.depth());
        conn.execute("DROP TABLE IF EXISTS deferred_constraint_commit")?;
        conn.execute("CREATE TABLE deferred_constraint_commit(id INT UNIQUE INITIALLY DEFERRED)")?;
        conn.execute("INSERT INTO deferred_constraint_commit VALUES(1)")?;
        let result = conn.execute("INSERT INTO deferred_constraint_commit VALUES(1)");
        assert!(result.is_ok());
        assert_eq!(PgTransactionStatus::InTransaction, conn.server_status());
        Ok(())
    });
    assert_eq!(None, conn.depth());
    assert_eq!(PgTransactionStatus::Idle, conn.server_status());
    assert!(result.is_err());
}

#[test]
fn postgres_transaction_is_rolled_back_upon_deferred_trigger_failure() {
    let mut conn = Session::establish();
    assert_eq!(None, conn.depth());
    let result: Result<_, Error> = conn.run(|conn| {
        assert_eq!(Some(1), conn.depth());
        conn.execute("DROP TABLE IF EXISTS deferred_trigger_commit")?;
        conn.execute("CREATE TABLE deferred_trigger_commit(id INT UNIQUE INITIALLY DEFERRED)")?;
        conn.execute(
            r#"
                    CREATE OR REPLACE FUNCTION transaction_depth_blow_up()
                        RETURNS trigger
                        LANGUAGE plpgsql
                        AS $$
                    DECLARE
                    BEGIN
                        IF NEW.value = 42 THEN
                            RAISE EXCEPTION 'Transaction kaboom';
                        END IF;
                    RETURN NEW;

                    END;$$;
                "#,
        )?;

        conn.execute(
            r#"
                    CREATE CONSTRAINT TRIGGER transaction_depth_trigger
                        AFTER INSERT ON "deferred_trigger_commit"
                        DEFERRABLE INITIALLY DEFERRED
                        FOR EACH ROW
                        EXECUTE PROCEDURE transaction_depth_blow_up()
            "#,
        )?;
        let result = conn.execute("INSERT INTO deferred_trigger_commit VALUES(42)");
        assert!(result.is_ok());
        assert_eq!(PgTransactionStatus::InTransaction, conn.server_status());
        Ok(())
    });
    assert_eq!(None, conn.depth());
    assert_eq!(PgTransactionStatus::Idle, conn.server_status());
    assert!(result.is_err());
}

#[test]
fn nested_postgres_transaction_is_rolled_back_upon_deferred_trigger_failure() {
    let mut conn = Session::establish();
    assert_eq!(None, conn.depth());
    let result: Result<_, Error> = conn.run(|conn| {
        assert_eq!(Some(1), conn.depth());
        conn.execute("DROP TABLE IF EXISTS deferred_trigger_nested_commit")?;
        conn.execute("CREATE TABLE deferred_trigger_nested_commit(id INT UNIQUE INITIALLY DEFERRED)")?;
        conn.execute(
            r#"
                    CREATE OR REPLACE FUNCTION transaction_depth_blow_up()
                        RETURNS trigger
                        LANGUAGE plpgsql
                        AS $$
                    DECLARE
                    BEGIN
                        IF NEW.value = 42 THEN
                            RAISE EXCEPTION 'Transaction kaboom';
                        END IF;
                    RETURN NEW;

                    END;$$;
                "#,
        )?;

        conn.execute(
            r#"
                    CREATE CONSTRAINT TRIGGER transaction_depth_trigger
                        AFTER INSERT ON "deferred_trigger_nested_commit"
                        DEFERRABLE INITIALLY DEFERRED
                        FOR EACH ROW
                        EXECUTE PROCEDURE transaction_depth_blow_up()
            "#,
        )?;
        let inner_result: Result<_, Error> = conn.run(|conn| {
            let result = conn.execute("INSERT INTO deferred_trigger_nested_commit VALUES(42)");
            assert!(result.is_ok());
            Ok(())
        });
        assert!(inner_result.is_err());
        assert_eq!(PgTransactionStatus::InTransaction, conn.server_status());
        Ok(())
    });
    assert_eq!(None, conn.depth());
    assert_eq!(PgTransactionStatus::Idle, conn.server_status());
    assert!(result.is_ok(), "Expected success, got {:?}", result);
}

#[test]
fn nested_postgres_transaction_is_rolled_back_upon_deferred_constraint_failure() {
    let mut conn = Session::establish();
    assert_eq!(None, conn.depth());
    let result: Result<_, Error> = conn.run(|conn| {
        assert_eq!(Some(1), conn.depth());
        conn.execute("DROP TABLE IF EXISTS deferred_constraint_nested_commit")?;
        conn.execute(
            "CREATE TABLE deferred_constraint_nested_commit(id INT UNIQUE INITIALLY DEFERRED)",
        )?;
        let inner_result: Result<_, Error> = conn.run(|conn| {
            assert_eq!(Some(2), conn.depth());
            conn.execute("INSERT INTO deferred_constraint_nested_commit VALUES(1)")?;
            let result = conn.execute("INSERT INTO deferred_constraint_nested_commit VALUES(1)");
            assert!(result.is_ok());
            Ok(())
        });
        assert!(inner_result.is_err());
        assert_eq!(PgTransactionStatus::InTransaction, conn.server_status());
        assert_eq!(Some(1), conn.depth());
        conn.execute("INSERT INTO deferred_constraint_nested_commit VALUES(1)")
    });
    assert_eq!(None, conn.depth());
    assert_eq!(PgTransactionStatus::Idle, conn.server_status());
    assert!(result.is_ok());
}

#[test]
fn a_transaction_cannot_be_built_inside_another_one() {
    let mut conn = Session::establish();
    conn.run(|conn| {
        let seen = conn.server.seen.len();
        let inner = conn.conn.build_transaction().run();
        assert!(matches!(inner, Err(Error::AlreadyInTransaction)));
        assert_eq!(seen, conn.server.seen.len());
        assert_eq!(Some(1), conn.depth());
        Ok(())
    })
    .unwrap();
}

#[test]
fn savepoints_are_named_after_their_depth() {
    let mut conn = Session::establish();
    let from = conn.server.seen.len();
    conn.transaction(|conn| {
        conn.transaction(|conn| {
            assert_eq!(Some(2), conn.depth());
            let failed: QueryResult<()> = conn.transaction(|conn| {
                assert_eq!(Some(3), conn.depth());
                Err(Error::RollbackTransaction)
            });
            assert!(matches!(failed, Err(Error::RollbackTransaction)));
            Ok(())
        })
    })
    .unwrap();
    assert_eq!(
        conn.server.seen[from..],
        [
            "BEGIN",
            "SAVEPOINT diesel_savepoint_1",
            "SAVEPOINT diesel_savepoint_2",
            "ROLLBACK TO SAVEPOINT diesel_savepoint_2",
            "RELEASE SAVEPOINT diesel_savepoint_1",
            "COMMIT",
        ]
    );
    assert_eq!(None, conn.depth());
}

#[test]
fn a_failed_savepoint_is_passed_over_on_the_way_up() {
    let mut conn = Session::establish();
    let result = conn.transaction(|conn| {
        conn.transaction(|conn| conn.execute("SELECT_SYNTAX_ERROR 1"))
    });
    assert!(matches!(result, Err(Error::DatabaseError(DatabaseErrorKind::Unknown, _))));
    assert_eq!(None, conn.depth());
    assert_eq!(PgTransactionStatus::Idle, conn.server_status());
}

#[test]
fn options_of_the_session_are_set_and_not_reported() {
    let mut conn = Session::establish();
    assert_eq!(conn.server.seen, ["SET TIME ZONE 'UTC'", "SET CLIENT_ENCODING TO 'UTF8'"]);
    assert_eq!(
        conn.conn.connection_and_transaction_manager.raw_connection.notice_processor,
        NoticeProcessor::Noop
    );
    let url = || "postgres://localhost".to_string();
    assert_eq!(
        conn.conn.instrumentation().take_events(),
        [
            InstrumentationEvent::StartEstablishConnection { url: url() },
            InstrumentationEvent::FinishEstablishConnection { url: url(), error: None },
        ]
    );
    assert_eq!(None, conn.depth());
}

#[test]
fn every_query_is_reported_once() {
    let mut conn = Session::establish();
    conn.conn.instrumentation().take_events();
    conn.execute("SELECT 1").unwrap();
    let error = conn.execute("SELECT_SYNTAX_ERROR 1").unwrap_err();
    let good = || "SELECT 1 -- binds: []".to_string();
    let bad = || "SELECT_SYNTAX_ERROR 1 -- binds: []".to_string();
    assert_eq!(
        conn.conn.instrumentation().take_events(),
        [
            InstrumentationEvent::StartQuery { query: good() },
            InstrumentationEvent::FinishQuery { query: good(), error: None },
            InstrumentationEvent::StartQuery { query: bad() },
            InstrumentationEvent::FinishQuery { query: bad(), error: Some(error) },
        ]
    );
}

#[test]
fn transactions_are_reported() {
    let mut conn = Session::establish();
    conn.conn.instrumentation().take_events();
    conn.run(|_| Ok(())).unwrap();
    let query = |text: &str| text.to_string();
    assert_eq!(
        conn.conn.instrumentation().take_events(),
        [
            InstrumentationEvent::BeginTransaction { depth: 1 },
            InstrumentationEvent::StartQuery { query: query("BEGIN TRANSACTION") },
            InstrumentationEvent::FinishQuery { query: query("BEGIN TRANSACTION"), error: None },
            InstrumentationEvent::CommitTransaction { depth: 1 },
            InstrumentationEvent::StartQuery { query: query("COMMIT") },
            InstrumentationEvent::FinishQuery { query: query("COMMIT"), error: None },
        ]
    );
}

#[test]
fn options_of_a_transaction_are_part_of_its_command() {
    let mut conn = Session::establish();
    let begin =
        conn.conn.build_transaction().read_only().serializable().deferrable().run().unwrap();
    assert_eq!(
        begin.c_query().as_bytes(),
        b"BEGIN TRANSACTION ISOLATION LEVEL SERIALIZABLE READ ONLY DEFERRABLE"
    );
    let mut other = Session::establish();
    assert_eq!(
        other.conn.build_transaction().read_write().repeatable_read().not_deferrable().to_sql(),
        "BEGIN TRANSACTION ISOLATION LEVEL REPEATABLE READ READ WRITE NOT DEFERRABLE"
    );
    assert_eq!(
        other.conn.build_transaction().read_committed().to_sql(),
        "BEGIN TRANSACTION ISOLATION LEVEL READ COMMITTED"
    );
}

#[test]
fn a_lost_connection_breaks_the_record() {
    let mut conn = Session::establish();
    conn.server.status = PgTransactionStatus::Unknown;
    conn.execute("SELECT 1").unwrap();
    assert!(conn.conn.is_broken());
    let status = AnsiTransactionManager::transaction_manager_status_mut(&mut conn.conn);
    assert!(matches!(status.transaction_depth(), Err(Error::BrokenTransactionManager)));
    assert!(matches!(
        AnsiTransactionManager::begin_transaction(&mut conn.conn),
        Err(Error::BrokenTransactionManager)
    ));
    assert!(matches!(
        AnsiTransactionManager::commit_transaction(&mut conn.conn),
        Err(Error::BrokenTransactionManager)
    ));
    assert!(matches!(
        AnsiTransactionManager::rollback_transaction(&mut conn.conn),
        Err(Error::BrokenTransactionManager)
    ));
    assert!(matches!(
        conn.conn.build_transaction().run(),
        Err(Error::BrokenTransactionManager)
    ));
    conn.server.status = PgTransactionStatus::Idle;
    conn.execute("SELECT 1").unwrap();
    assert!(!conn.conn.is_broken());
    assert_eq!(None, conn.depth());
}

#[test]
fn a_pool_tells_open_transactions_from_test_transactions() {
    let mut conn = Session::establish();
    let begin = AnsiTransactionManager::begin_transaction(&mut conn.conn).unwrap();
    let reply = conn.server.exec(begin.c_query().as_bytes());
    begin.resume(&mut conn.conn, reply).unwrap();
    assert!(conn.conn.is_broken());
    conn.conn.transaction_state().status.set_test_transaction_flag();
    assert!(!conn.conn.is_broken());
}

#[test]
fn a_ping_is_a_query_without_a_count() {
    let mut conn = Session::establish();
    let mut ping = conn.conn.ping(Query::sql_query("SELECT 1"));
    let result = loop {
        let reply = conn.server.perform(&ping.request(), &[]);
        match ping.resume(&mut conn.conn, reply) {
            Step::Pending(next) => ping = next,
            Step::Done(result) => break result,
        }
    };
    assert_eq!(result, Ok(()));
    assert_eq!(conn.server.seen.last().unwrap(), "SELECT 1");
}

#[test]
fn rows_that_are_inserted_are_counted() {
    let mut conn = Session::establish();
    assert_eq!(conn.execute("INSERT INTO users VALUES(1)"), Ok(1));
}

#[test]
fn a_connection_can_be_sent_to_another_thread() {
    fn is_send<T: Send>(_: &T) {}
    is_send(&Session::establish().conn);
}
