//! Opening and closing transactions and savepoints.
//!
//! The first level of nesting is a transaction of the server, each further one is a savepoint
//! inside of it. The savepoint at depth `d + 1` is named after `d`. A depth of at most one is the
//! top level.
use crate::connection::{AnsiTransactionManager, BatchExecute, ConnectionModel, PgConnection};
use crate::error::{Error, QueryResult};
use crate::instrumentation::{EventModel, InstrumentationEvent};
use crate::query::Step;
use crate::raw::ExecReply;
use crate::text::{append_decimal, decimal, has_nul, lemma_decimal_has_no_nul, CString};
use crate::transaction_status::{
    InTransactionStatus, TransactionDepthChange, TransactionManagerStatus,
    ValidTransactionManagerStatus,
};
use vstd::prelude::*;
use vstd::utf8::encode_utf8;

verus! {

/// The command that opens a transaction, or a savepoint in one of the given depth.
pub open spec fn begin_sql(depth: Option<u32>) -> Seq<char> {
    match depth {
        None => "BEGIN"@,
        Some(depth) => "SAVEPOINT diesel_savepoint_"@ + decimal(depth as nat),
    }
}

/// The command that commits a transaction of the given depth, or releases its last savepoint.
pub open spec fn commit_sql(depth: u32) -> Seq<char> {
    if depth <= 1 {
        "COMMIT"@
    } else {
        "RELEASE SAVEPOINT diesel_savepoint_"@ + decimal((depth - 1) as nat)
    }
}

/// The command that rolls a transaction of the given depth back, or back to its last savepoint.
pub open spec fn rollback_sql(depth: u32) -> Seq<char> {
    if depth <= 1 {
        "ROLLBACK"@
    } else {
        "ROLLBACK TO SAVEPOINT diesel_savepoint_"@ + decimal((depth - 1) as nat)
    }
}

/// The depth that is reported for a transaction that is about to be opened.
pub open spec fn reported_begin_depth(depth: Option<u32>) -> u32 {
    match depth {
        Some(depth) => if depth < u32::MAX {
            (depth + 1) as u32
        } else {
            1
        },
        None => 1,
    }
}

proof fn lemma_no_nul_behind(prefix: Seq<char>, n: nat)
    requires
        !has_nul(prefix),
    ensures
        !has_nul(prefix + decimal(n)),
{
    lemma_decimal_has_no_nul(n);
    let text = prefix + decimal(n);
    if has_nul(text) {
        let i = choose|i: int| 0 <= i < text.len() && text[i] == '\0';
        if i < prefix.len() {
            assert(prefix[i] == '\0');
        } else {
            assert(decimal(n)[i - prefix.len()] == '\0');
        }
    }
}

/// No transaction command holds a NUL character.
pub proof fn lemma_commands_have_no_nul(begin: Option<u32>, close: u32)
    ensures
        !has_nul(begin_sql(begin)),
        !has_nul(commit_sql(close)),
        !has_nul(rollback_sql(close)),
{
    reveal_strlit("BEGIN");
    reveal_strlit("COMMIT");
    reveal_strlit("ROLLBACK");
    assert(!has_nul("SAVEPOINT diesel_savepoint_"@)) by {
        reveal_strlit("SAVEPOINT diesel_savepoint_");
    }
    assert(!has_nul("RELEASE SAVEPOINT diesel_savepoint_"@)) by {
        reveal_strlit("RELEASE SAVEPOINT diesel_savepoint_");
    }
    assert(!has_nul("ROLLBACK TO SAVEPOINT diesel_savepoint_"@)) by {
        reveal_strlit("ROLLBACK TO SAVEPOINT diesel_savepoint_");
    }
    if let Some(depth) = begin {
        lemma_no_nul_behind("SAVEPOINT diesel_savepoint_"@, depth as nat);
    }
    lemma_no_nul_behind("RELEASE SAVEPOINT diesel_savepoint_"@, (close - 1) as nat);
    lemma_no_nul_behind("ROLLBACK TO SAVEPOINT diesel_savepoint_"@, (close - 1) as nat);
}

fn begin_command(depth: Option<u32>) -> (sql: String)
    ensures
        sql@ == begin_sql(depth),
{
    match depth {
        None => "BEGIN".to_owned(),
        Some(depth) => {
            let mut sql: String = "SAVEPOINT diesel_savepoint_".to_owned();
            append_decimal(&mut sql, depth);
            sql
        },
    }
}

fn commit_command(depth: u32) -> (sql: String)
    ensures
        sql@ == commit_sql(depth),
{
    if depth <= 1 {
        "COMMIT".to_owned()
    } else {
        let mut sql: String = "RELEASE SAVEPOINT diesel_savepoint_".to_owned();
        append_decimal(&mut sql, depth - 1);
        sql
    }
}

fn rollback_command(depth: u32) -> (sql: String)
    ensures
        sql@ == rollback_sql(depth),
{
    if depth <= 1 {
        "ROLLBACK".to_owned()
    } else {
        let mut sql: String = "ROLLBACK TO SAVEPOINT diesel_savepoint_".to_owned();
        append_decimal(&mut sql, depth - 1);
        sql
    }
}

/// The record after the server has opened a level, and what the caller is told.
///
/// The level cannot be recorded if the record broke while the command ran.
pub open spec fn opened(status: TransactionManagerStatus) -> (
    TransactionManagerStatus,
    QueryResult<()>,
) {
    match status {
        TransactionManagerStatus::InError => (status, Err(Error::BrokenTransactionManager)),
        TransactionManagerStatus::Valid(valid) => {
            match valid.after_change(TransactionDepthChange::IncreaseDepth) {
                Ok(after) => (TransactionManagerStatus::Valid(after), Ok(())),
                Err(error) => (status, Err(error)),
            }
        },
    }
}

/// The record after the server has closed a level, and what the caller is told.
///
/// That the server left the top level may have been recorded already.
pub open spec fn closed_level(status: TransactionManagerStatus, top_level: bool) -> (
    TransactionManagerStatus,
    QueryResult<()>,
) {
    match status {
        TransactionManagerStatus::InError => (status, Err(Error::BrokenTransactionManager)),
        TransactionManagerStatus::Valid(valid) => {
            match valid.after_change(TransactionDepthChange::DecreaseDepth) {
                Ok(after) => (TransactionManagerStatus::Valid(after), Ok(())),
                Err(error) => if top_level {
                    (status, Ok(()))
                } else {
                    (status, Err(error))
                },
            }
        },
    }
}

/// The record after a rollback has failed with `error`, and what the caller is told.
///
/// A savepoint counts as closed, so that the depth matches the commands that the caller gave; the
/// levels above may still be rolled back. If the connection was expected to be unusable up to the
/// top level already, the failure is passed over. A top level that stays open after its rollback
/// has failed leaves the state unknown.
pub open spec fn rollback_failed(
    status: TransactionManagerStatus,
    rollback_was_required: bool,
    error: Error,
) -> (TransactionManagerStatus, QueryResult<()>) {
    match status {
        TransactionManagerStatus::Valid(
            ValidTransactionManagerStatus { in_transaction: Some(transaction) },
        ) => if transaction.transaction_depth > 1 {
            (
                TransactionManagerStatus::Valid(
                    ValidTransactionManagerStatus {
                        in_transaction: Some(
                            InTransactionStatus {
                                transaction_depth: (transaction.transaction_depth - 1) as u32,
                                requires_rollback_maybe_up_to_top_level: true,
                                ..transaction
                            },
                        ),
                    },
                ),
                if rollback_was_required {
                    Ok(())
                } else {
                    Err(error)
                },
            )
        } else {
            (TransactionManagerStatus::InError, Err(error))
        },
        TransactionManagerStatus::Valid(_) => (status, Err(error)),
        TransactionManagerStatus::InError => (TransactionManagerStatus::InError, Err(error)),
    }
}

/// Records that the server has closed a level.
fn close_level(status: &mut TransactionManagerStatus, top_level: bool) -> (result: QueryResult<()>)
    ensures
        (*final(status), result) == closed_level(*old(status), top_level),
{
    match status {
        TransactionManagerStatus::InError => Err(Error::BrokenTransactionManager),
        TransactionManagerStatus::Valid(valid) => {
            match valid.change_transaction_depth(TransactionDepthChange::DecreaseDepth) {
                Ok(()) => Ok(()),
                Err(error) => {
                    if top_level {
                        // That the server has left the transaction was noticed already.
                        Ok(())
                    } else {
                        Err(error)
                    }
                },
            }
        },
    }
}

/// A transaction or a savepoint that is being opened.
#[derive(Debug, PartialEq, Eq)]
pub struct BeginTransaction {
    pub command: BatchExecute,
}

impl BeginTransaction {
    /// The text that the driver has to send.
    pub fn c_query(&self) -> (c_query: &CString)
        ensures
            c_query@ == self.command.bytes(),
    {
        self.command.c_query()
    }

    /// What the caller is told, and the connection, after the reply.
    pub open spec fn after(self, conn: ConnectionModel, reply: ExecReply) -> (
        QueryResult<()>,
        ConnectionModel,
    ) {
        let settled = self.command.after(conn, reply);
        match BatchExecute::outcome(reply) {
            Ok(_) => {
                let (status, result) = opened(settled.manager.status);
                (result, settled.with_status(status))
            },
            Err(error) => (Err(error), settled),
        }
    }

    /// Takes the server's reply.
    pub fn resume(self, conn: &mut PgConnection, reply: ExecReply) -> (result: QueryResult<()>)
        ensures
            (result, final(conn)@) == self.after(old(conn)@, reply),
            old(conn)@.wf() ==> final(conn)@.wf(),
    {
        match self.command.resume(conn, reply) {
            Ok(()) => {
                match &mut conn.connection_and_transaction_manager.transaction_state.status {
                    TransactionManagerStatus::InError => Err(Error::BrokenTransactionManager),
                    TransactionManagerStatus::Valid(valid) => {
                        valid.change_transaction_depth(TransactionDepthChange::IncreaseDepth)
                    },
                }
            },
            Err(error) => Err(error),
        }
    }
}

/// A transaction or a savepoint that is being rolled back.
#[derive(Debug, PartialEq, Eq)]
pub struct RollbackTransaction {
    pub command: BatchExecute,
    pub top_level: bool,
    pub rollback_was_required: bool,
}

impl RollbackTransaction {
    /// The text that the driver has to send.
    pub fn c_query(&self) -> (c_query: &CString)
        ensures
            c_query@ == self.command.bytes(),
    {
        self.command.c_query()
    }

    /// What the caller is told, and the connection, after the reply.
    pub open spec fn after(self, conn: ConnectionModel, reply: ExecReply) -> (
        QueryResult<()>,
        ConnectionModel,
    ) {
        let settled = self.command.after(conn, reply);
        let (status, result) = match BatchExecute::outcome(reply) {
            Ok(_) => closed_level(settled.manager.status, self.top_level),
            Err(error) => rollback_failed(
                settled.manager.status,
                self.rollback_was_required,
                error,
            ),
        };
        (result, settled.with_status(status))
    }

    /// Takes the server's reply.
    pub fn resume(self, conn: &mut PgConnection, reply: ExecReply) -> (result: QueryResult<()>)
        ensures
            (result, final(conn)@) == self.after(old(conn)@, reply),
            old(conn)@.wf() ==> final(conn)@.wf(),
    {
        match self.command.resume(conn, reply) {
            Ok(()) => close_level(
                &mut conn.connection_and_transaction_manager.transaction_state.status,
                self.top_level,
            ),
            Err(error) => {
                let status = &mut conn.connection_and_transaction_manager.transaction_state.status;
                match *status {
                    TransactionManagerStatus::Valid(valid) => {
                        match valid.in_transaction {
                            Some(transaction) => {
                                if transaction.transaction_depth > 1 {
                                    *status = TransactionManagerStatus::Valid(
                                        ValidTransactionManagerStatus {
                                            in_transaction: Some(
                                                InTransactionStatus {
                                                    transaction_depth: transaction.transaction_depth
                                                        - 1,
                                                    requires_rollback_maybe_up_to_top_level: true,
                                                    ..transaction
                                                },
                                            ),
                                        },
                                    );
                                    if self.rollback_was_required {
                                        return Ok(());
                                    }
                                } else {
                                    status.set_in_error();
                                }
                            },
                            None => {
                                // A transaction was open before the command, so the server has
                                // left it, and that was noticed.
                            },
                        }
                    },
                    TransactionManagerStatus::InError => {},
                }
                Err(error)
            },
        }
    }
}

/// A transaction or a savepoint that is being committed.
#[derive(Debug, PartialEq, Eq)]
pub enum CommitTransaction {
    /// The commit was sent.
    Committing { command: BatchExecute, top_level: bool },
    /// The commit has failed, and left a transaction behind that has to be rolled back.
    RollingBack { rollback: RollbackTransaction, commit_error: Error },
}

/// After the failed commit the transaction has to be rolled back.
pub open spec fn commit_needs_rollback(status: TransactionManagerStatus) -> bool {
    &&& status matches TransactionManagerStatus::Valid(valid)
    &&& valid.in_transaction matches Some(transaction)
    &&& transaction.requires_rollback_maybe_up_to_top_level
}

impl CommitTransaction {
    /// The command that the server is asked to run.
    pub open spec fn command(self) -> BatchExecute {
        match self {
            CommitTransaction::Committing { command, .. } => command,
            CommitTransaction::RollingBack { rollback, .. } => rollback.command,
        }
    }

    /// The text that the driver has to send.
    pub fn c_query(&self) -> (c_query: &CString)
        ensures
            c_query@ == self.command().bytes(),
    {
        match self {
            CommitTransaction::Committing { command, .. } => command.c_query(),
            CommitTransaction::RollingBack { rollback, .. } => rollback.c_query(),
        }
    }

    /// How things may stand after the reply.
    ///
    /// - After a commit that succeeded, the level is closed.
    /// - After one that failed, its error is returned; but where the connection may be unusable
    ///   until a rollback, the rollback is sent first.
    /// - If that rollback fails too, both errors are returned, and the record is broken.
    pub open spec fn advances(
        self,
        conn: ConnectionModel,
        reply: ExecReply,
        step: Step<CommitTransaction, QueryResult<()>>,
        after: ConnectionModel,
    ) -> bool {
        match self {
            CommitTransaction::Committing { command, top_level } => {
                let settled = command.after(conn, reply);
                match BatchExecute::outcome(reply) {
                    Ok(_) => {
                        let (status, result) = closed_level(settled.manager.status, top_level);
                        &&& step == Step::<CommitTransaction, QueryResult<()>>::Done(result)
                        &&& after == settled.with_status(status)
                    },
                    Err(error) => if commit_needs_rollback(settled.manager.status) {
                        &&& step matches Step::Pending(
                            CommitTransaction::RollingBack { rollback, commit_error },
                        )
                        &&& commit_error == error
                        &&& rollback_started(settled, rollback, after)
                    } else {
                        &&& step == Step::<CommitTransaction, QueryResult<()>>::Done(Err(error))
                        &&& after == settled
                    },
                }
            },
            CommitTransaction::RollingBack { rollback, commit_error } => {
                let (result, rolled_back) = rollback.after(conn, reply);
                match result {
                    Ok(_) => {
                        &&& step == Step::<CommitTransaction, QueryResult<()>>::Done(
                            Err(commit_error),
                        )
                        &&& after == rolled_back
                    },
                    Err(error) => {
                        &&& step == Step::<CommitTransaction, QueryResult<()>>::Done(
                            Err(
                                Error::RollbackErrorOnCommit {
                                    rollback_error: Box::new(error),
                                    commit_error: Box::new(commit_error),
                                },
                            ),
                        )
                        &&& after == rolled_back.with_status(TransactionManagerStatus::InError)
                    },
                }
            },
        }
    }

    /// Takes the server's reply.
    pub fn resume(self, conn: &mut PgConnection, reply: ExecReply) -> (step: Step<
        CommitTransaction,
        QueryResult<()>,
    >)
        ensures
            self.advances(old(conn)@, reply, step, final(conn)@),
            old(conn)@.wf() ==> final(conn)@.wf(),
    {
        match self {
            CommitTransaction::Committing { command, top_level } => {
                match command.resume(conn, reply) {
                    Ok(()) => Step::Done(
                        close_level(
                            &mut conn.connection_and_transaction_manager.transaction_state.status,
                            top_level,
                        ),
                    ),
                    Err(commit_error) => {
                        let needs_rollback: bool =
                            match conn.connection_and_transaction_manager.transaction_state.status {
                            TransactionManagerStatus::Valid(valid) => {
                                match valid.in_transaction {
                                    Some(transaction) => {
                                        transaction.requires_rollback_maybe_up_to_top_level
                                    },
                                    None => false,
                                }
                            },
                            TransactionManagerStatus::InError => false,
                        };
                        if needs_rollback {
                            match AnsiTransactionManager::rollback_transaction(conn) {
                                Ok(rollback) => Step::Pending(
                                    CommitTransaction::RollingBack { rollback, commit_error },
                                ),
                                Err(rollback_error) => Step::Done(
                                    failed_twice(conn, rollback_error, commit_error),
                                ),
                            }
                        } else {
                            Step::Done(Err(commit_error))
                        }
                    },
                }
            },
            CommitTransaction::RollingBack { rollback, commit_error } => {
                match rollback.resume(conn, reply) {
                    Ok(()) => Step::Done(Err(commit_error)),
                    Err(rollback_error) => Step::Done(
                        failed_twice(conn, rollback_error, commit_error),
                    ),
                }
            },
        }
    }
}

/// Records that neither a commit nor the rollback after it has succeeded.
fn failed_twice(conn: &mut PgConnection, rollback_error: Error, commit_error: Error) -> (result:
    QueryResult<()>)
    ensures
        result == QueryResult::<()>::Err(
            Error::RollbackErrorOnCommit {
                rollback_error: Box::new(rollback_error),
                commit_error: Box::new(commit_error),
            },
        ),
        final(conn)@ == old(conn)@.with_status(TransactionManagerStatus::InError),
{
    conn.connection_and_transaction_manager.transaction_state.status.set_in_error();
    Err(
        Error::RollbackErrorOnCommit {
            rollback_error: Box::new(rollback_error),
            commit_error: Box::new(commit_error),
        },
    )
}

/// A command was handed out to be sent, and its start was reported after `event`.
pub open spec fn command_started(
    before: ConnectionModel,
    event: EventModel,
    sql: Seq<char>,
    command: BatchExecute,
    after: ConnectionModel,
) -> bool {
    &&& command.source() == sql
    &&& command.bytes() == encode_utf8(sql)
    &&& after == before.reporting(event).reporting(EventModel::StartQuery { query: sql })
}

/// The rollback of the innermost level was handed out to be sent.
pub open spec fn rollback_started(
    before: ConnectionModel,
    rollback: RollbackTransaction,
    after: ConnectionModel,
) -> bool {
    &&& before.manager.status matches TransactionManagerStatus::Valid(valid)
    &&& valid.in_transaction matches Some(transaction)
    &&& rollback.top_level == (transaction.transaction_depth <= 1)
    &&& rollback.rollback_was_required == transaction.requires_rollback_maybe_up_to_top_level
    &&& command_started(
        before,
        EventModel::RollbackTransaction { depth: transaction.transaction_depth },
        rollback_sql(transaction.transaction_depth),
        rollback.command,
        after,
    )
}

/// Why no level can be closed: the record is broken, or nothing is open.
pub open spec fn cannot_close(status: TransactionManagerStatus) -> Option<Error> {
    match status {
        TransactionManagerStatus::InError => Some(Error::BrokenTransactionManager),
        TransactionManagerStatus::Valid(valid) => if valid.in_transaction is None {
            Some(Error::NotInTransaction)
        } else {
            None
        },
    }
}

impl AnsiTransactionManager {
    /// The record of the open transaction of `conn`.
    pub fn transaction_manager_status_mut(conn: &mut PgConnection) -> (status:
        &mut TransactionManagerStatus)
        ensures
            *status == old(conn)@.manager.status,
            final(conn)@ == old(conn)@.with_status(*final(status)),
    {
        &mut conn.connection_and_transaction_manager.transaction_state.status
    }

    /// Whether a pooled connection in this state must not be handed out again: the record is
    /// broken, or holds an open transaction that is no test transaction.
    pub fn is_broken_transaction_manager(conn: &mut PgConnection) -> (broken: bool)
        ensures
            broken == old(conn)@.manager.status.is_broken(),
            final(conn)@ == old(conn)@,
    {
        match &conn.connection_and_transaction_manager.transaction_state.status {
            TransactionManagerStatus::InError => true,
            TransactionManagerStatus::Valid(valid) => match &valid.in_transaction {
                Some(transaction) => !transaction.test_transaction,
                None => false,
            },
        }
    }

    /// Opens a transaction; inside of one, opens a savepoint.
    pub fn begin_transaction(conn: &mut PgConnection) -> (result: QueryResult<BeginTransaction>)
        ensures
            match old(conn)@.manager.status {
                TransactionManagerStatus::InError => {
                    &&& result == QueryResult::<BeginTransaction>::Err(
                        Error::BrokenTransactionManager,
                    )
                    &&& final(conn)@ == old(conn)@
                },
                TransactionManagerStatus::Valid(valid) => {
                    &&& result matches Ok(begin)
                    &&& command_started(
                        old(conn)@,
                        EventModel::BeginTransaction {
                            depth: reported_begin_depth(valid.spec_transaction_depth()),
                        },
                        begin_sql(valid.spec_transaction_depth()),
                        begin.command,
                        final(conn)@,
                    )
                },
            },
    {
        let depth: Option<u32> = match conn.connection_and_transaction_manager.transaction_state
            .status.transaction_depth() {
            Ok(depth) => depth,
            Err(error) => return Err(error),
        };
        let sql: String = begin_command(depth);
        let reported_depth: u32 = match depth {
            Some(depth) => if depth < u32::MAX {
                depth + 1
            } else {
                1
            },
            None => 1,
        };
        conn.connection_and_transaction_manager.report(
            InstrumentationEvent::BeginTransaction { depth: reported_depth },
        );
        proof {
            lemma_commands_have_no_nul(depth, 1);
        }
        match conn.batch_execute(sql.as_str()) {
            Ok(command) => Ok(BeginTransaction { command }),
            Err(error) => Err(error),
        }
    }

    /// Opens a top level transaction with a command of the caller's own, which sets such things
    /// as an isolation level. Refused inside of a transaction.
    pub fn begin_transaction_sql(conn: &mut PgConnection, sql: &str) -> (result: QueryResult<
        BeginTransaction,
    >)
        ensures
            match old(conn)@.manager.status {
                TransactionManagerStatus::InError => {
                    &&& result == QueryResult::<BeginTransaction>::Err(
                        Error::BrokenTransactionManager,
                    )
                    &&& final(conn)@ == old(conn)@
                },
                TransactionManagerStatus::Valid(valid) => if valid.in_transaction is Some {
                    &&& result == QueryResult::<BeginTransaction>::Err(Error::AlreadyInTransaction)
                    &&& final(conn)@ == old(conn)@
                } else if has_nul(sql@) {
                    &&& result matches Err(Error::InvalidCString(nul))
                    &&& crate::text::first_nul(encode_utf8(sql@), nul.position as int)
                    &&& nul.data@ == sql@
                    &&& final(conn)@ == old(conn)@.reporting(
                        EventModel::BeginTransaction { depth: 1 },
                    ).reporting(EventModel::StartQuery { query: sql@ })
                } else {
                    &&& result matches Ok(begin)
                    &&& command_started(
                        old(conn)@,
                        EventModel::BeginTransaction { depth: 1 },
                        sql@,
                        begin.command,
                        final(conn)@,
                    )
                },
            },
    {
        match conn.connection_and_transaction_manager.transaction_state.status.transaction_depth() {
            Ok(Some(_)) => return Err(Error::AlreadyInTransaction),
            Ok(None) => {},
            Err(error) => return Err(error),
        }
        conn.connection_and_transaction_manager.report(
            InstrumentationEvent::BeginTransaction { depth: 1 },
        );
        match conn.batch_execute(sql) {
            Ok(command) => Ok(BeginTransaction { command }),
            Err(error) => Err(error),
        }
    }

    /// Rolls the transaction back; inside of a savepoint, rolls back to it.
    pub fn rollback_transaction(conn: &mut PgConnection) -> (result: QueryResult<
        RollbackTransaction,
    >)
        ensures
            match cannot_close(old(conn)@.manager.status) {
                Some(error) => {
                    &&& result == QueryResult::<RollbackTransaction>::Err(error)
                    &&& final(conn)@ == old(conn)@
                },
                None => {
                    &&& result matches Ok(rollback)
                    &&& rollback_started(old(conn)@, rollback, final(conn)@)
                },
            },
            old(conn)@.wf() ==> final(conn)@.wf(),
    {
        let valid: ValidTransactionManagerStatus =
            match conn.connection_and_transaction_manager.transaction_state.status {
            TransactionManagerStatus::Valid(valid) => valid,
            TransactionManagerStatus::InError => return Err(Error::BrokenTransactionManager),
        };
        match valid.in_transaction {
            Some(transaction) => {
                let depth: u32 = transaction.transaction_depth;
                let sql: String = rollback_command(depth);
                conn.connection_and_transaction_manager.report(
                    InstrumentationEvent::RollbackTransaction { depth },
                );
                proof {
                    lemma_commands_have_no_nul(None, depth);
                }
                match conn.batch_execute(sql.as_str()) {
                    Ok(command) => Ok(
                        RollbackTransaction {
                            command,
                            top_level: depth <= 1,
                            rollback_was_required:
                                transaction.requires_rollback_maybe_up_to_top_level,
                        },
                    ),
                    Err(error) => Err(error),
                }
            },
            None => Err(Error::NotInTransaction),
        }
    }

    /// Commits the transaction; inside of a savepoint, releases it.
    pub fn commit_transaction(conn: &mut PgConnection) -> (result: QueryResult<CommitTransaction>)
        ensures
            match cannot_close(old(conn)@.manager.status) {
                Some(error) => {
                    &&& result == QueryResult::<CommitTransaction>::Err(error)
                    &&& final(conn)@ == old(conn)@
                },
                None => {
                    &&& result matches Ok(CommitTransaction::Committing { command, top_level })
                    &&& commit_started(old(conn)@, command, top_level, final(conn)@)
                },
            },
            old(conn)@.wf() ==> final(conn)@.wf(),
    {
        let depth: u32 = match conn.connection_and_transaction_manager.transaction_state
            .status.transaction_depth() {
            Ok(Some(depth)) => depth,
            Ok(None) => return Err(Error::NotInTransaction),
            Err(error) => return Err(error),
        };
        let sql: String = commit_command(depth);
        conn.connection_and_transaction_manager.report(
            InstrumentationEvent::CommitTransaction { depth },
        );
        proof {
            lemma_commands_have_no_nul(None, depth);
        }
        match conn.batch_execute(sql.as_str()) {
            Ok(command) => Ok(CommitTransaction::Committing { command, top_level: depth <= 1 }),
            Err(error) => Err(error),
        }
    }
}

/// The commit of the innermost level was handed out to be sent.
pub open spec fn commit_started(
    before: ConnectionModel,
    command: BatchExecute,
    top_level: bool,
    after: ConnectionModel,
) -> bool {
    &&& before.manager.status matches TransactionManagerStatus::Valid(valid)
    &&& valid.in_transaction matches Some(transaction)
    &&& top_level == (transaction.transaction_depth <= 1)
    &&& command_started(
        before,
        EventModel::CommitTransaction { depth: transaction.transaction_depth },
        commit_sql(transaction.transaction_depth),
        command,
        after,
    )
}

} // verus!
