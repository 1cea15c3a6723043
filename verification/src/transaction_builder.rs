//! Running code inside of a transaction.
use crate::connection::{AnsiTransactionManager, ConnectionModel, PgConnection};
use crate::error::{Error, QueryResult};
use crate::instrumentation::EventModel;
use crate::query::Step;
use crate::raw::ExecReply;
use crate::text::{has_nul, CString};
use crate::transaction_manager::{
    cannot_close, command_started, commit_started, rollback_started, BeginTransaction,
    CommitTransaction, RollbackTransaction,
};
use crate::transaction_status::TransactionManagerStatus;
use vstd::prelude::*;

verus! {

/// How far a transaction is shielded from others.
#[derive(Debug, Clone, Copy, PartialEq, Eq, Structural)]
pub enum IsolationLevel {
    ReadCommitted,
    RepeatableRead,
    Serializable,
}

/// Whether a transaction may write.
#[derive(Debug, Clone, Copy, PartialEq, Eq, Structural)]
pub enum ReadMode {
    ReadOnly,
    ReadWrite,
}

/// Whether a transaction may wait until it can run without risk of a serialization failure.
#[derive(Debug, Clone, Copy, PartialEq, Eq, Structural)]
pub enum Deferrable {
    Deferrable,
    NotDeferrable,
}

/// The part of the opening command that an isolation level takes.
pub open spec fn isolation_sql(isolation_level: Option<IsolationLevel>) -> Seq<char> {
    match isolation_level {
        None => ""@,
        Some(IsolationLevel::ReadCommitted) => " ISOLATION LEVEL READ COMMITTED"@,
        Some(IsolationLevel::RepeatableRead) => " ISOLATION LEVEL REPEATABLE READ"@,
        Some(IsolationLevel::Serializable) => " ISOLATION LEVEL SERIALIZABLE"@,
    }
}

/// The part of the opening command that a read mode takes.
pub open spec fn read_mode_sql(read_mode: Option<ReadMode>) -> Seq<char> {
    match read_mode {
        None => ""@,
        Some(ReadMode::ReadOnly) => " READ ONLY"@,
        Some(ReadMode::ReadWrite) => " READ WRITE"@,
    }
}

/// The part of the opening command that deferrability takes.
pub open spec fn deferrable_sql(deferrable: Option<Deferrable>) -> Seq<char> {
    match deferrable {
        None => ""@,
        Some(Deferrable::Deferrable) => " DEFERRABLE"@,
        Some(Deferrable::NotDeferrable) => " NOT DEFERRABLE"@,
    }
}

/// The command that opens a transaction with the given options.
pub open spec fn transaction_sql(
    isolation_level: Option<IsolationLevel>,
    read_mode: Option<ReadMode>,
    deferrable: Option<Deferrable>,
) -> Seq<char> {
    "BEGIN TRANSACTION"@ + isolation_sql(isolation_level) + read_mode_sql(read_mode)
        + deferrable_sql(deferrable)
}

proof fn lemma_no_nul_in_both(left: Seq<char>, right: Seq<char>)
    requires
        !has_nul(left),
        !has_nul(right),
    ensures
        !has_nul(left + right),
{
    if has_nul(left + right) {
        let i = choose|i: int| 0 <= i < (left + right).len() && (left + right)[i] == '\0';
        if i < left.len() {
            assert(left[i] == '\0');
        } else {
            assert(right[i - left.len()] == '\0');
        }
    }
}

/// No opening command holds a NUL character.
pub proof fn lemma_transaction_sql_has_no_nul(
    isolation_level: Option<IsolationLevel>,
    read_mode: Option<ReadMode>,
    deferrable: Option<Deferrable>,
)
    ensures
        !has_nul(transaction_sql(isolation_level, read_mode, deferrable)),
{
    assert(!has_nul(""@)) by {
        reveal_strlit("");
    }
    assert(!has_nul("BEGIN TRANSACTION"@)) by {
        reveal_strlit("BEGIN TRANSACTION");
    }
    assert(!has_nul(isolation_sql(isolation_level))) by {
        reveal_strlit(" ISOLATION LEVEL READ COMMITTED");
        reveal_strlit(" ISOLATION LEVEL REPEATABLE READ");
        reveal_strlit(" ISOLATION LEVEL SERIALIZABLE");
    }
    assert(!has_nul(read_mode_sql(read_mode))) by {
        reveal_strlit(" READ ONLY");
        reveal_strlit(" READ WRITE");
    }
    assert(!has_nul(deferrable_sql(deferrable))) by {
        reveal_strlit(" DEFERRABLE");
        reveal_strlit(" NOT DEFERRABLE");
    }
    lemma_no_nul_in_both("BEGIN TRANSACTION"@, isolation_sql(isolation_level));
    lemma_no_nul_in_both(
        "BEGIN TRANSACTION"@ + isolation_sql(isolation_level),
        read_mode_sql(read_mode),
    );
    lemma_no_nul_in_both(
        "BEGIN TRANSACTION"@ + isolation_sql(isolation_level) + read_mode_sql(read_mode),
        deferrable_sql(deferrable),
    );
}

/// Options of a transaction that is to be run on a connection.
#[derive(Debug)]
pub struct TransactionBuilder<'a> {
    pub connection: &'a mut PgConnection,
    pub isolation_level: Option<IsolationLevel>,
    pub read_mode: Option<ReadMode>,
    pub deferrable: Option<Deferrable>,
}

impl PgConnection {
    /// Starts to describe a transaction, with such details as its isolation level.
    pub fn build_transaction(&mut self) -> (builder: TransactionBuilder<'_>)
        ensures
            *builder.connection == *old(self),
            *final(builder.connection) == *final(self),
            builder.isolation_level is None,
            builder.read_mode is None,
            builder.deferrable is None,
    {
        TransactionBuilder {
            connection: self,
            isolation_level: None,
            read_mode: None,
            deferrable: None,
        }
    }
}

impl<'a> TransactionBuilder<'a> {
    /// The transaction may not write.
    pub fn read_only(self) -> (builder: TransactionBuilder<'a>)
        ensures
            *builder.connection == *old(self.connection),
            *final(builder.connection) == *final(self.connection),
            builder.read_mode == Some(ReadMode::ReadOnly),
            builder.isolation_level == self.isolation_level,
            builder.deferrable == self.deferrable,
    {
        TransactionBuilder {
            connection: self.connection,
            isolation_level: self.isolation_level,
            read_mode: Some(ReadMode::ReadOnly),
            deferrable: self.deferrable,
        }
    }

    /// The transaction may write.
    pub fn read_write(self) -> (builder: TransactionBuilder<'a>)
        ensures
            *builder.connection == *old(self.connection),
            *final(builder.connection) == *final(self.connection),
            builder.read_mode == Some(ReadMode::ReadWrite),
            builder.isolation_level == self.isolation_level,
            builder.deferrable == self.deferrable,
    {
        TransactionBuilder {
            connection: self.connection,
            isolation_level: self.isolation_level,
            read_mode: Some(ReadMode::ReadWrite),
            deferrable: self.deferrable,
        }
    }

    /// The transaction may wait for a safe start.
    pub fn deferrable(self) -> (builder: TransactionBuilder<'a>)
        ensures
            *builder.connection == *old(self.connection),
            *final(builder.connection) == *final(self.connection),
            builder.deferrable == Some(Deferrable::Deferrable),
            builder.isolation_level == self.isolation_level,
            builder.read_mode == self.read_mode,
    {
        TransactionBuilder {
            connection: self.connection,
            isolation_level: self.isolation_level,
            read_mode: self.read_mode,
            deferrable: Some(Deferrable::Deferrable),
        }
    }

    /// The transaction starts at once.
    pub fn not_deferrable(self) -> (builder: TransactionBuilder<'a>)
        ensures
            *builder.connection == *old(self.connection),
            *final(builder.connection) == *final(self.connection),
            builder.deferrable == Some(Deferrable::NotDeferrable),
            builder.isolation_level == self.isolation_level,
            builder.read_mode == self.read_mode,
    {
        TransactionBuilder {
            connection: self.connection,
            isolation_level: self.isolation_level,
            read_mode: self.read_mode,
            deferrable: Some(Deferrable::NotDeferrable),
        }
    }

    /// The transaction sees what others have committed.
    pub fn read_committed(self) -> (builder: TransactionBuilder<'a>)
        ensures
            *builder.connection == *old(self.connection),
            *final(builder.connection) == *final(self.connection),
            builder.isolation_level == Some(IsolationLevel::ReadCommitted),
            builder.read_mode == self.read_mode,
            builder.deferrable == self.deferrable,
    {
        self.with_isolation_level(IsolationLevel::ReadCommitted)
    }

    /// The transaction sees what others had committed when it began.
    pub fn repeatable_read(self) -> (builder: TransactionBuilder<'a>)
        ensures
            *builder.connection == *old(self.connection),
            *final(builder.connection) == *final(self.connection),
            builder.isolation_level == Some(IsolationLevel::RepeatableRead),
            builder.read_mode == self.read_mode,
            builder.deferrable == self.deferrable,
    {
        self.with_isolation_level(IsolationLevel::RepeatableRead)
    }

    /// The transaction runs as if it were alone.
    pub fn serializable(self) -> (builder: TransactionBuilder<'a>)
        ensures
            *builder.connection == *old(self.connection),
            *final(builder.connection) == *final(self.connection),
            builder.isolation_level == Some(IsolationLevel::Serializable),
            builder.read_mode == self.read_mode,
            builder.deferrable == self.deferrable,
    {
        self.with_isolation_level(IsolationLevel::Serializable)
    }

    fn with_isolation_level(self, isolation_level: IsolationLevel) -> (builder: TransactionBuilder<
        'a,
    >)
        ensures
            *builder.connection == *old(self.connection),
            *final(builder.connection) == *final(self.connection),
            builder.isolation_level == Some(isolation_level),
            builder.read_mode == self.read_mode,
            builder.deferrable == self.deferrable,
    {
        TransactionBuilder {
            connection: self.connection,
            isolation_level: Some(isolation_level),
            read_mode: self.read_mode,
            deferrable: self.deferrable,
        }
    }

    /// The command that opens the transaction.
    pub fn to_sql(&self) -> (sql: String)
        ensures
            sql@ == transaction_sql(self.isolation_level, self.read_mode, self.deferrable),
    {
        let mut sql: String = "BEGIN TRANSACTION".to_owned();
        sql.append(
            match self.isolation_level {
                None => "",
                Some(IsolationLevel::ReadCommitted) => " ISOLATION LEVEL READ COMMITTED",
                Some(IsolationLevel::RepeatableRead) => " ISOLATION LEVEL REPEATABLE READ",
                Some(IsolationLevel::Serializable) => " ISOLATION LEVEL SERIALIZABLE",
            },
        );
        sql.append(
            match self.read_mode {
                None => "",
                Some(ReadMode::ReadOnly) => " READ ONLY",
                Some(ReadMode::ReadWrite) => " READ WRITE",
            },
        );
        sql.append(
            match self.deferrable {
                None => "",
                Some(Deferrable::Deferrable) => " DEFERRABLE",
                Some(Deferrable::NotDeferrable) => " NOT DEFERRABLE",
            },
        );
        sql
    }

    /// Opens the transaction. Refused inside of another one.
    ///
    /// Once it is open, the caller does its work in it, and hands the outcome to
    /// [`PgConnection::conclude_transaction`].
    pub fn run(self) -> (result: QueryResult<BeginTransaction>)
        ensures
            match old(self.connection)@.manager.status {
                TransactionManagerStatus::InError => {
                    &&& result == QueryResult::<BeginTransaction>::Err(
                        Error::BrokenTransactionManager,
                    )
                    &&& final(self.connection)@ == old(self.connection)@
                },
                TransactionManagerStatus::Valid(valid) => if valid.in_transaction is Some {
                    &&& result == QueryResult::<BeginTransaction>::Err(Error::AlreadyInTransaction)
                    &&& final(self.connection)@ == old(self.connection)@
                } else {
                    &&& result matches Ok(begin)
                    &&& command_started(
                        old(self.connection)@,
                        EventModel::BeginTransaction { depth: 1 },
                        transaction_sql(self.isolation_level, self.read_mode, self.deferrable),
                        begin.command,
                        final(self.connection)@,
                    )
                },
            },
    {
        let sql: String = self.to_sql();
        proof {
            lemma_transaction_sql_has_no_nul(
                self.isolation_level,
                self.read_mode,
                self.deferrable,
            );
        }
        AnsiTransactionManager::begin_transaction_sql(self.connection, sql.as_str())
    }
}

/// Why work in a transaction has failed.
#[derive(Debug, PartialEq, Eq)]
pub enum TransactionError<E> {
    /// The work itself has failed.
    Callback(E),
    /// The transaction could not be closed.
    Query(Error),
}

/// A transaction that is being closed, by the outcome of the work in it.
#[derive(Debug, PartialEq, Eq)]
pub enum ConcludeTransaction<T, E> {
    /// The work has succeeded.
    Committing { commit: CommitTransaction, value: T },
    /// The work has failed.
    RollingBack { rollback: RollbackTransaction, user_error: E },
}

/// A step of closing a transaction.
pub type ConcludeStep<T, E> = Step<ConcludeTransaction<T, E>, Result<T, TransactionError<E>>>;

/// What the caller is told after the work has failed, and a rollback was attempted.
///
/// If the record of the transaction is broken, the failure of the work is the likely cause, and
/// more telling.
pub open spec fn after_failed_work<T, E>(rollback: QueryResult<()>, user_error: E) -> Result<
    T,
    TransactionError<E>,
> {
    match rollback {
        Err(error) if error != Error::BrokenTransactionManager => Err(
            TransactionError::Query(error),
        ),
        _ => Err(TransactionError::Callback(user_error)),
    }
}

fn tell_failed_work<T, E>(rollback: QueryResult<()>, user_error: E) -> (result: Result<
    T,
    TransactionError<E>,
>)
    ensures
        result == after_failed_work::<T, E>(rollback, user_error),
{
    match rollback {
        Ok(()) => Err(TransactionError::Callback(user_error)),
        Err(Error::BrokenTransactionManager) => Err(TransactionError::Callback(user_error)),
        Err(error) => Err(TransactionError::Query(error)),
    }
}

impl<T, E> ConcludeTransaction<T, E> {
    /// The bytes that are to be sent.
    pub open spec fn bytes(self) -> Seq<u8> {
        match self {
            ConcludeTransaction::Committing { commit, .. } => commit.command().bytes(),
            ConcludeTransaction::RollingBack { rollback, .. } => rollback.command.bytes(),
        }
    }

    /// The text that the driver has to send.
    pub fn c_query(&self) -> (c_query: &CString)
        ensures
            c_query@ == self.bytes(),
    {
        match self {
            ConcludeTransaction::Committing { commit, .. } => commit.c_query(),
            ConcludeTransaction::RollingBack { rollback, .. } => rollback.c_query(),
        }
    }

    /// How things may stand after the reply.
    pub open spec fn advances(
        self,
        conn: ConnectionModel,
        reply: ExecReply,
        step: ConcludeStep<T, E>,
        after: ConnectionModel,
    ) -> bool {
        match self {
            ConcludeTransaction::Committing { commit, value } => {
                exists|commit_step: Step<CommitTransaction, QueryResult<()>>|
                    {
                        &&& #[trigger] commit.advances(conn, reply, commit_step, after)
                        &&& step == match commit_step {
                            Step::Pending(commit) => ConcludeStep::<T, E>::Pending(
                                ConcludeTransaction::Committing { commit, value },
                            ),
                            Step::Done(Ok(_)) => ConcludeStep::<T, E>::Done(Ok(value)),
                            Step::Done(Err(error)) => ConcludeStep::<T, E>::Done(
                                Err(TransactionError::Query(error)),
                            ),
                        }
                    }
            },
            ConcludeTransaction::RollingBack { rollback, user_error } => {
                let (result, rolled_back) = rollback.after(conn, reply);
                &&& step == ConcludeStep::<T, E>::Done(
                    after_failed_work::<T, E>(result, user_error),
                )
                &&& after == rolled_back
            },
        }
    }

    /// Takes the server's reply.
    pub fn resume(self, conn: &mut PgConnection, reply: ExecReply) -> (step: ConcludeStep<T, E>)
        ensures
            self.advances(old(conn)@, reply, step, final(conn)@),
            old(conn)@.wf() ==> final(conn)@.wf(),
    {
        match self {
            ConcludeTransaction::Committing { commit, value } => {
                let commit_step = commit.resume(conn, reply);
                proof {
                    assert(commit.advances(old(conn)@, reply, commit_step, conn@));
                }
                match commit_step {
                    Step::Pending(commit) => Step::Pending(
                        ConcludeTransaction::Committing { commit, value },
                    ),
                    Step::Done(Ok(())) => Step::Done(Ok(value)),
                    Step::Done(Err(error)) => Step::Done(Err(TransactionError::Query(error))),
                }
            },
            ConcludeTransaction::RollingBack { rollback, user_error } => {
                let result = rollback.resume(conn, reply);
                Step::Done(tell_failed_work(result, user_error))
            },
        }
    }
}

impl PgConnection {
    /// Closes the innermost level by the outcome of the work in it: commits if the work has
    /// succeeded, and rolls back if it has failed.
    pub fn conclude_transaction<T, E>(&mut self, work: Result<T, E>) -> (step: ConcludeStep<T, E>)
        ensures
            match (cannot_close(old(self)@.manager.status), work) {
                (Some(error), Ok(_)) => {
                    &&& step == ConcludeStep::<T, E>::Done(Err(TransactionError::Query(error)))
                    &&& final(self)@ == old(self)@
                },
                (Some(error), Err(user_error)) => {
                    &&& step == ConcludeStep::<T, E>::Done(
                        after_failed_work::<T, E>(Err(error), user_error),
                    )
                    &&& final(self)@ == old(self)@
                },
                (None, Ok(value)) => {
                    &&& step matches Step::Pending(
                        ConcludeTransaction::Committing {
                            commit: CommitTransaction::Committing { command, top_level },
                            value: kept,
                        },
                    )
                    &&& kept == value
                    &&& commit_started(old(self)@, command, top_level, final(self)@)
                },
                (None, Err(user_error)) => {
                    &&& step matches Step::Pending(
                        ConcludeTransaction::RollingBack { rollback, user_error: kept },
                    )
                    &&& kept == user_error
                    &&& rollback_started(old(self)@, rollback, final(self)@)
                },
            },
            old(self)@.wf() ==> final(self)@.wf(),
    {
        match work {
            Ok(value) => match AnsiTransactionManager::commit_transaction(self) {
                Ok(commit) => Step::Pending(ConcludeTransaction::Committing { commit, value }),
                Err(error) => Step::Done(Err(TransactionError::Query(error))),
            },
            Err(user_error) => match AnsiTransactionManager::rollback_transaction(self) {
                Ok(rollback) => Step::Pending(
                    ConcludeTransaction::RollingBack { rollback, user_error },
                ),
                Err(error) => Step::Done(tell_failed_work(Err(error), user_error)),
            },
        }
    }
}

} // verus!
