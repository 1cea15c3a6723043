//! Which commands open and close transactions, and what their replies lead to.
use crate::connection::{AnsiTransactionManager, BatchExecute, ConnectionModel, PgConnection};
use crate::connection_laws::{heard, only_a_query_ended, only_events_differ};
use crate::error::{Error, QueryResult};
use crate::instrumentation::EventModel;
use crate::query::Step;
use crate::raw::ExecReply;
use crate::record_laws::{followed, nothing_open, open_at, open_transaction};
use crate::text::{append_decimal, decimal, CString};
use crate::transaction_builder::{
    ConcludeStep, ConcludeTransaction, Deferrable, IsolationLevel, ReadMode, TransactionBuilder,
    TransactionError,
};
use crate::transaction_manager::{BeginTransaction, CommitTransaction, RollbackTransaction};
use crate::transaction_status::TransactionManagerStatus;
use vstd::prelude::*;
use vstd::utf8::encode_utf8;

verus! {

/// A command with this text is to be sent. The event was reported, and the start of the command
/// behind it, and nothing else has changed.
pub open spec fn is_handed_out(
    before: ConnectionModel,
    event: EventModel,
    sql: Seq<char>,
    command: BatchExecute,
    after: ConnectionModel,
) -> bool {
    &&& command.source() == sql
    &&& command.bytes() == encode_utf8(sql)
    &&& only_events_differ(before, after)
    &&& after.manager.events == heard(
        heard(before.manager.events, event),
        EventModel::StartQuery { query: sql },
    )
}

/// The end of a command was reported with the outcome of the reply, whose transaction status was
/// noted.
pub open spec fn is_replied_to(
    before: ConnectionModel,
    command: BatchExecute,
    reply: ExecReply,
    after: ConnectionModel,
) -> bool {
    &&& only_a_query_ended(before, after)
    &&& after.manager.raw_connection.transaction_status == reply.transaction_status
    &&& after.manager.events == heard(
        before.manager.events,
        EventModel::FinishQuery {
            query: command.source(),
            error: match reply.result {
                Ok(_) => None,
                Err(error) => Some(error),
            },
        },
    )
}

/// A number is written in decimal behind a text.
pub proof fn law_numbers_are_written_behind_texts(text: &mut String, number: u32, done: ())
    requires
        call_ensures(append_decimal, (text, number), done),
    ensures
        final(text)@ == old(text)@ + decimal(number as nat),
{
}

/// Opening begins a transaction where none is open, and a savepoint that is named after the depth
/// otherwise. It is refused on a broken record. The depth that is reported is the one that the
/// level will have; where that cannot grow it is one.
pub proof fn law_a_level_is_opened(conn: &mut PgConnection, result: QueryResult<BeginTransaction>)
    requires
        call_ensures(AnsiTransactionManager::begin_transaction, (conn,), result),
    ensures
        match old(conn)@.manager.status {
            TransactionManagerStatus::InError => {
                &&& result == QueryResult::<BeginTransaction>::Err(
                    Error::BrokenTransactionManager,
                )
                &&& final(conn)@ == old(conn)@
            },
            TransactionManagerStatus::Valid(valid) => {
                &&& result matches Ok(begin)
                &&& match valid.in_transaction {
                    None => is_handed_out(
                        old(conn)@,
                        EventModel::BeginTransaction { depth: 1 },
                        "BEGIN"@,
                        begin.command,
                        final(conn)@,
                    ),
                    Some(t) => is_handed_out(
                        old(conn)@,
                        EventModel::BeginTransaction {
                            depth: if t.transaction_depth == u32::MAX {
                                1
                            } else {
                                (t.transaction_depth + 1) as u32
                            },
                        },
                        "SAVEPOINT diesel_savepoint_"@ + decimal(t.transaction_depth as nat),
                        begin.command,
                        final(conn)@,
                    ),
                }
            },
        },
{
}

/// A command of the caller's own opens the top level alone: inside of a transaction, and on a
/// broken record, it is refused, and nothing happens.
pub proof fn law_a_transaction_is_opened_by_a_command(
    conn: &mut PgConnection,
    sql: &str,
    result: QueryResult<BeginTransaction>,
)
    requires
        call_ensures(AnsiTransactionManager::begin_transaction_sql, (conn, sql), result),
    ensures
        match old(conn)@.manager.status {
            TransactionManagerStatus::InError => {
                &&& result == QueryResult::<BeginTransaction>::Err(
                    Error::BrokenTransactionManager,
                )
                &&& final(conn)@ == old(conn)@
            },
            TransactionManagerStatus::Valid(valid) => if valid.in_transaction is Some {
                &&& result == QueryResult::<BeginTransaction>::Err(Error::AlreadyInTransaction)
                &&& final(conn)@ == old(conn)@
            } else {
                &&& result is Err <==> sql@.contains('\0')
                &&& result matches Ok(begin) ==> is_handed_out(
                    old(conn)@,
                    EventModel::BeginTransaction { depth: 1 },
                    sql@,
                    begin.command,
                    final(conn)@,
                )
                &&& result matches Err(error) ==> {
                    &&& error matches Error::InvalidCString(nul)
                    &&& nul.data@ == sql@
                    &&& only_events_differ(old(conn)@, final(conn)@)
                    &&& final(conn)@.manager.events == heard(
                        heard(old(conn)@.manager.events, EventModel::BeginTransaction { depth: 1 }),
                        EventModel::StartQuery { query: sql@ },
                    )
                }
            },
        },
{
}

/// The text that each option takes in the opening command, whatever the other options are.
pub open spec fn opening_command(
    isolation_level: Option<IsolationLevel>,
    read_mode: Option<ReadMode>,
    deferrable: Option<Deferrable>,
) -> Seq<char> {
    "BEGIN TRANSACTION"@ + (match isolation_level {
        Some(IsolationLevel::ReadCommitted) => " ISOLATION LEVEL READ COMMITTED"@,
        Some(IsolationLevel::RepeatableRead) => " ISOLATION LEVEL REPEATABLE READ"@,
        Some(IsolationLevel::Serializable) => " ISOLATION LEVEL SERIALIZABLE"@,
        None => Seq::<char>::empty(),
    }) + (match read_mode {
        Some(ReadMode::ReadOnly) => " READ ONLY"@,
        Some(ReadMode::ReadWrite) => " READ WRITE"@,
        None => Seq::<char>::empty(),
    }) + (match deferrable {
        Some(Deferrable::Deferrable) => " DEFERRABLE"@,
        Some(Deferrable::NotDeferrable) => " NOT DEFERRABLE"@,
        None => Seq::<char>::empty(),
    })
}

/// Each option takes its own part of the opening command, whatever the other options are.
pub proof fn law_each_option_is_part_of_the_command<'a>(
    builder: &TransactionBuilder<'a>,
    sql: String,
)
    requires
        call_ensures(TransactionBuilder::to_sql, (builder,), sql),
    ensures
        sql@ == opening_command(builder.isolation_level, builder.read_mode, builder.deferrable),
{
    reveal_strlit("");
    assert(""@ =~= Seq::<char>::empty());
}

/// A read mode, and deferrability, stand behind the text that the other options lead to.
pub proof fn law_options_are_added_behind_each_other<'a, 'b>(
    builder: &TransactionBuilder<'a>,
    sql: String,
    other: &TransactionBuilder<'b>,
    other_sql: String,
)
    requires
        call_ensures(TransactionBuilder::to_sql, (builder,), sql),
        call_ensures(TransactionBuilder::to_sql, (other,), other_sql),
        builder.isolation_level == other.isolation_level,
        builder.deferrable is None,
        builder.read_mode is None || builder.read_mode == other.read_mode,
    ensures
        sql@.is_prefix_of(other_sql@),
        builder.read_mode == other.read_mode ==> other_sql@.skip(sql@.len() as int)
            == match other.deferrable {
            Some(Deferrable::Deferrable) => " DEFERRABLE"@,
            Some(Deferrable::NotDeferrable) => " NOT DEFERRABLE"@,
            None => Seq::<char>::empty(),
        },
        builder.read_mode is None && other.deferrable is None ==> other_sql@.skip(
            sql@.len() as int,
        ) == match other.read_mode {
            Some(ReadMode::ReadOnly) => " READ ONLY"@,
            Some(ReadMode::ReadWrite) => " READ WRITE"@,
            None => Seq::<char>::empty(),
        },
{
    law_each_option_is_part_of_the_command(builder, sql);
    law_each_option_is_part_of_the_command(other, other_sql);
    if builder.read_mode == other.read_mode {
        assert(other_sql@.skip(sql@.len() as int) =~= match other.deferrable {
            Some(Deferrable::Deferrable) => " DEFERRABLE"@,
            Some(Deferrable::NotDeferrable) => " NOT DEFERRABLE"@,
            None => Seq::<char>::empty(),
        });
    }
    if builder.read_mode is None && other.deferrable is None {
        assert(other_sql@.skip(sql@.len() as int) =~= match other.read_mode {
            Some(ReadMode::ReadOnly) => " READ ONLY"@,
            Some(ReadMode::ReadWrite) => " READ WRITE"@,
            None => Seq::<char>::empty(),
        });
    }
}

/// A built transaction is opened with the command of its options; inside of a transaction, and on a
/// broken record, it is refused, and nothing happens.
pub proof fn law_a_built_transaction_is_opened<'a>(
    builder: TransactionBuilder<'a>,
    result: QueryResult<BeginTransaction>,
)
    requires
        call_ensures(TransactionBuilder::run, (builder,), result),
    ensures
        ({
            let before = old(builder.connection)@;
            let after = final(builder.connection)@;
            match before.manager.status {
                TransactionManagerStatus::InError => {
                    &&& result == QueryResult::<BeginTransaction>::Err(
                        Error::BrokenTransactionManager,
                    )
                    &&& after == before
                },
                TransactionManagerStatus::Valid(valid) => if valid.in_transaction is Some {
                    &&& result == QueryResult::<BeginTransaction>::Err(Error::AlreadyInTransaction)
                    &&& after == before
                } else {
                    &&& result matches Ok(begin)
                    &&& is_handed_out(
                        before,
                        EventModel::BeginTransaction { depth: 1 },
                        opening_command(
                            builder.isolation_level,
                            builder.read_mode,
                            builder.deferrable,
                        ),
                        begin.command,
                        after,
                    )
                },
            }
        }),
{
    reveal_strlit("");
    assert(""@ =~= Seq::<char>::empty());
}

/// The builder keeps what it was told, each option apart from the others, and has none at first.
pub proof fn law_options_are_kept_apart<'a>(
    conn: &'a mut PgConnection,
    fresh: TransactionBuilder<'a>,
    builder: TransactionBuilder<'a>,
    read_only: TransactionBuilder<'a>,
    read_write: TransactionBuilder<'a>,
    deferrable: TransactionBuilder<'a>,
    not_deferrable: TransactionBuilder<'a>,
)
    requires
        call_ensures(PgConnection::build_transaction, (conn,), fresh),
        call_ensures(TransactionBuilder::read_only, (builder,), read_only),
        call_ensures(TransactionBuilder::read_write, (builder,), read_write),
        call_ensures(TransactionBuilder::deferrable, (builder,), deferrable),
        call_ensures(TransactionBuilder::not_deferrable, (builder,), not_deferrable),
    ensures
        fresh.isolation_level is None && fresh.read_mode is None && fresh.deferrable is None,
        read_only.read_mode == Some(ReadMode::ReadOnly),
        read_only.isolation_level == builder.isolation_level,
        read_only.deferrable == builder.deferrable,
        read_write.read_mode == Some(ReadMode::ReadWrite),
        read_write.isolation_level == builder.isolation_level,
        read_write.deferrable == builder.deferrable,
        deferrable.deferrable == Some(Deferrable::Deferrable),
        deferrable.isolation_level == builder.isolation_level,
        deferrable.read_mode == builder.read_mode,
        not_deferrable.deferrable == Some(Deferrable::NotDeferrable),
        not_deferrable.isolation_level == builder.isolation_level,
        not_deferrable.read_mode == builder.read_mode,
{
}

/// The same of isolation levels.
pub proof fn law_isolation_levels_are_kept_apart<'a>(
    builder: TransactionBuilder<'a>,
    read_committed: TransactionBuilder<'a>,
    repeatable_read: TransactionBuilder<'a>,
    serializable: TransactionBuilder<'a>,
)
    requires
        call_ensures(TransactionBuilder::read_committed, (builder,), read_committed),
        call_ensures(TransactionBuilder::repeatable_read, (builder,), repeatable_read),
        call_ensures(TransactionBuilder::serializable, (builder,), serializable),
    ensures
        read_committed.isolation_level == Some(IsolationLevel::ReadCommitted),
        read_committed.read_mode == builder.read_mode,
        read_committed.deferrable == builder.deferrable,
        repeatable_read.isolation_level == Some(IsolationLevel::RepeatableRead),
        repeatable_read.read_mode == builder.read_mode,
        repeatable_read.deferrable == builder.deferrable,
        serializable.isolation_level == Some(IsolationLevel::Serializable),
        serializable.read_mode == builder.read_mode,
        serializable.deferrable == builder.deferrable,
{
}

/// The server's reply to an opening command decides. After a failure its error is told. After a
/// success one more level is open, or the first one, unless the record broke by then.
pub proof fn law_the_reply_opens_the_level(
    begin: BeginTransaction,
    conn: &mut PgConnection,
    reply: ExecReply,
    result: QueryResult<()>,
)
    requires
        call_ensures(BeginTransaction::resume, (begin, conn, reply), result),
    ensures
        is_replied_to(old(conn)@, begin.command, reply, final(conn)@),
        ({
            let record = followed(
                old(conn)@.manager.status,
                reply.transaction_status,
                reply.result is Err,
            );
            let after = final(conn)@.manager.status;
            match reply.result {
                Err(error) => result == QueryResult::<()>::Err(error) && after == record,
                Ok(_) => match record {
                    TransactionManagerStatus::InError => result == QueryResult::<()>::Err(
                        Error::BrokenTransactionManager,
                    ) && after == record,
                    TransactionManagerStatus::Valid(valid) => {
                        &&& result == QueryResult::<()>::Ok(())
                        &&& after == match valid.in_transaction {
                            None => open_at(1, false, false),
                            Some(t) => open_at(
                                if t.transaction_depth == u32::MAX {
                                    u32::MAX
                                } else {
                                    (t.transaction_depth + 1) as u32
                                },
                                t.requires_rollback_maybe_up_to_top_level,
                                t.test_transaction,
                            ),
                        }
                    },
                },
            }
        }),
{
}

/// What rolls a level of this depth back.
pub open spec fn rolls_back(depth: u32) -> Seq<char> {
    if depth <= 1 {
        "ROLLBACK"@
    } else {
        "ROLLBACK TO SAVEPOINT diesel_savepoint_"@ + decimal((depth - 1) as nat)
    }
}

/// What commits a level of this depth.
pub open spec fn commits(depth: u32) -> Seq<char> {
    if depth <= 1 {
        "COMMIT"@
    } else {
        "RELEASE SAVEPOINT diesel_savepoint_"@ + decimal((depth - 1) as nat)
    }
}

/// The rollback of the innermost level was handed out, with what the record says of it.
pub open spec fn is_rolling_back(
    before: ConnectionModel,
    rollback: RollbackTransaction,
    after: ConnectionModel,
) -> bool {
    &&& open_transaction(before.manager.status) matches Some(t)
    &&& rollback.top_level <==> t.transaction_depth <= 1
    &&& rollback.rollback_was_required <==> t.requires_rollback_maybe_up_to_top_level
    &&& is_handed_out(
        before,
        EventModel::RollbackTransaction { depth: t.transaction_depth },
        rolls_back(t.transaction_depth),
        rollback.command,
        after,
    )
}

/// The commit of the innermost level was handed out, with what the record says of it.
pub open spec fn is_committing(
    before: ConnectionModel,
    command: BatchExecute,
    top_level: bool,
    after: ConnectionModel,
) -> bool {
    &&& open_transaction(before.manager.status) matches Some(t)
    &&& top_level <==> t.transaction_depth <= 1
    &&& is_handed_out(
        before,
        EventModel::CommitTransaction { depth: t.transaction_depth },
        commits(t.transaction_depth),
        command,
        after,
    )
}

/// Why nothing can be closed.
pub open spec fn nothing_to_close(record: TransactionManagerStatus) -> Error {
    if record is InError {
        Error::BrokenTransactionManager
    } else {
        Error::NotInTransaction
    }
}

/// The innermost level is rolled back, or released, by its own command. Without an open
/// transaction that is refused, and nothing happens.
pub proof fn law_a_level_is_closed(
    rolling: &mut PgConnection,
    rollback: QueryResult<RollbackTransaction>,
    committing: &mut PgConnection,
    commit: QueryResult<CommitTransaction>,
)
    requires
        call_ensures(AnsiTransactionManager::rollback_transaction, (rolling,), rollback),
        call_ensures(AnsiTransactionManager::commit_transaction, (committing,), commit),
    ensures
        match open_transaction(old(rolling)@.manager.status) {
            Some(_) => rollback matches Ok(rollback) && is_rolling_back(
                old(rolling)@,
                rollback,
                final(rolling)@,
            ),
            None => {
                &&& rollback == QueryResult::<RollbackTransaction>::Err(
                    nothing_to_close(old(rolling)@.manager.status),
                )
                &&& final(rolling)@ == old(rolling)@
            },
        },
        match open_transaction(old(committing)@.manager.status) {
            Some(_) => commit matches Ok(CommitTransaction::Committing { command, top_level })
                && is_committing(old(committing)@, command, top_level, final(committing)@),
            None => {
                &&& commit == QueryResult::<CommitTransaction>::Err(
                    nothing_to_close(old(committing)@.manager.status),
                )
                &&& final(committing)@ == old(committing)@
            },
        },
{
}

/// What is told, and recorded, of a level that the server has closed.
pub open spec fn is_closed(
    record: TransactionManagerStatus,
    top_level: bool,
    result: QueryResult<()>,
    after: TransactionManagerStatus,
) -> bool {
    match open_transaction(record) {
        Some(t) => {
            &&& result == QueryResult::<()>::Ok(())
            &&& after == if t.transaction_depth <= 1 {
                nothing_open()
            } else {
                open_at(
                    (t.transaction_depth - 1) as u32,
                    t.requires_rollback_maybe_up_to_top_level,
                    t.test_transaction,
                )
            }
        },
        None => {
            &&& after == record
            &&& result == if record is Valid && top_level {
                QueryResult::<()>::Ok(())
            } else {
                QueryResult::<()>::Err(nothing_to_close(record))
            }
        },
    }
}

/// What is told, and recorded, of a level that the server has failed to roll back.
pub open spec fn is_left_open(
    record: TransactionManagerStatus,
    rollback_was_required: bool,
    error: Error,
    result: QueryResult<()>,
    after: TransactionManagerStatus,
) -> bool {
    match open_transaction(record) {
        Some(t) => if t.transaction_depth <= 1 {
            &&& result == QueryResult::<()>::Err(error)
            &&& after == TransactionManagerStatus::InError
        } else {
            &&& result == if rollback_was_required {
                QueryResult::<()>::Ok(())
            } else {
                QueryResult::<()>::Err(error)
            }
            &&& after == open_at((t.transaction_depth - 1) as u32, true, t.test_transaction)
        },
        None => result == QueryResult::<()>::Err(error) && after == record,
    }
}

/// What a reply to a rollback leads to.
pub open spec fn is_rolled_back(
    before: ConnectionModel,
    rollback: RollbackTransaction,
    reply: ExecReply,
    result: QueryResult<()>,
    after: ConnectionModel,
) -> bool {
    let record = followed(before.manager.status, reply.transaction_status, reply.result is Err);
    &&& is_replied_to(before, rollback.command, reply, after)
    &&& match reply.result {
        Ok(_) => is_closed(record, rollback.top_level, result, after.manager.status),
        Err(error) => is_left_open(
            record,
            rollback.rollback_was_required,
            error,
            result,
            after.manager.status,
        ),
    }
}

/// The server's reply to a rollback decides. After a success the level is closed. After a failure a
/// savepoint counts as closed, and a top level that stays open breaks the record; the error is
/// told, unless the rollback was required already.
pub proof fn law_the_reply_rolls_the_level_back(
    rollback: RollbackTransaction,
    conn: &mut PgConnection,
    reply: ExecReply,
    result: QueryResult<()>,
)
    requires
        call_ensures(RollbackTransaction::resume, (rollback, conn, reply), result),
    ensures
        is_rolled_back(old(conn)@, rollback, reply, result, final(conn)@),
{
}

/// What a reply to a commit leads to: a closed level; the error of the commit; or, where that left
/// a transaction behind that requires a rollback, that rollback first. If that one fails as well,
/// both errors are told, and the record is broken.
pub open spec fn is_committed(
    before: ConnectionModel,
    commit: CommitTransaction,
    reply: ExecReply,
    step: Step<CommitTransaction, QueryResult<()>>,
    after: ConnectionModel,
) -> bool {
    let record = followed(before.manager.status, reply.transaction_status, reply.result is Err);
    match commit {
        CommitTransaction::Committing { command, top_level } => match reply.result {
            Ok(_) => {
                &&& step matches Step::Done(result)
                &&& is_replied_to(before, command, reply, after)
                &&& is_closed(record, top_level, result, after.manager.status)
            },
            Err(error) => if open_transaction(record) matches Some(t)
                && t.requires_rollback_maybe_up_to_top_level {
                &&& step matches Step::Pending(
                    CommitTransaction::RollingBack { rollback, commit_error },
                )
                &&& commit_error == error
                &&& exists|replied: ConnectionModel|
                    {
                        &&& #[trigger] is_replied_to(before, command, reply, replied)
                        &&& replied.manager.status == record
                        &&& is_rolling_back(replied, rollback, after)
                    }
            } else {
                &&& step == Step::<CommitTransaction, QueryResult<()>>::Done(Err(error))
                &&& is_replied_to(before, command, reply, after)
                &&& after.manager.status == record
            },
        },
        CommitTransaction::RollingBack { rollback, commit_error } => {
            &&& step matches Step::Done(Err(told))
            &&& exists|rolled_back: ConnectionModel, result: QueryResult<()>|
                {
                    &&& #[trigger] is_rolled_back(before, rollback, reply, result, rolled_back)
                    &&& match result {
                        Ok(_) => told == commit_error && after == rolled_back,
                        Err(error) => {
                            &&& told == (Error::RollbackErrorOnCommit {
                                rollback_error: Box::new(error),
                                commit_error: Box::new(commit_error),
                            })
                            &&& after.manager.status == TransactionManagerStatus::InError
                            &&& after.manager.raw_connection == rolled_back.manager.raw_connection
                            &&& after.manager.events == rolled_back.manager.events
                            &&& after.statements == rolled_back.statements
                            &&& after.types == rolled_back.types
                        },
                    }
                }
        },
    }
}

proof fn lemma_commit(
    commit: CommitTransaction,
    before: ConnectionModel,
    reply: ExecReply,
    step: Step<CommitTransaction, QueryResult<()>>,
    after: ConnectionModel,
)
    requires
        commit.advances(before, reply, step, after),
    ensures
        is_committed(before, commit, reply, step, after),
{
    match commit {
        CommitTransaction::Committing { command, top_level } => {
            let replied = command.after(before, reply);
            assert(is_replied_to(before, command, reply, replied));
        },
        CommitTransaction::RollingBack { rollback, commit_error } => {
            let (result, rolled_back) = rollback.after(before, reply);
            assert(is_rolled_back(before, rollback, reply, result, rolled_back));
        },
    }
}

/// The server's reply to a commit decides.
pub proof fn law_the_reply_commits_the_level(
    commit: CommitTransaction,
    conn: &mut PgConnection,
    reply: ExecReply,
    step: Step<CommitTransaction, QueryResult<()>>,
)
    requires
        call_ensures(CommitTransaction::resume, (commit, conn, reply), step),
    ensures
        is_committed(old(conn)@, commit, reply, step, final(conn)@),
{
    lemma_commit(commit, conn@, reply, step, final(conn)@);
}

/// What is told of work that has failed, once its rollback has come to `rollback`: its own error,
/// unless the rollback has failed otherwise than by a broken record.
pub open spec fn told_of_failed_work<T, E>(rollback: QueryResult<()>, user_error: E) -> Result<
    T,
    TransactionError<E>,
> {
    if rollback is Err && rollback->Err_0 !is BrokenTransactionManager {
        Err(TransactionError::Query(rollback->Err_0))
    } else {
        Err(TransactionError::Callback(user_error))
    }
}

/// Work that has succeeded is committed, and keeps its value; work that has failed is rolled back,
/// and keeps its error. Where nothing is open nothing happens, and that is told.
pub proof fn law_work_is_concluded<T, E>(
    conn: &mut PgConnection,
    work: Result<T, E>,
    step: ConcludeStep<T, E>,
)
    requires
        call_ensures(PgConnection::conclude_transaction::<T, E>, (conn, work), step),
    ensures
        match (open_transaction(old(conn)@.manager.status), work) {
            (None, Ok(_)) => {
                &&& step == ConcludeStep::<T, E>::Done(
                    Err(TransactionError::Query(nothing_to_close(old(conn)@.manager.status))),
                )
                &&& final(conn)@ == old(conn)@
            },
            (None, Err(user_error)) => {
                &&& step == ConcludeStep::<T, E>::Done(
                    told_of_failed_work::<T, E>(
                        Err(nothing_to_close(old(conn)@.manager.status)),
                        user_error,
                    ),
                )
                &&& final(conn)@ == old(conn)@
            },
            (Some(_), Ok(value)) => {
                &&& step matches Step::Pending(
                    ConcludeTransaction::Committing {
                        commit: CommitTransaction::Committing { command, top_level },
                        value: kept,
                    },
                )
                &&& kept == value
                &&& is_committing(old(conn)@, command, top_level, final(conn)@)
            },
            (Some(_), Err(user_error)) => {
                &&& step matches Step::Pending(
                    ConcludeTransaction::RollingBack { rollback, user_error: kept },
                )
                &&& kept == user_error
                &&& is_rolling_back(old(conn)@, rollback, final(conn)@)
            },
        },
{
}

/// Once the server replies to the commit, or the rollback, of work, the caller gets the value of
/// the work if the commit succeeds, the error of the commit if it fails, and the error of the work
/// if that is rolled back.
pub proof fn law_the_reply_concludes_the_work<T, E>(
    conclude: ConcludeTransaction<T, E>,
    conn: &mut PgConnection,
    reply: ExecReply,
    step: ConcludeStep<T, E>,
)
    requires
        call_ensures(ConcludeTransaction::<T, E>::resume, (conclude, conn, reply), step),
    ensures
        match conclude {
            ConcludeTransaction::Committing { commit, value } => {
                exists|inner: Step<CommitTransaction, QueryResult<()>>|
                    {
                        &&& #[trigger] is_committed(old(conn)@, commit, reply, inner, final(conn)@)
                        &&& match inner {
                            Step::Pending(next) => step matches Step::Pending(
                                ConcludeTransaction::Committing { commit: going_on, value: kept },
                            ) && going_on == next && kept == value,
                            Step::Done(Ok(_)) => step == ConcludeStep::<T, E>::Done(Ok(value)),
                            Step::Done(Err(error)) => step == ConcludeStep::<T, E>::Done(
                                Err(TransactionError::Query(error)),
                            ),
                        }
                    }
            },
            ConcludeTransaction::RollingBack { rollback, user_error } => {
                exists|result: QueryResult<()>|
                    {
                        &&& #[trigger] is_rolled_back(
                            old(conn)@,
                            rollback,
                            reply,
                            result,
                            final(conn)@,
                        )
                        &&& step == ConcludeStep::<T, E>::Done(
                            told_of_failed_work::<T, E>(result, user_error),
                        )
                    }
            },
        },
{
    match conclude {
        ConcludeTransaction::Committing { commit, value } => {
            let inner = choose|inner: Step<CommitTransaction, QueryResult<()>>|
                {
                    &&& #[trigger] commit.advances(conn@, reply, inner, final(conn)@)
                    &&& step == match inner {
                        Step::Pending(commit) => ConcludeStep::<T, E>::Pending(
                            ConcludeTransaction::Committing { commit, value },
                        ),
                        Step::Done(Ok(_)) => ConcludeStep::<T, E>::Done(Ok(value)),
                        Step::Done(Err(error)) => ConcludeStep::<T, E>::Done(
                            Err(TransactionError::Query(error)),
                        ),
                    }
                };
            lemma_commit(commit, conn@, reply, inner, final(conn)@);
        },
        ConcludeTransaction::RollingBack { rollback, user_error } => {
            let (result, rolled_back) = rollback.after(conn@, reply);
            assert(is_rolled_back(conn@, rollback, reply, result, rolled_back));
        },
    }
}

/// The bytes that the driver has to send are those of the command at hand.
pub proof fn law_commands_send_their_bytes<T, E>(
    begin: BeginTransaction,
    begin_query: &CString,
    rollback: RollbackTransaction,
    rollback_query: &CString,
    commit: CommitTransaction,
    commit_query: &CString,
    conclude: ConcludeTransaction<T, E>,
    conclude_query: &CString,
)
    requires
        call_ensures(BeginTransaction::c_query, (&begin,), begin_query),
        call_ensures(RollbackTransaction::c_query, (&rollback,), rollback_query),
        call_ensures(CommitTransaction::c_query, (&commit,), commit_query),
        call_ensures(ConcludeTransaction::<T, E>::c_query, (&conclude,), conclude_query),
    ensures
        begin_query@ == begin.command.bytes(),
        rollback_query@ == rollback.command.bytes(),
        commit_query@ == match commit {
            CommitTransaction::Committing { command, .. } => command.bytes(),
            CommitTransaction::RollingBack { rollback, .. } => rollback.command.bytes(),
        },
        conclude_query@ == match conclude {
            ConcludeTransaction::Committing { commit, .. } => match commit {
                CommitTransaction::Committing { command, .. } => command.bytes(),
                CommitTransaction::RollingBack { rollback, .. } => rollback.command.bytes(),
            },
            ConcludeTransaction::RollingBack { rollback, .. } => rollback.command.bytes(),
        },
{
}

} // verus!
