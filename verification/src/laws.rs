//! What holds of the library as a whole.
use crate::connection::{BatchExecute, ConnectionModel};
use crate::error::{error_of, Error, QueryResult};
use crate::instrumentation::EventModel;
use crate::notifications::{oldest, without_oldest};
use crate::query::Step;
use crate::raw::{ExecReply, PgNotification, PgTransactionStatus};
use crate::statement_cache::{lookup, CachedStatement, PgTypeMetadata, RenderedQuery};
use crate::text::{decimal, lemma_decimal_is_injective};
use crate::transaction_builder::{ConcludeStep, ConcludeTransaction, TransactionError};
use crate::transaction_manager::{
    begin_sql, commit_sql, commit_started, rollback_sql, rollback_started, BeginTransaction,
    CommitTransaction, RollbackTransaction,
};
use crate::transaction_status::TransactionManagerStatus;
use vstd::prelude::*;

verus! {

/// Where the server has no transaction block open, the record says so after any query, whatever
/// it said before.
pub proof fn law_idle_server_repairs_the_record(status: TransactionManagerStatus, is_err: bool)
    ensures
        status.after_query(PgTransactionStatus::Idle, is_err) == TransactionManagerStatus::idle(),
{
}

/// A bad connection breaks the record, and nothing but a server without a transaction block
/// repairs it.
pub proof fn law_a_broken_record_stays_broken(
    status: TransactionManagerStatus,
    server: PgTransactionStatus,
    is_err: bool,
)
    ensures
        status.after_query(PgTransactionStatus::Unknown, is_err)
            == TransactionManagerStatus::InError,
        server != PgTransactionStatus::Idle ==> TransactionManagerStatus::InError.after_query(
            server,
            is_err,
        ) == TransactionManagerStatus::InError,
{
}

/// Following the server never opens a transaction, never changes a depth and never changes
/// whether a transaction is a test transaction; and as long as the server has a block open, it
/// does not close one either.
pub proof fn law_following_the_server_keeps_the_depth(
    status: TransactionManagerStatus,
    server: PgTransactionStatus,
    is_err: bool,
)
    ensures
        status.after_query(server, is_err).in_transaction() ==> {
            &&& status.in_transaction()
            &&& status.after_query(server, is_err).spec_transaction_depth()
                == status.spec_transaction_depth()
            &&& status.after_query(server, is_err)->Valid_0.in_transaction->0.test_transaction
                == status->Valid_0.in_transaction->0.test_transaction
        },
        status.in_transaction() && server != PgTransactionStatus::Idle && server
            != PgTransactionStatus::Unknown ==> status.after_query(server, is_err).in_transaction(),
{
}

/// The record requires a rollback after a query that leaves a failed block behind, and no longer
/// requires one after a query that succeeds in a sound block.
pub proof fn law_rollback_requirement_follows_the_server(
    status: TransactionManagerStatus,
    is_err: bool,
)
    requires
        status.in_transaction(),
    ensures
        status.after_query(
            PgTransactionStatus::InError,
            is_err,
        )->Valid_0.in_transaction->0.requires_rollback_maybe_up_to_top_level,
        !status.after_query(
            PgTransactionStatus::InTransaction,
            false,
        )->Valid_0.in_transaction->0.requires_rollback_maybe_up_to_top_level,
        status.after_query(PgTransactionStatus::InTransaction, true) == status,
{
}

/// Taking the same outcome into account twice is the same as taking it into account once.
pub proof fn law_following_the_server_is_idempotent(
    status: TransactionManagerStatus,
    server: PgTransactionStatus,
    is_err: bool,
)
    ensures
        status.after_query(server, is_err).after_query(server, is_err) == status.after_query(
            server,
            is_err,
        ),
{
}

/// Following the server keeps the record well formed.
pub proof fn law_following_the_server_keeps_the_record_well_formed(
    status: TransactionManagerStatus,
    server: PgTransactionStatus,
    is_err: bool,
)
    requires
        status.wf(),
    ensures
        status.after_query(server, is_err).wf(),
{
}

/// The savepoint that a nested transaction opens at depth `depth` is the one that is released or
/// rolled back to one level deeper. Savepoints of different depths have different names.
///
/// A depth that cannot grow any more is left out: there the next level does not get a depth of
/// its own.
pub proof fn law_levels_use_their_own_savepoint(depth: u32, other: u32)
    requires
        1 <= depth < u32::MAX,
    ensures
        begin_sql(Some(depth)) == "SAVEPOINT diesel_savepoint_"@ + decimal(depth as nat),
        commit_sql((depth + 1) as u32) == "RELEASE SAVEPOINT diesel_savepoint_"@ + decimal(
            depth as nat,
        ),
        rollback_sql((depth + 1) as u32) == "ROLLBACK TO SAVEPOINT diesel_savepoint_"@ + decimal(
            depth as nat,
        ),
        begin_sql(Some(depth)) == begin_sql(Some(other)) ==> depth == other,
{
    if begin_sql(Some(depth)) == begin_sql(Some(other)) {
        let prefix = "SAVEPOINT diesel_savepoint_"@;
        let left = prefix + decimal(depth as nat);
        let right = prefix + decimal(other as nat);
        assert(left == right);
        assert(left.skip(prefix.len() as int) =~= decimal(depth as nat));
        assert(right.skip(prefix.len() as int) =~= decimal(other as nat));
        lemma_decimal_is_injective(depth as nat, other as nat);
    }
}

/// The record has the given number of levels open.
pub open spec fn has_levels(status: TransactionManagerStatus, levels: int) -> bool {
    &&& status matches TransactionManagerStatus::Valid(valid)
    &&& match valid.in_transaction {
        None => levels == 0,
        Some(transaction) => levels == transaction.transaction_depth && levels >= 1,
    }
}

/// A command that has succeeded, and left the server with a sound transaction block.
pub open spec fn succeeded_inside(reply: ExecReply) -> bool {
    reply.result is Ok && reply.transaction_status == PgTransactionStatus::InTransaction
}

/// A command that has succeeded, and left the server without a transaction block if it closes
/// the top level, and with a sound one otherwise.
pub open spec fn succeeded_in_closing(reply: ExecReply, levels: int) -> bool {
    &&& reply.result is Ok
    &&& reply.transaction_status == if levels == 1 {
        PgTransactionStatus::Idle
    } else {
        PgTransactionStatus::InTransaction
    }
}

/// Opening adds one level.
///
/// A depth that cannot grow any more is left out.
pub proof fn law_begin_adds_a_level(
    begin: BeginTransaction,
    conn: ConnectionModel,
    reply: ExecReply,
    levels: int,
)
    requires
        has_levels(conn.manager.status, levels),
        levels < u32::MAX,
        succeeded_inside(reply),
    ensures
        begin.after(conn, reply).0 == QueryResult::<()>::Ok(()),
        has_levels(begin.after(conn, reply).1.manager.status, levels + 1),
{
}

/// Committing takes one level away.
pub proof fn law_commit_takes_a_level_away(
    before: ConnectionModel,
    command: BatchExecute,
    top_level: bool,
    conn: ConnectionModel,
    reply: ExecReply,
    levels: int,
    step: Step<CommitTransaction, QueryResult<()>>,
    after: ConnectionModel,
)
    requires
        has_levels(before.manager.status, levels),
        commit_started(before, command, top_level, conn),
        succeeded_in_closing(reply, levels),
        (CommitTransaction::Committing { command, top_level }).advances(conn, reply, step, after),
    ensures
        step == Step::<CommitTransaction, QueryResult<()>>::Done(Ok(())),
        has_levels(after.manager.status, levels - 1),
{
}

/// Rolling back takes one level away.
pub proof fn law_rollback_takes_a_level_away(
    before: ConnectionModel,
    rollback: RollbackTransaction,
    conn: ConnectionModel,
    reply: ExecReply,
    levels: int,
)
    requires
        has_levels(before.manager.status, levels),
        rollback_started(before, rollback, conn),
        succeeded_in_closing(reply, levels),
    ensures
        rollback.after(conn, reply).0 == QueryResult::<()>::Ok(()),
        has_levels(rollback.after(conn, reply).1.manager.status, levels - 1),
{
}

/// A commit that fails, but leaves the server without a transaction block, ends with its error
/// and a record without an open transaction. So it is when a deferred constraint fails.
pub proof fn law_a_commit_that_ends_the_block_ends_the_transaction(
    command: BatchExecute,
    top_level: bool,
    conn: ConnectionModel,
    reply: ExecReply,
    error: Error,
    step: Step<CommitTransaction, QueryResult<()>>,
    after: ConnectionModel,
)
    requires
        reply.result matches Err(reported) && reported == error,
        reply.transaction_status == PgTransactionStatus::Idle,
        (CommitTransaction::Committing { command, top_level }).advances(conn, reply, step, after),
    ensures
        step == Step::<CommitTransaction, QueryResult<()>>::Done(Err(error)),
        after.manager.status == TransactionManagerStatus::idle(),
{
}

/// A rollback that fails, but leaves the server without a transaction block, ends with its error
/// and a record without an open transaction.
pub proof fn law_a_rollback_that_ends_the_block_ends_the_transaction(
    rollback: RollbackTransaction,
    conn: ConnectionModel,
    reply: ExecReply,
)
    requires
        reply.result is Err,
        reply.transaction_status == PgTransactionStatus::Idle,
    ensures
        error_of(rollback.after(conn, reply).0) == error_of(reply.result),
        rollback.after(conn, reply).1.manager.status == TransactionManagerStatus::idle(),
{
}

/// Once the connection may be unusable up to the top level, a savepoint that fails to roll back
/// is passed over: the caller is told of success, one level is gone, and the requirement stays.
pub proof fn law_a_failed_savepoint_rollback_is_passed_over(
    before: ConnectionModel,
    rollback: RollbackTransaction,
    conn: ConnectionModel,
    reply: ExecReply,
    levels: int,
)
    requires
        has_levels(before.manager.status, levels),
        levels > 1,
        before.manager.status->Valid_0.in_transaction->0.requires_rollback_maybe_up_to_top_level,
        rollback_started(before, rollback, conn),
        reply.result is Err,
        reply.transaction_status == PgTransactionStatus::InError,
    ensures
        rollback.after(conn, reply).0 == QueryResult::<()>::Ok(()),
        ({
            let status = rollback.after(conn, reply).1.manager.status;
            &&& has_levels(status, levels - 1)
            &&& status->Valid_0.in_transaction->0.requires_rollback_maybe_up_to_top_level
        }),
{
}

/// Work that succeeds is committed: the caller gets its value, and one level is gone.
pub proof fn law_work_that_succeeds_is_committed<T, E>(
    before: ConnectionModel,
    command: BatchExecute,
    top_level: bool,
    value: T,
    conn: ConnectionModel,
    reply: ExecReply,
    levels: int,
    step: ConcludeStep<T, E>,
    after: ConnectionModel,
)
    requires
        has_levels(before.manager.status, levels),
        commit_started(before, command, top_level, conn),
        succeeded_in_closing(reply, levels),
        (ConcludeTransaction::<T, E>::Committing {
            commit: CommitTransaction::Committing { command, top_level },
            value,
        }).advances(conn, reply, step, after),
    ensures
        step == ConcludeStep::<T, E>::Done(Ok(value)),
        has_levels(after.manager.status, levels - 1),
        after.manager.raw_connection.transaction_status == reply.transaction_status,
{
    let commit = CommitTransaction::Committing { command, top_level };
    let commit_step = choose|commit_step: Step<CommitTransaction, QueryResult<()>>|
        {
            &&& #[trigger] commit.advances(conn, reply, commit_step, after)
            &&& step == match commit_step {
                Step::Pending(commit) => ConcludeStep::<T, E>::Pending(
                    ConcludeTransaction::Committing { commit, value },
                ),
                Step::Done(Ok(_)) => ConcludeStep::<T, E>::Done(Ok(value)),
                Step::Done(Err(error)) => ConcludeStep::<T, E>::Done(
                    Err(TransactionError::Query(error)),
                ),
            }
        };
    law_commit_takes_a_level_away(
        before,
        command,
        top_level,
        conn,
        reply,
        levels,
        commit_step,
        after,
    );
}

/// Once the server has left the block, its reply to the commit decides: the caller gets the value
/// of the work, or the error of the commit, and no transaction is open either way.
pub proof fn law_the_reply_to_a_commit_decides<T, E>(
    command: BatchExecute,
    value: T,
    conn: ConnectionModel,
    reply: ExecReply,
    step: ConcludeStep<T, E>,
    after: ConnectionModel,
)
    requires
        reply.transaction_status == PgTransactionStatus::Idle,
        (ConcludeTransaction::<T, E>::Committing {
            commit: CommitTransaction::Committing { command, top_level: true },
            value,
        }).advances(conn, reply, step, after),
    ensures
        step == ConcludeStep::<T, E>::Done(
            match reply.result {
                Ok(_) => Ok(value),
                Err(error) => Err(TransactionError::Query(error)),
            },
        ),
        after.manager.status == TransactionManagerStatus::idle(),
        after.manager.raw_connection.transaction_status == PgTransactionStatus::Idle,
{
    let commit = CommitTransaction::Committing { command, top_level: true };
    let commit_step = choose|commit_step: Step<CommitTransaction, QueryResult<()>>|
        {
            &&& #[trigger] commit.advances(conn, reply, commit_step, after)
            &&& step == match commit_step {
                Step::Pending(commit) => ConcludeStep::<T, E>::Pending(
                    ConcludeTransaction::Committing { commit, value },
                ),
                Step::Done(Ok(_)) => ConcludeStep::<T, E>::Done(Ok(value)),
                Step::Done(Err(error)) => ConcludeStep::<T, E>::Done(
                    Err(TransactionError::Query(error)),
                ),
            }
        };
    assert(commit_step == Step::<CommitTransaction, QueryResult<()>>::Done(
        BatchExecute::outcome(reply),
    ));
}

/// Work that fails is rolled back: the caller gets its error, and one level is gone.
pub proof fn law_work_that_fails_is_rolled_back<T, E>(
    before: ConnectionModel,
    rollback: RollbackTransaction,
    user_error: E,
    conn: ConnectionModel,
    reply: ExecReply,
    levels: int,
    step: ConcludeStep<T, E>,
    after: ConnectionModel,
)
    requires
        has_levels(before.manager.status, levels),
        rollback_started(before, rollback, conn),
        succeeded_in_closing(reply, levels),
        (ConcludeTransaction::<T, E>::RollingBack { rollback, user_error }).advances(
            conn,
            reply,
            step,
            after,
        ),
    ensures
        step == ConcludeStep::<T, E>::Done(Err(TransactionError::Callback(user_error))),
        has_levels(after.manager.status, levels - 1),
        after.manager.raw_connection.transaction_status == reply.transaction_status,
{
    law_rollback_takes_a_level_away(before, rollback, conn, reply, levels);
}

/// A batch that is sent is reported as started once and as finished once, with its outcome.
pub proof fn law_a_batch_is_reported_once(
    conn: ConnectionModel,
    log: Seq<EventModel>,
    query: Seq<char>,
    batch: BatchExecute,
    reply: ExecReply,
)
    requires
        conn.manager.events == Some(log),
        batch.source() == query,
    ensures
        batch.after(conn.reporting(EventModel::StartQuery { query }), reply).manager.events
            == Some(
            log.push(EventModel::StartQuery { query }).push(
                EventModel::FinishQuery { query, error: error_of(reply.result) },
            ),
        ),
{
}

/// A statement that was added for a query is found again, unless one was there before; and what
/// was found before is still found.
pub proof fn law_a_kept_statement_is_found_again(
    statements: Seq<CachedStatement>,
    entry: CachedStatement,
    query: RenderedQuery,
    bind_types: Seq<PgTypeMetadata>,
)
    ensures
        lookup(statements.push(entry), query, bind_types) == match lookup(
            statements,
            query,
            bind_types,
        ) {
            Some(statement) => Some(statement),
            None => if entry.serves(query, bind_types) {
                Some(entry.statement)
            } else {
                None
            },
        },
    decreases statements.len(),
{
    let pushed = statements.push(entry);
    if statements.len() == 0 {
        assert(pushed[0] == entry);
        assert(lookup(pushed.drop_first(), query, bind_types) is None);
    } else {
        assert(pushed[0] == statements[0]);
        assert(pushed.drop_first() =~= statements.drop_first().push(entry));
        law_a_kept_statement_is_found_again(statements.drop_first(), entry, query, bind_types);
    }
}

/// What is left after `n` notifications were taken.
pub open spec fn taken(waiting: Seq<QueryResult<PgNotification>>, n: nat) -> Seq<
    QueryResult<PgNotification>,
>
    decreases n,
{
    if n == 0 {
        waiting
    } else {
        taken(without_oldest(waiting), (n - 1) as nat)
    }
}

/// Notifications are handed out in the order in which they were received, each of them once.
pub proof fn law_notifications_come_in_order(waiting: Seq<QueryResult<PgNotification>>, n: nat)
    ensures
        oldest(taken(waiting, n)) == if n < waiting.len() {
            Some(waiting[n as int])
        } else {
            None
        },
    decreases n,
{
    if n > 0 {
        law_notifications_come_in_order(without_oldest(waiting), (n - 1) as nat);
    }
}

/// After none was left, a notification that is received is handed out.
pub proof fn law_notifications_can_come_after_none(
    waiting: Seq<QueryResult<PgNotification>>,
    received: QueryResult<PgNotification>,
)
    requires
        oldest(waiting) is None,
    ensures
        oldest(waiting.push(received)) == Some(received),
        oldest(without_oldest(waiting.push(received))) is None,
{
}

} // verus!
