//! What holds of transactions from their start to their end.
use crate::connection::{BatchExecute, ConnectionModel, PgConnection};
use crate::error::{DatabaseErrorKind, Error, QueryResult};
use crate::execute::execution_of;
use crate::instrumentation::EventModel;
use crate::laws::{
    has_levels, law_begin_adds_a_level, law_the_reply_to_a_commit_decides,
    law_work_that_succeeds_is_committed, succeeded_inside,
};
use crate::load::{load_of, DefaultLoadingMode, Load, PgLoadingMode};
use crate::query::{Query, Reply, Step};
use crate::raw::{ExecReply, PgTransactionStatus};
use crate::runs::{
    all_report, law_the_record_follows_an_execution, run_execution, run_load, with_start,
};
use crate::transaction_builder::{
    transaction_sql, ConcludeStep, ConcludeTransaction, IsolationLevel, TransactionError,
};
use crate::transaction_manager::{
    begin_sql, command_started, commit_started, BeginTransaction, CommitTransaction,
};
use crate::transaction_status::TransactionManagerStatus;
use vstd::prelude::*;

verus! {

/// A query that looks up the type of a bind, and the replies that it is given.
pub struct LookupRun {
    pub source: Query,
    pub replies: Seq<Reply>,
}

/// A query that is executed, what is looked up until its binds are there, and the replies that it
/// is given.
pub struct QueryRun {
    pub source: Query,
    pub lookups: Seq<LookupRun>,
    pub replies: Seq<Reply>,
}

/// The connection after types were looked up, one behind the other.
pub open spec fn run_lookups(conn: ConnectionModel, lookups: Seq<LookupRun>) -> ConnectionModel
    decreases lookups.len(),
{
    if lookups.len() == 0 {
        conn
    } else {
        let lookup = lookups[0];
        let (step, after) = run_load(
            Step::Pending(load_of(lookup.source, DefaultLoadingMode)),
            with_start(conn, lookup.source),
            lookup.replies,
        );
        run_lookups(after, lookups.drop_first())
    }
}

/// The connection after queries were executed, one behind the other.
pub open spec fn run_queries(conn: ConnectionModel, work: Seq<QueryRun>) -> ConnectionModel
    decreases work.len(),
{
    if work.len() == 0 {
        conn
    } else {
        let query = work[0];
        let (step, after) = run_execution(
            Step::Pending(execution_of(query.source)),
            run_lookups(with_start(conn, query.source), query.lookups),
            query.replies,
        );
        run_queries(after, work.drop_first())
    }
}

/// The server has a sound transaction block open after each reply to the lookups.
pub open spec fn lookups_stay_sound(lookups: Seq<LookupRun>) -> bool {
    forall|i: int|
        0 <= i < lookups.len() ==> all_report(
            (#[trigger] lookups[i]).replies,
            PgTransactionStatus::InTransaction,
        )
}

/// The server has a sound transaction block open after each reply.
pub open spec fn stays_sound(work: Seq<QueryRun>) -> bool {
    forall|i: int|
        0 <= i < work.len() ==> {
            &&& lookups_stay_sound((#[trigger] work[i]).lookups)
            &&& all_report(work[i].replies, PgTransactionStatus::InTransaction)
        }
}

/// Loading in a block that stays sound leaves the levels as they are, whether it succeeds or fails.
pub proof fn law_a_load_in_a_sound_block_keeps_the_levels<B>(
    operation: Load<B>,
    conn: ConnectionModel,
    replies: Seq<Reply>,
    levels: int,
) where PgConnection: PgLoadingMode<B>
    requires
        has_levels(conn.manager.status, levels),
        levels >= 1,
        all_report(replies, PgTransactionStatus::InTransaction),
    ensures
        has_levels(
            run_load(Step::Pending(operation), conn, replies).1.manager.status,
            levels,
        ),
    decreases replies.len(),
{
    if replies.len() > 0 {
        let (step, after) = operation.step(conn, replies[0]);
        let rest = replies.drop_first();
        assert(replies[0].transaction_status == PgTransactionStatus::InTransaction);
        match step {
            Step::Pending(next) => {
                assert forall|i: int| 0 <= i < rest.len() implies (
                #[trigger] rest[i]).transaction_status == PgTransactionStatus::InTransaction by {
                    assert(rest[i] == replies[i + 1]);
                }
                law_a_load_in_a_sound_block_keeps_the_levels(next, after, rest, levels);
            },
            Step::Done(_) => {
                assert(run_load(step, after, rest) == (step, after));
            },
        }
    }
}

proof fn lemma_lookups_keep_the_levels(
    conn: ConnectionModel,
    lookups: Seq<LookupRun>,
    levels: int,
)
    requires
        has_levels(conn.manager.status, levels),
        levels >= 1,
        lookups_stay_sound(lookups),
    ensures
        has_levels(run_lookups(conn, lookups).manager.status, levels),
    decreases lookups.len(),
{
    if lookups.len() > 0 {
        let lookup = lookups[0];
        let rest = lookups.drop_first();
        let started = with_start(conn, lookup.source);
        let load = load_of(lookup.source, DefaultLoadingMode);
        assert(all_report(lookup.replies, PgTransactionStatus::InTransaction));
        law_a_load_in_a_sound_block_keeps_the_levels(load, started, lookup.replies, levels);
        assert forall|i: int| 0 <= i < rest.len() implies all_report(
            (#[trigger] rest[i]).replies,
            PgTransactionStatus::InTransaction,
        ) by {
            assert(rest[i] == lookups[i + 1]);
        }
        lemma_lookups_keep_the_levels(
            run_load(Step::Pending(load), started, lookup.replies).1,
            rest,
            levels,
        );
    }
}

/// Queries in a block that stays sound leave the levels as they are, whether they succeed or fail.
pub proof fn law_queries_in_a_sound_block_keep_the_levels(
    conn: ConnectionModel,
    work: Seq<QueryRun>,
    levels: int,
)
    requires
        has_levels(conn.manager.status, levels),
        levels >= 1,
        stays_sound(work),
    ensures
        has_levels(run_queries(conn, work).manager.status, levels),
    decreases work.len(),
{
    if work.len() > 0 {
        let query = work[0];
        let rest = work.drop_first();
        assert(lookups_stay_sound(query.lookups));
        lemma_lookups_keep_the_levels(with_start(conn, query.source), query.lookups, levels);
        let bound = run_lookups(with_start(conn, query.source), query.lookups);
        let execution = execution_of(query.source);
        law_the_record_follows_an_execution(execution, bound, query.replies);
        let (step, after) = run_execution(Step::Pending(execution), bound, query.replies);
        assert(all_report(query.replies, PgTransactionStatus::InTransaction));
        assert(has_levels(after.manager.status, levels));
        assert forall|i: int| 0 <= i < rest.len() implies {
            &&& lookups_stay_sound((#[trigger] rest[i]).lookups)
            &&& all_report(rest[i].replies, PgTransactionStatus::InTransaction)
        } by {
            assert(rest[i] == work[i + 1]);
        }
        law_queries_in_a_sound_block_keep_the_levels(after, rest, levels);
    }
}

/// A savepoint around the work in a transaction.
pub struct SavepointRun<T, E> {
    pub begin: BeginTransaction,
    /// The connection once the command was handed out.
    pub begun: ConnectionModel,
    pub begin_reply: ExecReply,
    pub release: BatchExecute,
    /// The connection once the command was handed out.
    pub releasing: ConnectionModel,
    pub release_reply: ExecReply,
    pub step: ConcludeStep<T, E>,
    pub after: ConnectionModel,
}

/// A serializable transaction whose work succeeds.
pub struct SerializableRun<T, E> {
    pub start: ConnectionModel,
    pub begin: BeginTransaction,
    /// The connection once the command was handed out.
    pub begun: ConnectionModel,
    pub begin_reply: ExecReply,
    pub savepoint: Option<SavepointRun<T, E>>,
    /// The queries in the transaction.
    pub work: Seq<QueryRun>,
    /// What the work came to.
    pub value: T,
    pub commit: BatchExecute,
    /// The connection once the command was handed out.
    pub committing: ConnectionModel,
    pub commit_reply: ExecReply,
    pub step: ConcludeStep<T, E>,
    pub after: ConnectionModel,
}

/// Work that has come to `value` is concluded with a commit, and that leads to `step`.
pub open spec fn concludes<T, E>(
    worked: ConnectionModel,
    value: T,
    command: BatchExecute,
    top_level: bool,
    committing: ConnectionModel,
    reply: ExecReply,
    step: ConcludeStep<T, E>,
    after: ConnectionModel,
) -> bool {
    &&& commit_started(worked, command, top_level, committing)
    &&& (ConcludeTransaction::<T, E>::Committing {
        commit: CommitTransaction::Committing { command, top_level },
        value,
    }).advances(committing, reply, step, after)
}

impl<T, E> SerializableRun<T, E> {
    /// The connection once the transaction is open.
    pub open spec fn opened(self) -> ConnectionModel {
        self.begin.after(self.begun, self.begin_reply).1
    }

    /// The connection once the work is done.
    pub open spec fn worked(self) -> ConnectionModel {
        match self.savepoint {
            Some(savepoint) => savepoint.after,
            None => run_queries(self.opened(), self.work),
        }
    }

    /// This is how the transaction runs.
    pub open spec fn runs(self) -> bool {
        &&& command_started(
            self.start,
            EventModel::BeginTransaction { depth: 1 },
            transaction_sql(Some(IsolationLevel::Serializable), None, None),
            self.begin.command,
            self.begun,
        )
        &&& self.savepoint matches Some(savepoint) ==> {
            &&& command_started(
                self.opened(),
                EventModel::BeginTransaction { depth: 2 },
                begin_sql(Some(1)),
                savepoint.begin.command,
                savepoint.begun,
            )
            &&& concludes(
                run_queries(
                    savepoint.begin.after(savepoint.begun, savepoint.begin_reply).1,
                    self.work,
                ),
                self.value,
                savepoint.release,
                false,
                savepoint.releasing,
                savepoint.release_reply,
                savepoint.step,
                savepoint.after,
            )
        }
        &&& concludes(
            self.worked(),
            self.value,
            self.commit,
            true,
            self.committing,
            self.commit_reply,
            self.step,
            self.after,
        )
    }

    /// Until its commit nothing goes wrong with the transaction; and with the commit the server
    /// leaves the block, whether that one succeeds or fails.
    pub open spec fn stays_sound_until_its_commit(self) -> bool {
        &&& succeeded_inside(self.begin_reply)
        &&& self.savepoint matches Some(savepoint) ==> succeeded_inside(savepoint.begin_reply)
            && succeeded_inside(savepoint.release_reply)
        &&& stays_sound(self.work)
        &&& self.commit_reply.transaction_status == PgTransactionStatus::Idle
    }

    /// The transaction has come to `result`, and none is open any more: neither does the server
    /// have a block, nor does the record hold a depth.
    pub open spec fn ends_with(self, result: Result<T, TransactionError<E>>) -> bool {
        &&& self.step == ConcludeStep::<T, E>::Done(result)
        &&& self.after.manager.raw_connection.transaction_status == PgTransactionStatus::Idle
        &&& self.after.manager.status.spec_transaction_depth()
            == QueryResult::<Option<u32>>::Ok(None)
    }
}

/// A transaction that nothing goes wrong with until its commit ends by the server's reply to that,
/// with or without a savepoint around its work. A savepoint is released before, and leaves the
/// caller with the value of the work, and the transaction open at depth one.
pub proof fn law_a_transaction_ends_by_its_commit<T, E>(run: SerializableRun<T, E>)
    requires
        run.start.manager.status == TransactionManagerStatus::idle(),
        run.runs(),
        run.stays_sound_until_its_commit(),
    ensures
        has_levels(run.opened().manager.status, 1),
        run.savepoint matches Some(savepoint) ==> {
            &&& savepoint.step == ConcludeStep::<T, E>::Done(Ok(run.value))
            &&& has_levels(savepoint.after.manager.status, 1)
            &&& savepoint.after.manager.raw_connection.transaction_status
                == PgTransactionStatus::InTransaction
        },
        run.ends_with(
            match run.commit_reply.result {
                Ok(_) => Ok(run.value),
                Err(error) => Err(TransactionError::Query(error)),
            },
        ),
{
    law_begin_adds_a_level(run.begin, run.begun, run.begin_reply, 0);
    if let Some(savepoint) = run.savepoint {
        law_begin_adds_a_level(savepoint.begin, savepoint.begun, savepoint.begin_reply, 1);
        let inside = savepoint.begin.after(savepoint.begun, savepoint.begin_reply).1;
        law_queries_in_a_sound_block_keep_the_levels(inside, run.work, 2);
        law_work_that_succeeds_is_committed(
            run_queries(inside, run.work),
            savepoint.release,
            false,
            run.value,
            savepoint.releasing,
            savepoint.release_reply,
            2,
            savepoint.step,
            savepoint.after,
        );
    }
    law_the_reply_to_a_commit_decides(
        run.commit,
        run.value,
        run.committing,
        run.commit_reply,
        run.step,
        run.after,
    );
}

/// The server has refused the commit, because the transaction and another one cannot have run one
/// behind the other.
pub open spec fn is_serialization_failure(reply: ExecReply) -> bool {
    reply.result matches Err(Error::DatabaseError(kind, _)) && kind
        == DatabaseErrorKind::SerializationFailure
}

/// Where two serializable transactions on two connections get in each other's way, the server lets
/// one commit and refuses the other. The one comes to the value of its work, the other to the
/// serialization failure, and on neither connection a transaction is open after that. This holds
/// with or without a savepoint around the work of either.
///
/// Which commit is refused is up to the server.
pub proof fn law_one_of_two_serializable_transactions_fails<T, E>(
    committed: SerializableRun<T, E>,
    refused: SerializableRun<T, E>,
)
    requires
        committed.start.manager.status == TransactionManagerStatus::idle(),
        committed.runs(),
        committed.stays_sound_until_its_commit(),
        committed.commit_reply.result is Ok,
        refused.start.manager.status == TransactionManagerStatus::idle(),
        refused.runs(),
        refused.stays_sound_until_its_commit(),
        is_serialization_failure(refused.commit_reply),
    ensures
        committed.ends_with(Ok(committed.value)),
        refused.ends_with(Err(TransactionError::Query(refused.commit_reply.result->Err_0))),
{
    law_a_transaction_ends_by_its_commit(committed);
    law_a_transaction_ends_by_its_commit(refused);
}

} // verus!
