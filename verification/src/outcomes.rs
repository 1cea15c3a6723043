//! When operations succeed.
//!
//! Each law says of a whole operation on which replies it succeeds, and what it comes to. They hold
//! whatever state the connection is in when the binds are there, and replies that answer something
//! else than what was asked for are passed over.
use crate::connection::{ConnectionModel, PgConnection};
use crate::copy::{
    copy_of, CopyFrom, CopyFromAnswer, CopyFromReply, CopyFromStep, CopyTo, CopyToBuffer,
};
use crate::establish::{
    Establish, EstablishFailure, EstablishPhase, EstablishReply, SetConfigOptions,
};
use crate::execute::{execution_of, ExecuteReturningCount};
use crate::load::{
    law_loading_modes, load_of, Cursor, DefaultLoadingMode, Load, LoadState,
    PgRowByRowLoadingMode, RowByRowCursor,
};
use crate::prepared_query::PrepareQuery;
use crate::query::{Answer, CollectedBinds, Query, Reply, Step};
use crate::raw::PgResult;
use crate::runs::{run_copy_to, run_execution, run_load, runs_copy_from, runs_establish};
use crate::statement_cache::{lookup, StatementCacheModel};
use vstd::prelude::*;

verus! {

/// A statement for the query is in the cache.
pub open spec fn is_kept(
    statements: StatementCacheModel,
    source: Query,
    collected: CollectedBinds,
) -> bool {
    &&& source.rendered matches Ok(query)
    &&& statements.keeps(query)
    &&& lookup(statements.statements, query, collected.metadata@) is Some
}

/// The replies behind the one that says that the statement is prepared.
pub open spec fn behind_prepared(replies: Seq<Reply>) -> Option<Seq<Reply>>
    decreases replies.len(),
{
    if replies.len() == 0 {
        None
    } else {
        let rest = replies.drop_first();
        match replies[0].answer {
            Answer::Prepared(Ok(_)) => Some(rest),
            Answer::Prepared(Err(_)) => None,
            _ => behind_prepared(rest),
        }
    }
}

/// The replies behind those that got the query ready: its binds are there, it can be written as
/// SQL, and a statement for it is kept or was prepared.
pub open spec fn behind_ready(
    source: Query,
    statements: StatementCacheModel,
    replies: Seq<Reply>,
) -> Option<Seq<Reply>>
    decreases replies.len(),
{
    if replies.len() == 0 {
        None
    } else {
        let rest = replies.drop_first();
        match replies[0].answer {
            Answer::Binds(Ok(collected)) => if source.rendered is Err {
                None
            } else if is_kept(statements, source, collected) {
                Some(rest)
            } else {
                behind_prepared(rest)
            },
            Answer::Binds(Err(_)) => None,
            _ => behind_ready(source, statements, rest),
        }
    }
}

/// The result of the execution, and the replies behind it.
pub open spec fn executed(replies: Seq<Reply>) -> Option<(PgResult, Seq<Reply>)>
    decreases replies.len(),
{
    if replies.len() == 0 {
        None
    } else {
        let rest = replies.drop_first();
        match replies[0].answer {
            Answer::Executed(Ok(result)) => Some((result, rest)),
            Answer::Executed(Err(_)) => None,
            _ => executed(rest),
        }
    }
}

/// All further results are received, and none is an error.
pub open spec fn is_drained(replies: Seq<Reply>) -> bool
    decreases replies.len(),
{
    if replies.len() == 0 {
        false
    } else {
        let rest = replies.drop_first();
        match replies[0].answer {
            Answer::NextResult(Ok(None)) => true,
            Answer::NextResult(Err(_)) => false,
            _ => is_drained(rest),
        }
    }
}

/// libpq was asked for the next result, and that is no error.
pub open spec fn is_asked_for_next(replies: Seq<Reply>) -> bool
    decreases replies.len(),
{
    if replies.len() == 0 {
        false
    } else {
        match replies[0].answer {
            Answer::NextResult(next) => next is Ok,
            _ => is_asked_for_next(replies.drop_first()),
        }
    }
}

/// The result that a query comes to once it is ready and executed, and the replies behind it.
pub open spec fn result_of(
    source: Query,
    statements: StatementCacheModel,
    replies: Seq<Reply>,
) -> Option<(PgResult, Seq<Reply>)> {
    match behind_ready(source, statements, replies) {
        Some(rest) => executed(rest),
        None => None,
    }
}

/// The same for a query that may have got ready in part.
spec fn result_from(
    prepare: PrepareQuery,
    statements: StatementCacheModel,
    replies: Seq<Reply>,
) -> Option<(PgResult, Seq<Reply>)> {
    match prepare {
        PrepareQuery::CollectingBinds { source, .. } => result_of(source, statements, replies),
        PrepareQuery::Preparing { .. } => match behind_prepared(replies) {
            Some(rest) => executed(rest),
            None => None,
        },
    }
}

/// The number of rows of a result whose further results are all received.
pub open spec fn drained_rows(result: Option<(PgResult, Seq<Reply>)>) -> Option<usize> {
    match result {
        Some((result, rest)) => if is_drained(rest) {
            Some(result.rows_affected)
        } else {
            None
        },
        None => None,
    }
}

/// The value of an operation that has succeeded.
pub open spec fn value_of<O, T, E>(step: Step<O, Result<T, E>>) -> Option<T> {
    match step {
        Step::Done(Ok(value)) => Some(value),
        _ => None,
    }
}

proof fn lemma_execution_value(
    operation: ExecuteReturningCount,
    conn: ConnectionModel,
    replies: Seq<Reply>,
)
    ensures
        value_of(run_execution(Step::Pending(operation), conn, replies).0) == match operation {
            ExecuteReturningCount::Preparing { prepare, .. } => drained_rows(
                result_from(prepare, conn.statements, replies),
            ),
            ExecuteReturningCount::Executing { .. } => drained_rows(executed(replies)),
            ExecuteReturningCount::Draining { result, .. } => match result {
                Ok(rows) if is_drained(replies) => Some(rows),
                _ => None,
            },
        },
    decreases replies.len(),
{
    if replies.len() > 0 {
        let (step, after) = operation.step(conn, replies[0]);
        match step {
            Step::Pending(next) => {
                lemma_execution_value(next, after, replies.drop_first());
            },
            Step::Done(_) => {
                assert(run_execution(step, after, replies.drop_first()) == (step, after));
            },
        }
    }
}

/// An execution succeeds just if the query gets ready, its execution succeeds, and all further
/// results are received without an error. It comes to the number of rows of the first result.
pub proof fn law_when_an_execution_succeeds(
    conn: ConnectionModel,
    source: Query,
    replies: Seq<Reply>,
)
    ensures
        value_of(run_execution(Step::Pending(execution_of(source)), conn, replies).0)
            == drained_rows(result_of(source, conn.statements, replies)),
{
    lemma_execution_value(execution_of(source), conn, replies);
}

proof fn lemma_default_load_value(
    operation: Load<DefaultLoadingMode>,
    conn: ConnectionModel,
    replies: Seq<Reply>,
)
    ensures
        value_of(run_load(Step::Pending(operation), conn, replies).0) == match operation.state {
            LoadState::Preparing { prepare } => default_cursor(
                result_from(prepare, conn.statements, replies),
            ),
            LoadState::Executing { .. } => default_cursor(executed(replies)),
            LoadState::GettingCursor { cursor } => if is_asked_for_next(replies) {
                Some(Cursor { current_row: 0, db_result: cursor.result })
            } else {
                None
            },
        },
    decreases replies.len(),
{
    if replies.len() > 0 {
        law_loading_modes();
        let (step, after) = operation.step(conn, replies[0]);
        match step {
            Step::Pending(next) => {
                lemma_default_load_value(next, after, replies.drop_first());
            },
            Step::Done(_) => {
                assert(run_load(step, after, replies.drop_first()) == (step, after));
            },
        }
    }
}

/// The default cursor over a result that libpq was asked for the next one behind.
pub open spec fn default_cursor(result: Option<(PgResult, Seq<Reply>)>) -> Option<Cursor> {
    match result {
        Some((result, rest)) => if is_asked_for_next(rest) {
            Some(Cursor { current_row: 0, db_result: result })
        } else {
            None
        },
        None => None,
    }
}

/// Loading at once succeeds just if the query gets ready, its execution succeeds, and asking for
/// the next result is no error. It comes to a cursor at the first row of the result.
pub proof fn law_when_a_default_load_succeeds(
    conn: ConnectionModel,
    source: Query,
    replies: Seq<Reply>,
)
    ensures
        value_of(
            run_load(Step::Pending(load_of(source, DefaultLoadingMode)), conn, replies).0,
        ) == default_cursor(result_of(source, conn.statements, replies)),
{
    lemma_default_load_value(load_of(source, DefaultLoadingMode), conn, replies);
}

/// The row by row cursor over a result.
pub open spec fn row_by_row_cursor(
    debug: String,
    result: Option<(PgResult, Seq<Reply>)>,
) -> Option<RowByRowCursor> {
    match result {
        Some((result, _)) => Some(RowByRowCursor { first_row: result, source: debug }),
        None => None,
    }
}

/// The operation shows events this text of its query.
spec fn load_shows(state: LoadState, debug: String) -> bool {
    match state {
        LoadState::Preparing { prepare } => match prepare {
            PrepareQuery::CollectingBinds { source, .. } => source.debug == debug,
            PrepareQuery::Preparing {
                source,
                query: _,
                bind_types: _,
                binds: _,
                for_cache: _,
                execute_returning_count: _,
            } => source == debug,
        },
        LoadState::Executing { prepared } => prepared.source == debug,
        LoadState::GettingCursor { .. } => false,
    }
}

proof fn lemma_row_by_row_load_value(
    operation: Load<PgRowByRowLoadingMode>,
    conn: ConnectionModel,
    replies: Seq<Reply>,
    debug: String,
)
    requires
        load_shows(operation.state, debug),
    ensures
        value_of(run_load(Step::Pending(operation), conn, replies).0) == row_by_row_cursor(
            debug,
            match operation.state {
                LoadState::Preparing { prepare } => result_from(
                    prepare,
                    conn.statements,
                    replies,
                ),
                _ => executed(replies),
            },
        ),
    decreases replies.len(),
{
    if replies.len() > 0 {
        law_loading_modes();
        let (step, after) = operation.step(conn, replies[0]);
        match step {
            Step::Pending(next) => {
                lemma_row_by_row_load_value(next, after, replies.drop_first(), debug);
            },
            Step::Done(_) => {
                assert(run_load(step, after, replies.drop_first()) == (step, after));
            },
        }
    }
}

/// Loading row by row succeeds just if the query gets ready and its execution succeeds. It comes
/// to a cursor that holds the first row.
pub proof fn law_when_a_row_by_row_load_succeeds(
    conn: ConnectionModel,
    source: Query,
    replies: Seq<Reply>,
)
    ensures
        value_of(
            run_load(Step::Pending(load_of(source, PgRowByRowLoadingMode)), conn, replies).0,
        ) == row_by_row_cursor(source.debug, result_of(source, conn.statements, replies)),
{
    lemma_row_by_row_load_value(
        load_of(source, PgRowByRowLoadingMode),
        conn,
        replies,
        source.debug,
    );
}

/// The data that a result stands for.
pub open spec fn copy_buffer(result: Option<(PgResult, Seq<Reply>)>) -> Option<CopyToBuffer> {
    match result {
        Some((result, _)) => Some(CopyToBuffer { result }),
        None => None,
    }
}

proof fn lemma_copy_to_value(operation: CopyTo, conn: ConnectionModel, replies: Seq<Reply>)
    ensures
        value_of(run_copy_to(Step::Pending(operation), conn, replies).0) == copy_buffer(
            match operation {
                CopyTo::Preparing { prepare } => result_from(prepare, conn.statements, replies),
                CopyTo::Executing { .. } => executed(replies),
            },
        ),
    decreases replies.len(),
{
    if replies.len() > 0 {
        let (step, after) = operation.step(conn, replies[0]);
        match step {
            Step::Pending(next) => {
                lemma_copy_to_value(next, after, replies.drop_first());
            },
            Step::Done(_) => {
                assert(run_copy_to(step, after, replies.drop_first()) == (step, after));
            },
        }
    }
}

/// A copy from the server succeeds just if its command gets ready and its execution succeeds. It
/// comes to the data of the result.
pub proof fn law_when_a_copy_from_the_server_succeeds(
    conn: ConnectionModel,
    source: Query,
    replies: Seq<Reply>,
)
    ensures
        value_of(
            run_copy_to(
                Step::Pending(
                    CopyTo::Preparing {
                        prepare: PrepareQuery::CollectingBinds {
                            source,
                            execute_returning_count: false,
                        },
                    },
                ),
                conn,
                replies,
            ).0,
        ) == copy_buffer(result_of(source, conn.statements, replies)),
{
    lemma_copy_to_value(
        CopyTo::Preparing {
            prepare: PrepareQuery::CollectingBinds { source, execute_returning_count: false },
        },
        conn,
        replies,
    );
}

/// All further results of a copy are received, and none is an error.
pub open spec fn copy_is_drained(replies: Seq<CopyFromReply>) -> bool
    decreases replies.len(),
{
    if replies.len() == 0 {
        false
    } else {
        match replies[0].answer {
            CopyFromAnswer::Query(Answer::NextResult(Ok(None))) => true,
            CopyFromAnswer::Query(Answer::NextResult(Err(_))) => false,
            _ => copy_is_drained(replies.drop_first()),
        }
    }
}

/// The number of rows that the first result after the data tells, once the end of the data is told.
pub open spec fn rows_once_finished(replies: Seq<CopyFromReply>) -> Option<usize>
    decreases replies.len(),
{
    if replies.len() == 0 {
        None
    } else {
        let rest = replies.drop_first();
        match replies[0].answer {
            CopyFromAnswer::Query(Answer::NextResult(Ok(Some(result)))) => if copy_is_drained(
                rest,
            ) {
                Some(result.rows_affected)
            } else {
                None
            },
            CopyFromAnswer::Query(Answer::NextResult(_)) => None,
            _ => rows_once_finished(rest),
        }
    }
}

/// The same once the data are sent.
pub open spec fn rows_once_sent(replies: Seq<CopyFromReply>) -> Option<usize>
    decreases replies.len(),
{
    if replies.len() == 0 {
        None
    } else {
        let rest = replies.drop_first();
        match replies[0].answer {
            CopyFromAnswer::Finished(Ok(_)) => rows_once_finished(rest),
            CopyFromAnswer::Finished(Err(_)) => None,
            _ => rows_once_sent(rest),
        }
    }
}

/// The same once the command is executed.
pub open spec fn rows_once_executed(replies: Seq<CopyFromReply>) -> Option<usize>
    decreases replies.len(),
{
    if replies.len() == 0 {
        None
    } else {
        let rest = replies.drop_first();
        match replies[0].answer {
            CopyFromAnswer::Sent(Ok(_)) => rows_once_sent(rest),
            CopyFromAnswer::Sent(Err(_)) => None,
            _ => rows_once_executed(rest),
        }
    }
}

/// The same once the command is ready.
pub open spec fn rows_once_ready(replies: Seq<CopyFromReply>) -> Option<usize>
    decreases replies.len(),
{
    if replies.len() == 0 {
        None
    } else {
        let rest = replies.drop_first();
        match replies[0].answer {
            CopyFromAnswer::Query(Answer::Executed(Ok(_))) => rows_once_executed(rest),
            CopyFromAnswer::Query(Answer::Executed(Err(_))) => None,
            _ => rows_once_ready(rest),
        }
    }
}

/// The same once the binds are there, if no statement is kept.
pub open spec fn rows_once_bound(replies: Seq<CopyFromReply>) -> Option<usize>
    decreases replies.len(),
{
    if replies.len() == 0 {
        None
    } else {
        let rest = replies.drop_first();
        match replies[0].answer {
            CopyFromAnswer::Query(Answer::Prepared(Ok(_))) => rows_once_ready(rest),
            CopyFromAnswer::Query(Answer::Prepared(Err(_))) => None,
            _ => rows_once_bound(rest),
        }
    }
}

/// The number of rows that a copy comes to, if every step of it succeeds: its command gets ready
/// and is executed, the data are sent, their end is told, the first result after that tells the
/// number, and all further results are received without an error.
pub open spec fn copied_rows(
    source: Query,
    statements: StatementCacheModel,
    replies: Seq<CopyFromReply>,
) -> Option<usize>
    decreases replies.len(),
{
    if replies.len() == 0 {
        None
    } else {
        let rest = replies.drop_first();
        match replies[0].answer {
            CopyFromAnswer::Query(Answer::Binds(Ok(collected))) => if source.rendered is Err {
                None
            } else if is_kept(statements, source, collected) {
                rows_once_ready(rest)
            } else {
                rows_once_bound(rest)
            },
            CopyFromAnswer::Query(Answer::Binds(Err(_))) => None,
            _ => copied_rows(source, statements, rest),
        }
    }
}

/// The same for a copy that has come some way.
spec fn rows_from(
    operation: CopyFrom,
    statements: StatementCacheModel,
    replies: Seq<CopyFromReply>,
) -> Option<usize> {
    match operation {
        CopyFrom::Preparing { prepare } => match prepare {
            PrepareQuery::CollectingBinds { source, .. } => copied_rows(
                source,
                statements,
                replies,
            ),
            PrepareQuery::Preparing { .. } => rows_once_bound(replies),
        },
        CopyFrom::Executing { .. } => rows_once_ready(replies),
        CopyFrom::Sending { .. } => rows_once_executed(replies),
        CopyFrom::Finishing { sent, .. } => if sent is Ok {
            rows_once_sent(replies)
        } else {
            None
        },
        CopyFrom::AwaitingResult { callback_failed, .. } => if callback_failed {
            None
        } else {
            rows_once_finished(replies)
        },
        CopyFrom::Draining { callback_failed, rows, .. } => if !callback_failed && copy_is_drained(
            replies,
        ) {
            Some(rows)
        } else {
            None
        },
        CopyFrom::Reporting { .. } => None,
    }
}

proof fn lemma_copy_from_value(
    operation: CopyFrom,
    conn: ConnectionModel,
    replies: Seq<CopyFromReply>,
    step: CopyFromStep,
    after: ConnectionModel,
)
    requires
        runs_copy_from(operation, conn, replies, step, after),
    ensures
        value_of(step) == rows_from(operation, conn.statements, replies),
    decreases replies.len(),
{
    if replies.len() > 0 {
        let rest = replies.drop_first();
        let (next, next_conn) = choose|next: CopyFromStep, next_conn: ConnectionModel|
            {
                &&& #[trigger] operation.advances(conn, replies[0], next, next_conn)
                &&& match next {
                    Step::Done(_) => step == next && after == next_conn,
                    Step::Pending(next_operation) => runs_copy_from(
                        next_operation,
                        next_conn,
                        rest,
                        step,
                        after,
                    ),
                }
            };
        if let Step::Pending(next_operation) = next {
            lemma_copy_from_value(next_operation, next_conn, rest, step, after);
        }
    }
}

/// A copy to the server succeeds just if every step of it succeeds, and comes to the number of
/// rows that the first result after the data tells.
pub proof fn law_when_a_copy_to_the_server_succeeds(
    conn: ConnectionModel,
    source: Query,
    replies: Seq<CopyFromReply>,
    step: CopyFromStep,
    after: ConnectionModel,
)
    requires
        runs_copy_from(copy_of(source), conn, replies, step, after),
    ensures
        value_of(step) == copied_rows(source, conn.statements, replies),
{
    lemma_copy_from_value(copy_of(source), conn, replies, step, after);
}

/// The replies behind those of a `SET` that succeeds, once it is executed.
pub open spec fn behind_set_executed(replies: Seq<EstablishReply>) -> Option<Seq<EstablishReply>>
    decreases replies.len(),
{
    if replies.len() == 0 {
        None
    } else {
        let rest = replies.drop_first();
        match replies[0] {
            EstablishReply::Query(reply) => match reply.answer {
                Answer::NextResult(Ok(None)) => Some(rest),
                Answer::NextResult(Err(_)) => None,
                _ => behind_set_executed(rest),
            },
            _ => behind_set_executed(rest),
        }
    }
}

/// The same once it is ready.
pub open spec fn behind_set_ready(replies: Seq<EstablishReply>) -> Option<Seq<EstablishReply>>
    decreases replies.len(),
{
    if replies.len() == 0 {
        None
    } else {
        let rest = replies.drop_first();
        match replies[0] {
            EstablishReply::Query(reply) => match reply.answer {
                Answer::Executed(Ok(_)) => behind_set_executed(rest),
                Answer::Executed(Err(_)) => None,
                _ => behind_set_ready(rest),
            },
            _ => behind_set_ready(rest),
        }
    }
}

/// The same once its binds, of which there are none, are there.
pub open spec fn behind_set_bound(replies: Seq<EstablishReply>) -> Option<Seq<EstablishReply>>
    decreases replies.len(),
{
    if replies.len() == 0 {
        None
    } else {
        let rest = replies.drop_first();
        match replies[0] {
            EstablishReply::Query(reply) => match reply.answer {
                Answer::Prepared(Ok(_)) => behind_set_ready(rest),
                Answer::Prepared(Err(_)) => None,
                _ => behind_set_bound(rest),
            },
            _ => behind_set_bound(rest),
        }
    }
}

/// The replies behind those of a `SET` that succeeds: it is prepared and executed, and all further
/// results are received without an error.
pub open spec fn behind_set(replies: Seq<EstablishReply>) -> Option<Seq<EstablishReply>>
    decreases replies.len(),
{
    if replies.len() == 0 {
        None
    } else {
        let rest = replies.drop_first();
        match replies[0] {
            EstablishReply::Query(reply) => match reply.answer {
                Answer::Binds(Ok(_)) => behind_set_bound(rest),
                Answer::Binds(Err(_)) => None,
                _ => behind_set(rest),
            },
            _ => behind_set(rest),
        }
    }
}

/// One `SET`, and another one behind it, succeed.
pub open spec fn both_sets_succeed(replies: Seq<EstablishReply>) -> bool {
    behind_set(replies) matches Some(rest) && behind_set(rest) is Some
}

/// The server accepts the connection, and then both options of the session are set.
pub open spec fn is_established_by(replies: Seq<EstablishReply>) -> bool
    decreases replies.len(),
{
    if replies.len() == 0 {
        false
    } else {
        let rest = replies.drop_first();
        match replies[0] {
            EstablishReply::Connected { result, .. } => result is Ok && both_sets_succeed(rest),
            _ => is_established_by(rest),
        }
    }
}

/// The execution is one of a query that consists of SQL alone.
spec fn executes_sql(execution: ExecuteReturningCount) -> bool {
    execution matches ExecuteReturningCount::Preparing {
        prepare: PrepareQuery::CollectingBinds { source, .. },
        ..
    } ==> (source.rendered matches Ok(query) && !query.is_safe_to_cache_prepared)
}

/// The replies behind those of a `SET` that has come some way, and succeeds.
spec fn behind_set_from(
    execution: ExecuteReturningCount,
    replies: Seq<EstablishReply>,
) -> Option<Seq<EstablishReply>> {
    match execution {
        ExecuteReturningCount::Preparing { prepare, .. } => match prepare {
            PrepareQuery::CollectingBinds { .. } => behind_set(replies),
            PrepareQuery::Preparing { .. } => behind_set_bound(replies),
        },
        ExecuteReturningCount::Executing { .. } => behind_set_ready(replies),
        ExecuteReturningCount::Draining { result, .. } => if result is Ok {
            behind_set_executed(replies)
        } else {
            None
        },
    }
}

/// The options of a session that are set in part will all be set.
spec fn options_succeed(options: SetConfigOptions, replies: Seq<EstablishReply>) -> bool {
    match options {
        SetConfigOptions::SettingTimeZone { execution } => behind_set_from(execution, replies)
            matches Some(rest) && behind_set(rest) is Some,
        SetConfigOptions::SettingClientEncoding { execution } => behind_set_from(
            execution,
            replies,
        ) is Some,
    }
}

/// Whether an attempt that has come some way leads to a connection.
spec fn attempt_succeeds(operation: Establish, replies: Seq<EstablishReply>) -> bool {
    match operation.phase {
        EstablishPhase::Connecting => is_established_by(replies),
        EstablishPhase::Configuring { options, .. } => options_succeed(options, replies),
    }
}

proof fn lemma_establish_outcome(
    operation: Establish,
    replies: Seq<EstablishReply>,
    step: Step<Establish, Result<PgConnection, EstablishFailure>>,
)
    requires
        runs_establish(operation, replies, step),
        operation.phase matches EstablishPhase::Configuring { options, .. } ==> executes_sql(
            options.execution(),
        ),
    ensures
        value_of(step) is Some <==> attempt_succeeds(operation, replies),
    decreases replies.len(),
{
    if replies.len() > 0 {
        let rest = replies.drop_first();
        let next = choose|next: Step<Establish, Result<PgConnection, EstablishFailure>>|
            {
                &&& #[trigger] operation.advances(replies[0], next)
                &&& match next {
                    Step::Done(_) => step == next,
                    Step::Pending(next_operation) => runs_establish(next_operation, rest, step),
                }
            };
        if let EstablishPhase::Configuring { conn, options } = operation.phase {
            if let EstablishReply::Query(reply) = replies[0] {
                lemma_set_step(options.execution(), conn@, reply, replies);
            }
        }
        if let Step::Pending(next_operation) = next {
            lemma_establish_outcome(next_operation, rest, step);
        }
    }
}

proof fn lemma_set_step(
    execution: ExecuteReturningCount,
    conn: ConnectionModel,
    reply: Reply,
    replies: Seq<EstablishReply>,
)
    requires
        replies.len() > 0,
        replies[0] == EstablishReply::Query(reply),
        executes_sql(execution),
    ensures
        match execution.step(conn, reply).0 {
            Step::Pending(next) => executes_sql(next) && behind_set_from(next, replies.drop_first())
                == behind_set_from(execution, replies),
            Step::Done(Ok(_)) => behind_set_from(execution, replies) == Some(replies.drop_first()),
            Step::Done(Err(_)) => behind_set_from(execution, replies) is None,
        },
{
}

/// An attempt to connect leads to a connection just if the server accepts it, and the time zone
/// and the encoding of the session are both set.
pub proof fn law_when_an_attempt_to_connect_succeeds(
    operation: Establish,
    replies: Seq<EstablishReply>,
    step: Step<Establish, Result<PgConnection, EstablishFailure>>,
)
    requires
        operation.phase is Connecting,
        runs_establish(operation, replies, step),
    ensures
        value_of(step) is Some <==> is_established_by(replies),
{
    lemma_establish_outcome(operation, replies, step);
}

} // verus!
