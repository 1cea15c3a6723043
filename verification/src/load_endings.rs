//! What loading, and copying from the server, comes to, by the replies that it is given.
use crate::connection::{ConnectionAndTransactionManager, ConnectionModel, PgConnection};
use crate::connection_laws::{heard, only_events_differ};
use crate::copy::{CopyFrom, CopyTo, CopyToBuffer};
use crate::endings::{
    counts, error_in, first_for_query, following, is_left_behind,
    law_the_first_statement_for_the_query_is_found, lemma_following_once, lemma_following_twice,
    not_ready, readiness, readiness_from, shown, told_executed, told_next, Ending, Readiness,
};
use crate::error::QueryResult;
use crate::execute::{ExecuteReturningCount, Ping};
use crate::instrumentation::EventModel;
use crate::load::{
    law_loading_modes, load_of, Cursor, DefaultLoadingMode, GetCursor, Load, LoadState,
    PgLoadingMode, PgRowByRowLoadingMode, RowByRowCursor,
};
use crate::prepared_query::PrepareQuery;
use crate::query::{Answer, Query, Reply, Step};
use crate::raw::{PgResult, PgTransactionStatus};
use crate::record_laws::followed;
use crate::runs::{run_copy_to, run_load};
use crate::statement_cache::{lookup, CachedStatement, StatementCacheModel};
use crate::transaction_status::TransactionManagerStatus;
use vstd::prelude::*;

verus! {

/// What loading at once comes to once its statement was sent: the very error of the execution; the
/// error of asking for the next result; or a cursor at the first row.
pub open spec fn load_once_sent(
    announced: Option<Seq<char>>,
    stored: Option<CachedStatement>,
    replies: Seq<Reply>,
) -> Option<Ending<Cursor>> {
    match told_executed(replies) {
        None => None,
        Some(executed) => match executed.result {
            Err(error) => Some(
                Ending {
                    result: Err(error),
                    server: executed.server,
                    follows: seq![(executed.server, true)],
                    announced,
                    stored,
                    reported: Some(Some(error)),
                },
            ),
            Ok(result) => match told_next(executed.rest) {
                None => None,
                Some(next) => Some(
                    Ending {
                        result: match next.result {
                            Ok(_) => Ok(Cursor { current_row: 0, db_result: result }),
                            Err(error) => Err(error),
                        },
                        server: next.server,
                        follows: seq![(executed.server, false), (next.server, next.result is Err)],
                        announced,
                        stored,
                        reported: Some(error_in(next.result)),
                    },
                ),
            },
        },
    }
}

/// What loading row by row comes to once its statement was sent: the very error of the execution,
/// or a cursor that holds the first row, and the end of the query is not reported.
pub open spec fn row_by_row_once_sent(
    debug: String,
    announced: Option<Seq<char>>,
    stored: Option<CachedStatement>,
    replies: Seq<Reply>,
) -> Option<Ending<RowByRowCursor>> {
    match told_executed(replies) {
        None => None,
        Some(executed) => Some(
            Ending {
                result: match executed.result {
                    Err(error) => Err(error),
                    Ok(result) => Ok(RowByRowCursor { first_row: result, source: debug }),
                },
                server: executed.server,
                follows: seq![(executed.server, executed.result is Err)],
                announced,
                stored,
                reported: match executed.result {
                    Err(error) => Some(Some(error)),
                    Ok(_) => None,
                },
            },
        ),
    }
}

/// What a copy from the server comes to once its command was sent. The record does not follow it.
pub open spec fn copy_once_sent(
    announced: Option<Seq<char>>,
    stored: Option<CachedStatement>,
    replies: Seq<Reply>,
) -> Option<Ending<CopyToBuffer>> {
    match told_executed(replies) {
        None => None,
        Some(executed) => Some(
            Ending {
                result: match executed.result {
                    Err(error) => Err(error),
                    Ok(result) => Ok(CopyToBuffer { result }),
                },
                server: executed.server,
                follows: Seq::empty(),
                announced,
                stored,
                reported: Some(error_in(executed.result)),
            },
        ),
    }
}

/// A query that does not get ready: its error is the outcome, and the end is reported unless the
/// binds have failed. The record does not follow that.
pub open spec fn ends_unready<T>(ready: Readiness) -> Ending<T> {
    not_ready(
        ready,
        ready.result->Err_0,
        Seq::empty(),
        if ready.unbound {
            None
        } else {
            Some(Some(ready.result->Err_0))
        },
    )
}

/// What loading at once comes to.
pub open spec fn load_once_ready(ready: Option<Readiness>) -> Option<Ending<Cursor>> {
    match ready {
        None => None,
        Some(ready) => if ready.result is Err {
            Some(ends_unready(ready))
        } else {
            load_once_sent(ready.announced, ready.stored, ready.rest)
        },
    }
}

/// What loading row by row comes to.
pub open spec fn row_by_row_once_ready(
    debug: String,
    ready: Option<Readiness>,
) -> Option<Ending<RowByRowCursor>> {
    match ready {
        None => None,
        Some(ready) => if ready.result is Err {
            Some(ends_unready(ready))
        } else {
            row_by_row_once_sent(debug, ready.announced, ready.stored, ready.rest)
        },
    }
}

/// What a copy from the server comes to.
pub open spec fn copy_once_ready(ready: Option<Readiness>) -> Option<Ending<CopyToBuffer>> {
    match ready {
        None => None,
        Some(ready) => if ready.result is Err {
            Some(ends_unready(ready))
        } else {
            copy_once_sent(ready.announced, ready.stored, ready.rest)
        },
    }
}

proof fn lemma_follow(record: TransactionManagerStatus, server: PgTransactionStatus)
    ensures
        following(record, seq![(server, true)]) == followed(record, server, true),
        following(record, seq![(server, false)]) == followed(record, server, false),
        following(record, Seq::empty()) == record,
{
    lemma_following_once(record, server, true);
    lemma_following_once(record, server, false);
}

/// The state shows this text of its query, and does not count.
spec fn state_shows(state: LoadState, debug: String) -> bool {
    match state {
        LoadState::Preparing { prepare } => shown(prepare) == debug && !counts(prepare),
        LoadState::Executing { prepared } => prepared.source == debug,
        LoadState::GettingCursor { cursor } => cursor.source == debug,
    }
}

/// The same for loading at once that has come some way.
spec fn load_from(
    state: LoadState,
    cache: StatementCacheModel,
    replies: Seq<Reply>,
) -> Option<Ending<Cursor>> {
    match state {
        LoadState::Preparing { prepare } => load_once_ready(
            readiness_from(prepare, cache, replies),
        ),
        LoadState::Executing { .. } => load_once_sent(None, None, replies),
        LoadState::GettingCursor { cursor } => match told_next(replies) {
            None => None,
            Some(next) => Some(
                Ending {
                    result: match next.result {
                        Ok(_) => Ok(Cursor { current_row: 0, db_result: cursor.result }),
                        Err(error) => Err(error),
                    },
                    server: next.server,
                    follows: seq![(next.server, next.result is Err)],
                    announced: None,
                    stored: None,
                    reported: Some(error_in(next.result)),
                },
            ),
        },
    }
}

proof fn lemma_lookup(prepare: PrepareQuery, conn: ConnectionModel, reply: Reply)
    ensures
        match (prepare, reply.answer) {
            (
                PrepareQuery::CollectingBinds { source, .. },
                Answer::Binds(Ok(collected)),
            ) => source.rendered matches Ok(query) ==> lookup(
                conn.statements.statements,
                query,
                collected.metadata@,
            ) == first_for_query(conn.statements.statements, query, collected.metadata@),
            _ => true,
        },
{
    if let PrepareQuery::CollectingBinds { source, .. } = prepare {
        if let Answer::Binds(Ok(collected)) = reply.answer {
            if let Ok(query) = source.rendered {
                law_the_first_statement_for_the_query_is_found(
                    conn.statements.statements,
                    query,
                    collected.metadata@,
                );
            }
        }
    }
}

proof fn lemma_default_load(
    operation: Load<DefaultLoadingMode>,
    conn: ConnectionModel,
    replies: Seq<Reply>,
    debug: String,
)
    requires
        state_shows(operation.state, debug),
    ensures
        ({
            let (step, after) = run_load(Step::Pending(operation), conn, replies);
            match load_from(operation.state, conn.statements, replies) {
                Some(ending) => {
                    &&& step == Step::<Load<DefaultLoadingMode>, QueryResult<Cursor>>::Done(
                        ending.result,
                    )
                    &&& is_left_behind(conn, debug@, ending, after)
                },
                None => step is Pending,
            }
        }),
    decreases replies.len(),
{
    if replies.len() > 0 {
        law_loading_modes();
        let reply = replies[0];
        let rest = replies.drop_first();
        let (step, after) = operation.step(conn, reply);
        lemma_follow(conn.manager.status, reply.transaction_status);
        if let Some(next) = told_next(rest) {
            let failed = next.result is Err;
            lemma_following_twice(
                conn.manager.status,
                (reply.transaction_status, false),
                (next.server, failed),
            );
            lemma_following_once(after.manager.status, next.server, failed);
        }
        if let LoadState::Preparing { prepare } = operation.state {
            lemma_lookup(prepare, conn, reply);
        }
        match step {
            Step::Pending(next) => {
                lemma_default_load(next, after, rest, debug);
            },
            Step::Done(_) => {
                assert(run_load(step, after, rest) == (step, after));
            },
        }
    }
}

/// Loading at once comes to what the replies tell, and leaves behind what they tell, and nothing
/// else.
pub proof fn law_a_default_load_comes_to_what_it_is_told(
    conn: ConnectionModel,
    source: Query,
    replies: Seq<Reply>,
)
    ensures
        ({
            let (step, after) = run_load(
                Step::Pending(load_of(source, DefaultLoadingMode)),
                conn,
                replies,
            );
            match load_once_ready(readiness(source, conn.statements, replies)) {
                Some(ending) => {
                    &&& step == Step::<Load<DefaultLoadingMode>, QueryResult<Cursor>>::Done(
                        ending.result,
                    )
                    &&& is_left_behind(conn, source.debug@, ending, after)
                },
                None => step is Pending,
            }
        }),
{
    lemma_default_load(load_of(source, DefaultLoadingMode), conn, replies, source.debug);
}

proof fn lemma_row_by_row_load(
    operation: Load<PgRowByRowLoadingMode>,
    conn: ConnectionModel,
    replies: Seq<Reply>,
    debug: String,
)
    requires
        state_shows(operation.state, debug),
        operation.state !is GettingCursor,
    ensures
        ({
            let (step, after) = run_load(Step::Pending(operation), conn, replies);
            match (match operation.state {
                LoadState::Preparing { prepare } => row_by_row_once_ready(
                    debug,
                    readiness_from(prepare, conn.statements, replies),
                ),
                _ => row_by_row_once_sent(debug, None, None, replies),
            }) {
                Some(ending) => {
                    &&& step == Step::<
                        Load<PgRowByRowLoadingMode>,
                        QueryResult<RowByRowCursor>,
                    >::Done(ending.result)
                    &&& is_left_behind(conn, debug@, ending, after)
                },
                None => step is Pending,
            }
        }),
    decreases replies.len(),
{
    if replies.len() > 0 {
        law_loading_modes();
        let reply = replies[0];
        let rest = replies.drop_first();
        let (step, after) = operation.step(conn, reply);
        lemma_follow(conn.manager.status, reply.transaction_status);
        if let LoadState::Preparing { prepare } = operation.state {
            lemma_lookup(prepare, conn, reply);
        }
        match step {
            Step::Pending(next) => {
                lemma_row_by_row_load(next, after, rest, debug);
            },
            Step::Done(_) => {
                assert(run_load(step, after, rest) == (step, after));
            },
        }
    }
}

/// Loading row by row comes to what the replies tell, and leaves behind what they tell, and nothing
/// else.
pub proof fn law_a_row_by_row_load_comes_to_what_it_is_told(
    conn: ConnectionModel,
    source: Query,
    replies: Seq<Reply>,
)
    ensures
        ({
            let (step, after) = run_load(
                Step::Pending(load_of(source, PgRowByRowLoadingMode)),
                conn,
                replies,
            );
            match row_by_row_once_ready(
                source.debug,
                readiness(source, conn.statements, replies),
            ) {
                Some(ending) => {
                    &&& step == Step::<
                        Load<PgRowByRowLoadingMode>,
                        QueryResult<RowByRowCursor>,
                    >::Done(ending.result)
                    &&& is_left_behind(conn, source.debug@, ending, after)
                },
                None => step is Pending,
            }
        }),
{
    lemma_row_by_row_load(load_of(source, PgRowByRowLoadingMode), conn, replies, source.debug);
}

proof fn lemma_copy_to(
    operation: CopyTo,
    conn: ConnectionModel,
    replies: Seq<Reply>,
    debug: String,
)
    requires
        match operation {
            CopyTo::Preparing { prepare } => shown(prepare) == debug && !counts(prepare),
            CopyTo::Executing { prepared } => prepared.source == debug,
        },
    ensures
        ({
            let (step, after) = run_copy_to(Step::Pending(operation), conn, replies);
            match (match operation {
                CopyTo::Preparing { prepare } => copy_once_ready(
                    readiness_from(prepare, conn.statements, replies),
                ),
                CopyTo::Executing { .. } => copy_once_sent(None, None, replies),
            }) {
                Some(ending) => {
                    &&& step == Step::<CopyTo, QueryResult<CopyToBuffer>>::Done(ending.result)
                    &&& is_left_behind(conn, debug@, ending, after)
                },
                None => step is Pending,
            }
        }),
    decreases replies.len(),
{
    if replies.len() > 0 {
        let reply = replies[0];
        let rest = replies.drop_first();
        let (step, after) = operation.step(conn, reply);
        lemma_follow(conn.manager.status, reply.transaction_status);
        if let CopyTo::Preparing { prepare } = operation {
            lemma_lookup(prepare, conn, reply);
        }
        match step {
            Step::Pending(next) => {
                lemma_copy_to(next, after, rest, debug);
            },
            Step::Done(_) => {
                assert(run_copy_to(step, after, rest) == (step, after));
            },
        }
    }
}

/// A copy from the server comes to what the replies tell, and leaves behind what they tell, and
/// nothing else.
pub proof fn law_a_copy_from_the_server_comes_to_what_it_is_told(
    conn: ConnectionModel,
    source: Query,
    replies: Seq<Reply>,
)
    ensures
        ({
            let (step, after) = run_copy_to(
                Step::Pending(
                    CopyTo::Preparing {
                        prepare: PrepareQuery::CollectingBinds {
                            source,
                            execute_returning_count: false,
                        },
                    },
                ),
                conn,
                replies,
            );
            match copy_once_ready(readiness(source, conn.statements, replies)) {
                Some(ending) => {
                    &&& step == Step::<CopyTo, QueryResult<CopyToBuffer>>::Done(ending.result)
                    &&& is_left_behind(conn, source.debug@, ending, after)
                },
                None => step is Pending,
            }
        }),
{
    lemma_copy_to(
        CopyTo::Preparing {
            prepare: PrepareQuery::CollectingBinds { source, execute_returning_count: false },
        },
        conn,
        replies,
        source.debug,
    );
}

/// Loading gets its query ready like any other, step by step: it waits for what getting ready waits
/// for, and what it sends is what that comes to.
pub proof fn law_a_load_sends_what_got_ready<B>(
    prepare: PrepareQuery,
    mode: B,
    conn: ConnectionModel,
    reply: Reply,
) where PgConnection: PgLoadingMode<B>
    ensures
        ({
            let (ready, ready_conn) = prepare.step(conn, reply);
            let (step, after) = (Load { state: LoadState::Preparing { prepare }, mode }).step(
                conn,
                reply,
            );
            &&& after == ready_conn
            &&& match ready {
                Step::Pending(waiting) => step matches Step::Pending(next) && next.mode == mode
                    && next.state == (LoadState::Preparing { prepare: waiting }),
                Step::Done(Ok(prepared)) => step matches Step::Pending(next) && next.mode == mode
                    && next.state == (LoadState::Executing { prepared }),
                Step::Done(Err(error)) => step matches Step::Done(Err(own)) && own == error,
            }
        }),
{
}

/// A copy from the server gets its command ready like any other query, step by step.
pub proof fn law_a_copy_from_the_server_sends_what_got_ready(
    prepare: PrepareQuery,
    conn: ConnectionModel,
    reply: Reply,
)
    ensures
        ({
            let (ready, ready_conn) = prepare.step(conn, reply);
            let (step, after) = (CopyTo::Preparing { prepare }).step(conn, reply);
            &&& after == ready_conn
            &&& match ready {
                Step::Pending(waiting) => step
                    == Step::<CopyTo, QueryResult<CopyToBuffer>>::Pending(
                    CopyTo::Preparing { prepare: waiting },
                ),
                Step::Done(Ok(prepared)) => step
                    == Step::<CopyTo, QueryResult<CopyToBuffer>>::Pending(
                    CopyTo::Executing { prepared },
                ),
                Step::Done(Err(error)) => step
                    == Step::<CopyTo, QueryResult<CopyToBuffer>>::Done(Err(error)),
            }
        }),
{
}

/// The query of the caller is the one that gets ready, and its start is reported, once, and nothing
/// else happens.
pub proof fn law_queries_are_started<B>(
    loading: &mut PgConnection,
    source: Query,
    mode: B,
    load: Load<B>,
    copying: &mut PgConnection,
    command: Query,
    copy: CopyTo,
) where PgConnection: PgLoadingMode<B>
    requires
        call_ensures(PgConnection::load::<B>, (loading, source, mode), load),
        call_ensures(PgConnection::copy_to, (copying, command), copy),
    ensures
        load.mode == mode,
        load.state matches LoadState::Preparing {
            prepare: PrepareQuery::CollectingBinds { source: own, execute_returning_count },
        } && own == source && !execute_returning_count,
        only_events_differ(old(loading)@, final(loading)@),
        final(loading)@.manager.events == heard(
            old(loading)@.manager.events,
            EventModel::StartQuery { query: source.debug@ },
        ),
        copy matches CopyTo::Preparing {
            prepare: PrepareQuery::CollectingBinds { source: own, execute_returning_count },
        } && own == command && !execute_returning_count,
        only_events_differ(old(copying)@, final(copying)@),
        final(copying)@.manager.events == heard(
            old(copying)@.manager.events,
            EventModel::StartQuery { query: command.debug@ },
        ),
{
}

/// The same of a copy to the server, and of getting ready on its own.
pub proof fn law_copies_and_preparations_are_started(
    copying: &mut PgConnection,
    command: Query,
    copy: CopyFrom,
    preparing: &mut PgConnection,
    source: Query,
    counting: bool,
    prepare: PrepareQuery,
)
    requires
        call_ensures(PgConnection::copy_from, (copying, command), copy),
        call_ensures(PgConnection::with_prepared_query, (preparing, source, counting), prepare),
    ensures
        copy matches CopyFrom::Preparing {
            prepare: PrepareQuery::CollectingBinds { source: own, execute_returning_count },
        } && own == command && !execute_returning_count,
        only_events_differ(old(copying)@, final(copying)@),
        final(copying)@.manager.events == heard(
            old(copying)@.manager.events,
            EventModel::StartQuery { query: command.debug@ },
        ),
        prepare == (PrepareQuery::CollectingBinds { source, execute_returning_count: counting }),
        only_events_differ(old(preparing)@, final(preparing)@),
        final(preparing)@.manager.events == heard(
            old(preparing)@.manager.events,
            EventModel::StartQuery { query: source.debug@ },
        ),
{
}

/// A default cursor waits for the next result; a row by row cursor is there at once, with its first
/// row. Neither changes the connection.
pub proof fn law_cursors_by_their_mode(
    first: &mut ConnectionAndTransactionManager,
    result: PgResult,
    source: String,
    waiting: Step<GetCursor, QueryResult<Cursor>>,
    second: &mut ConnectionAndTransactionManager,
    there: Step<GetCursor, QueryResult<RowByRowCursor>>,
)
    requires
        call_ensures(
            <PgConnection as PgLoadingMode<DefaultLoadingMode>>::get_cursor,
            (first, result, source),
            waiting,
        ),
        call_ensures(
            <PgConnection as PgLoadingMode<PgRowByRowLoadingMode>>::get_cursor,
            (second, result, source),
            there,
        ),
    ensures
        waiting matches Step::Pending(cursor) && cursor.result == result && cursor.source == source,
        final(first)@ == old(first)@,
        there matches Step::Done(Ok(cursor)) && cursor.first_row == result && cursor.source
            == source,
        final(second)@ == old(second)@,
{
    law_loading_modes();
}

/// New cursors stand at the first row of their result, or hold it.
pub proof fn law_new_cursors(
    result: PgResult,
    source: String,
    cursor: Cursor,
    row_by_row: RowByRowCursor,
)
    requires
        call_ensures(
            <PgConnection as PgLoadingMode<DefaultLoadingMode>>::new_cursor,
            (result, source),
            cursor,
        ),
        call_ensures(
            <PgConnection as PgLoadingMode<PgRowByRowLoadingMode>>::new_cursor,
            (result, source),
            row_by_row,
        ),
    ensures
        cursor.current_row == 0,
        cursor.db_result == result,
        row_by_row.first_row == result,
        row_by_row.source == source,
{
}

/// A cursor yields the row that it stands at, and moves to the one behind it; at the end it yields
/// nothing, and stays.
pub proof fn law_a_cursor_moves_row_by_row(cursor: &mut Cursor, num_rows: usize, row: Option<usize>)
    requires
        call_ensures(Cursor::next_row, (cursor, num_rows), row),
    ensures
        final(cursor).db_result == old(cursor).db_result,
        if old(cursor).current_row < num_rows {
            &&& row == Some(old(cursor).current_row)
            &&& final(cursor).current_row == old(cursor).current_row + 1
        } else {
            row is None && final(cursor).current_row == old(cursor).current_row
        },
{
}

/// Every reply brings its transaction status, whatever it answers and however far the query is.
pub proof fn law_every_reply_brings_its_status<B>(
    prepare: PrepareQuery,
    execution: ExecuteReturningCount,
    ping: Ping,
    load: Load<B>,
    copy_to: CopyTo,
    conn: ConnectionModel,
    reply: Reply,
) where PgConnection: PgLoadingMode<B>
    ensures
        prepare.step(conn, reply).1.manager.raw_connection.transaction_status
            == reply.transaction_status,
        execution.step(conn, reply).1.manager.raw_connection.transaction_status
            == reply.transaction_status,
        ping.step(conn, reply).1.manager.raw_connection.transaction_status
            == reply.transaction_status,
        load.step(conn, reply).1.manager.raw_connection.transaction_status
            == reply.transaction_status,
        copy_to.step(conn, reply).1.manager.raw_connection.transaction_status
            == reply.transaction_status,
{
}

/// While a query gets ready, is counted or is copied, the record stays as it is until the end.
pub proof fn law_the_record_waits_for_the_end(
    prepare: PrepareQuery,
    execution: ExecuteReturningCount,
    copy_to: CopyTo,
    conn: ConnectionModel,
    reply: Reply,
)
    ensures
        prepare.step(conn, reply).1.manager.status == conn.manager.status,
        execution.step(conn, reply).0 is Pending ==> execution.step(conn, reply).1.manager.status
            == conn.manager.status,
        copy_to.step(conn, reply).1.manager.status == conn.manager.status,
{
}

} // verus!
