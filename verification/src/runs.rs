//! What holds of operations from their start to their end.
//!
//! A run is an operation with the replies that it is given, one behind the other. Until the binds
//! of a query are there the connection may be used for other queries, as it is when the type of a
//! bind has to be looked up on the server. So the laws on runs speak of a connection in any state,
//! which is the one that the reply on the binds finds. Laws with a start speak of a connection that
//! nothing else happens on from then on.
use crate::connection::{ConnectionModel, PgConnection};
use crate::copy::{
    copy_failed, copy_of, reported_copy_error, CopyFrom, CopyFromAnswer, CopyFromError,
    CopyFromReply, CopyFromStep, CopyTo, CopyToBuffer, CopyToStep,
};
use crate::error::{error_of, Error, QueryResult};
use crate::establish::{Establish, EstablishFailure, EstablishPhase, EstablishReply};
use crate::execute::{execution_of, rows_affected, CountStep, ExecuteReturningCount};
use crate::instrumentation::{reported, EventLog, EventModel};
use crate::laws::law_a_kept_statement_is_found_again;
use crate::load::{
    law_loading_modes, load_of, Cursor, DefaultLoadingMode, GetCursor, Load, LoadState,
    PgLoadingMode, PgRowByRowLoadingMode, RowByRowCursor,
};
use crate::prepared_query::{binds_collected, PrepareQuery, PrepareStep};
use crate::query::{Answer, CollectedBinds, PreparedQuery, Query, Reply, Request, Step};
use crate::raw::{NoticeProcessor, PgResult, PgTransactionStatus};
use crate::statement_cache::{lookup, CachedStatement, MaybeCached, RenderedQuery};
use crate::transaction_status::TransactionManagerStatus;
use vstd::prelude::*;

verus! {

/// The log after a query got ready; with `cached`, a statement for it was prepared to be kept.
pub open spec fn readied(log: Seq<EventModel>, source: Query, cached: bool) -> Seq<EventModel> {
    if cached {
        log.push(EventModel::CacheQuery { sql: source.rendered->Ok_0.sql@ })
    } else {
        log
    }
}

/// The query was not reported as finished, and not as started again.
pub open spec fn is_readied(events: EventLog, log: Seq<EventModel>, source: Query) -> bool {
    exists|cached: bool| events == Some(#[trigger] readied(log, source, cached))
}

/// The query was reported as finished, once, and not as started again.
pub open spec fn is_finished(
    events: EventLog,
    log: Seq<EventModel>,
    source: Query,
    error: Option<Error>,
) -> bool {
    exists|cached: bool|
        events == Some(
            (#[trigger] readied(log, source, cached)).push(
                EventModel::FinishQuery { query: source.debug@, error },
            ),
        )
}

/// The log after a query was started.
pub open spec fn started(log: Seq<EventModel>, source: Query) -> Seq<EventModel> {
    log.push(EventModel::StartQuery { query: source.debug@ })
}

/// The connection after the start of a query was reported.
pub open spec fn with_start(conn: ConnectionModel, source: Query) -> ConnectionModel {
    conn.reporting(EventModel::StartQuery { query: source.debug@ })
}

/// The query gets ready, and was not reported as finished.
spec fn prepare_tracks(
    prepare: PrepareQuery,
    events: EventLog,
    log: Seq<EventModel>,
    source: Query,
    returning_count: bool,
) -> bool {
    match prepare {
        PrepareQuery::CollectingBinds { source: own, execute_returning_count } => {
            &&& own == source
            &&& execute_returning_count == returning_count
            &&& events == Some(readied(log, source, false))
        },
        PrepareQuery::Preparing {
            source: own,
            query,
            bind_types: _,
            binds: _,
            for_cache,
            execute_returning_count,
        } => {
            &&& own == source.debug
            &&& execute_returning_count == returning_count
            &&& source.rendered == QueryResult::<RenderedQuery>::Ok(query)
            &&& events == Some(readied(log, source, for_cache))
        },
    }
}

proof fn lemma_prepare_step(
    prepare: PrepareQuery,
    conn: ConnectionModel,
    reply: Reply,
    log: Seq<EventModel>,
    source: Query,
    returning_count: bool,
)
    requires
        prepare_tracks(prepare, conn.manager.events, log, source, returning_count),
    ensures
        ({
            let (step, after) = prepare.step(conn, reply);
            match step {
                Step::Pending(next) => prepare_tracks(
                    next,
                    after.manager.events,
                    log,
                    source,
                    returning_count,
                ),
                Step::Done(Ok(prepared)) => {
                    &&& prepared.source == source.debug
                    &&& is_readied(after.manager.events, log, source)
                },
                Step::Done(Err(error)) => if returning_count || (reply.answer matches Answer::Binds(
                    binds,
                ) && binds is Err) {
                    is_readied(after.manager.events, log, source)
                } else {
                    is_finished(after.manager.events, log, source, Some(error))
                },
            }
        }),
{
    let (step, after) = prepare.step(conn, reply);
    let cached = prepare is Preparing && prepare->for_cache;
    assert(conn.manager.events == Some(readied(log, source, cached)));
}

/// Whether the bind values fail to be turned into bytes: the first answer on them says so.
pub open spec fn binds_fail(replies: Seq<Reply>) -> bool
    decreases replies.len(),
{
    if replies.len() == 0 {
        false
    } else {
        match replies[0].answer {
            Answer::Binds(binds) => binds is Err,
            _ => binds_fail(replies.drop_first()),
        }
    }
}

/// How getting a query ready stands after the replies, as far as it takes them.
pub open spec fn run_prepare(
    step: Step<PrepareQuery, QueryResult<PreparedQuery>>,
    conn: ConnectionModel,
    replies: Seq<Reply>,
) -> PrepareStep
    decreases replies.len(),
{
    match step {
        Step::Pending(operation) if replies.len() > 0 => {
            let (next, after) = operation.step(conn, replies[0]);
            run_prepare(next, after, replies.drop_first())
        },
        _ => (step, conn),
    }
}

/// The same way to a prepared statement, for a caller that executes the query for the number of
/// its rows.
pub open spec fn for_counting(prepare: PrepareQuery) -> PrepareQuery {
    match prepare {
        PrepareQuery::CollectingBinds { source, .. } => PrepareQuery::CollectingBinds {
            source,
            execute_returning_count: true,
        },
        PrepareQuery::Preparing { source, query, bind_types, binds, for_cache, .. } => {
            PrepareQuery::Preparing {
                source,
                query,
                bind_types,
                binds,
                for_cache,
                execute_returning_count: true,
            }
        },
    }
}

/// The same step, for a caller that executes the query for the number of its rows.
pub open spec fn step_for_counting(
    step: Step<PrepareQuery, QueryResult<PreparedQuery>>,
) -> Step<PrepareQuery, QueryResult<PreparedQuery>> {
    match step {
        Step::Pending(prepare) => Step::Pending(for_counting(prepare)),
        Step::Done(result) => Step::Done(result),
    }
}

/// The query as events show it, and that its own end is reported if there is no statement for it.
spec fn reports_for(prepare: PrepareQuery, debug: String) -> bool {
    match prepare {
        PrepareQuery::CollectingBinds { source, execute_returning_count } => source.debug == debug
            && !execute_returning_count,
        PrepareQuery::Preparing {
            source,
            query: _,
            bind_types: _,
            binds: _,
            for_cache: _,
            execute_returning_count,
        } => source == debug && !execute_returning_count,
    }
}

proof fn lemma_counting_run(
    prepare: PrepareQuery,
    conn: ConnectionModel,
    replies: Seq<Reply>,
    debug: String,
)
    requires
        reports_for(prepare, debug),
    ensures
        ({
            let (step, after) = run_prepare(Step::Pending(prepare), conn, replies);
            let (counting, counting_conn) = run_prepare(
                Step::Pending(for_counting(prepare)),
                conn,
                replies,
            );
            &&& counting == step_for_counting(step)
            &&& after == match step {
                Step::Done(Err(error)) => if prepare is CollectingBinds && binds_fail(replies) {
                    counting_conn
                } else {
                    counting_conn.reporting(
                        EventModel::FinishQuery { query: debug@, error: Some(error) },
                    )
                },
                _ => counting_conn,
            }
        }),
    decreases replies.len(),
{
    if replies.len() > 0 {
        let (step, after) = prepare.step(conn, replies[0]);
        let (counting, counting_conn) = for_counting(prepare).step(conn, replies[0]);
        assert(counting == step_for_counting(step));
        match step {
            Step::Pending(next) => {
                assert(after == counting_conn);
                lemma_counting_run(next, after, replies.drop_first(), debug);
            },
            Step::Done(_) => {
                assert(run_prepare(step, after, replies.drop_first()) == (step, after));
                assert(run_prepare(counting, counting_conn, replies.drop_first()) == (
                    counting,
                    counting_conn,
                ));
            },
        }
    }
}

/// For whom a query gets ready changes one thing alone: where there is no statement for it, a
/// caller that executes it for the number of its rows reports its end itself, and for any other
/// caller the end was reported already. Where the binds have failed it is reported for nobody.
pub proof fn law_counting_changes_one_report_alone(
    conn: ConnectionModel,
    source: Query,
    replies: Seq<Reply>,
)
    ensures
        ({
            let (step, after) = run_prepare(
                Step::Pending(
                    PrepareQuery::CollectingBinds { source, execute_returning_count: false },
                ),
                conn,
                replies,
            );
            let (counting, counting_conn) = run_prepare(
                Step::Pending(
                    PrepareQuery::CollectingBinds { source, execute_returning_count: true },
                ),
                conn,
                replies,
            );
            &&& counting == step_for_counting(step)
            &&& after == match step {
                Step::Done(Err(error)) => if binds_fail(replies) {
                    counting_conn
                } else {
                    counting_conn.reporting(
                        EventModel::FinishQuery { query: source.debug@, error: Some(error) },
                    )
                },
                _ => counting_conn,
            }
        }),
{
    lemma_counting_run(
        PrepareQuery::CollectingBinds { source, execute_returning_count: false },
        conn,
        replies,
        source.debug,
    );
}

/// How an execution stands after the replies, as far as it takes them.
pub open spec fn run_execution(
    step: Step<ExecuteReturningCount, QueryResult<usize>>,
    conn: ConnectionModel,
    replies: Seq<Reply>,
) -> CountStep
    decreases replies.len(),
{
    match step {
        Step::Pending(operation) if replies.len() > 0 => {
            let (next, after) = operation.step(conn, replies[0]);
            run_execution(next, after, replies.drop_first())
        },
        _ => (step, conn),
    }
}

spec fn execution_tracks(
    operation: ExecuteReturningCount,
    events: EventLog,
    log: Seq<EventModel>,
    source: Query,
) -> bool {
    match operation {
        ExecuteReturningCount::Preparing { source: own, prepare } => {
            &&& own == source.debug
            &&& prepare_tracks(prepare, events, log, source, true)
        },
        ExecuteReturningCount::Executing { prepared } => {
            &&& prepared.source == source.debug
            &&& is_readied(events, log, source)
        },
        ExecuteReturningCount::Draining { source: own, .. } => {
            &&& own == source.debug
            &&& is_readied(events, log, source)
        },
    }
}

proof fn lemma_finish(
    conn: ConnectionModel,
    log: Seq<EventModel>,
    source: Query,
    error: Option<Error>,
)
    requires
        is_readied(conn.manager.events, log, source),
    ensures
        is_finished(
            reported(
                conn.manager.events,
                EventModel::FinishQuery { query: source.debug@, error },
            ),
            log,
            source,
            error,
        ),
{
    let cached = choose|cached: bool|
        conn.manager.events == Some(#[trigger] readied(log, source, cached));
    assert(reported(
        conn.manager.events,
        EventModel::FinishQuery { query: source.debug@, error },
    ) == Some(
        readied(log, source, cached).push(
            EventModel::FinishQuery { query: source.debug@, error },
        ),
    ));
}

proof fn lemma_execution_run(
    operation: ExecuteReturningCount,
    conn: ConnectionModel,
    replies: Seq<Reply>,
    log: Seq<EventModel>,
    source: Query,
)
    requires
        execution_tracks(operation, conn.manager.events, log, source),
    ensures
        ({
            let (step, after) = run_execution(Step::Pending(operation), conn, replies);
            step matches Step::Done(result) ==> is_finished(
                after.manager.events,
                log,
                source,
                error_of(result),
            )
        }),
    decreases replies.len(),
{
    if replies.len() > 0 {
        let reply = replies[0];
        let (step, after) = operation.step(conn, reply);
        let observed = conn.observed(reply.transaction_status);
        match operation {
            ExecuteReturningCount::Preparing { source: own, prepare } => {
                lemma_prepare_step(prepare, conn, reply, log, source, true);
                let (prepare_step, prepared_conn) = prepare.step(conn, reply);
                if let Step::Done(Err(error)) = prepare_step {
                    lemma_finish(prepared_conn, log, source, Some(error));
                }
            },
            ExecuteReturningCount::Draining { source: own, result } => {
                if let Answer::NextResult(next) = reply.answer {
                    match next {
                        Ok(None) => {
                            lemma_finish(observed, log, source, error_of(result));
                        },
                        Err(error) => {
                            lemma_finish(observed, log, source, Some(error));
                        },
                        _ => {},
                    }
                }
            },
            _ => {},
        }
        match step {
            Step::Pending(next) => {
                lemma_execution_run(next, after, replies.drop_first(), log, source);
            },
            Step::Done(result) => {
                assert(run_execution(step, after, replies.drop_first()) == (step, after));
            },
        }
    }
}

/// An execution ends with one report, with its outcome, whatever has happened on the connection
/// before the binds are there, and whatever the replies are.
pub proof fn law_an_execution_ends_with_one_report(
    conn: ConnectionModel,
    source: Query,
    replies: Seq<Reply>,
    log: Seq<EventModel>,
)
    requires
        conn.manager.events == Some(log),
    ensures
        ({
            let (step, after) = run_execution(
                Step::Pending(execution_of(source)),
                conn,
                replies,
            );
            step matches Step::Done(result) ==> is_finished(
                after.manager.events,
                log,
                source,
                error_of(result),
            )
        }),
{
    lemma_execution_run(execution_of(source), conn, replies, log, source);
}

/// An executed query is reported as started once and as finished once, with its outcome. This
/// holds whatever the replies are.
pub proof fn law_an_execution_is_reported_once(
    conn: ConnectionModel,
    source: Query,
    replies: Seq<Reply>,
    log: Seq<EventModel>,
)
    requires
        conn.manager.events == Some(log),
    ensures
        ({
            let (step, after) = run_execution(
                Step::Pending(execution_of(source)),
                with_start(conn, source),
                replies,
            );
            step matches Step::Done(result) ==> is_finished(
                after.manager.events,
                started(log, source),
                source,
                error_of(result),
            )
        }),
{
    law_an_execution_ends_with_one_report(
        with_start(conn, source),
        source,
        replies,
        started(log, source),
    );
}

/// Every reply reports this transaction status.
pub open spec fn all_report(replies: Seq<Reply>, transaction_status: PgTransactionStatus) -> bool {
    forall|i: int|
        0 <= i < replies.len() ==> (#[trigger] replies[i]).transaction_status == transaction_status
}

proof fn lemma_all_report(replies: Seq<Reply>, transaction_status: PgTransactionStatus)
    requires
        replies.len() > 0,
        all_report(replies, transaction_status),
    ensures
        all_report(replies.drop_first(), transaction_status),
{
    assert forall|i: int| 0 <= i < replies.drop_first().len() implies (
    #[trigger] replies.drop_first()[i]).transaction_status == transaction_status by {
        assert(replies.drop_first()[i] == replies[i + 1]);
    }
}

/// The record of the open transaction follows what the server says at the end of an execution,
/// and stays as it is until then. This holds whatever the replies are, and whoever listens.
pub proof fn law_the_record_follows_an_execution(
    operation: ExecuteReturningCount,
    conn: ConnectionModel,
    replies: Seq<Reply>,
)
    ensures
        ({
            let (step, after) = run_execution(Step::Pending(operation), conn, replies);
            &&& after.manager.status == match step {
                Step::Done(result) => conn.manager.status.after_query(
                    after.manager.raw_connection.transaction_status,
                    result is Err,
                ),
                Step::Pending(_) => conn.manager.status,
            }
            &&& forall|server: PgTransactionStatus|
                step is Done && #[trigger] all_report(replies, server)
                    ==> after.manager.raw_connection.transaction_status == server
        }),
    decreases replies.len(),
{
    if replies.len() > 0 {
        let (step, after) = operation.step(conn, replies[0]);
        assert(after.manager.raw_connection.transaction_status == replies[0].transaction_status);
        match step {
            Step::Pending(next) => {
                law_the_record_follows_an_execution(next, after, replies.drop_first());
                let (end, last) = run_execution(step, after, replies.drop_first());
                assert forall|server: PgTransactionStatus|
                    end is Done && #[trigger] all_report(replies, server) implies
                    last.manager.raw_connection.transaction_status == server by {
                    lemma_all_report(replies, server);
                }
            },
            Step::Done(_) => {
                assert(run_execution(step, after, replies.drop_first()) == (step, after));
            },
        }
    }
}

/// A number of further results, and word that there are no more.
pub open spec fn is_drain(replies: Seq<Reply>) -> bool {
    &&& replies.len() > 0
    &&& replies.last().answer == Answer::NextResult(Ok(None))
    &&& forall|i: int|
        0 <= i < replies.len() - 1 ==> {
            &&& (#[trigger] replies[i]).answer matches Answer::NextResult(next)
            &&& next matches Ok(Some(_))
        }
}

/// A statement that was executed counts the rows that its first result tells, however many
/// further results there are; if the execution has failed, its error is the outcome.
pub proof fn law_an_execution_counts_the_first_result(
    prepared: PreparedQuery,
    conn: ConnectionModel,
    result: QueryResult<PgResult>,
    transaction_status: PgTransactionStatus,
    drain: Seq<Reply>,
)
    requires
        is_drain(drain),
    ensures
        run_execution(
            Step::Pending(ExecuteReturningCount::Executing { prepared }),
            conn,
            seq![Reply { answer: Answer::Executed(result), transaction_status }] + drain,
        ).0 == Step::<ExecuteReturningCount, QueryResult<usize>>::Done(rows_affected(result)),
{
    let first = Reply { answer: Answer::Executed(result), transaction_status };
    let replies = seq![first] + drain;
    assert(replies[0] == first);
    assert(replies.drop_first() =~= drain);
    lemma_drain(
        prepared.source,
        rows_affected(result),
        conn.observed(transaction_status),
        drain,
    );
}

proof fn lemma_drain(
    source: String,
    result: QueryResult<usize>,
    conn: ConnectionModel,
    drain: Seq<Reply>,
)
    requires
        is_drain(drain),
    ensures
        run_execution(
            Step::Pending(ExecuteReturningCount::Draining { source, result }),
            conn,
            drain,
        ).0 == Step::<ExecuteReturningCount, QueryResult<usize>>::Done(result),
    decreases drain.len(),
{
    let operation = ExecuteReturningCount::Draining { source, result };
    let (step, after) = operation.step(conn, drain[0]);
    if drain.len() == 1 {
        assert(drain[0] == drain.last());
        assert(run_execution(step, after, drain.drop_first()) == (step, after));
    } else {
        assert(drain.drop_first().last() == drain.last());
        assert forall|i: int| 0 <= i < drain.drop_first().len() - 1 implies {
            &&& (#[trigger] drain.drop_first()[i]).answer matches Answer::NextResult(next)
            &&& next matches Ok(Some(_))
        } by {
            assert(drain.drop_first()[i] == drain[i + 1]);
        }
        assert(step == Step::<ExecuteReturningCount, QueryResult<usize>>::Pending(operation));
        lemma_drain(source, result, after, drain.drop_first());
    }
}

/// How loading stands after the replies, as far as it takes them.
pub open spec fn run_load<B>(
    step: Step<Load<B>, QueryResult<<PgConnection as PgLoadingMode<B>>::Cursor>>,
    conn: ConnectionModel,
    replies: Seq<Reply>,
) -> (
    Step<Load<B>, QueryResult<<PgConnection as PgLoadingMode<B>>::Cursor>>,
    ConnectionModel,
) where PgConnection: PgLoadingMode<B>
    decreases replies.len(),
{
    match step {
        Step::Pending(operation) if replies.len() > 0 => {
            let (next, after) = operation.step(conn, replies[0]);
            run_load(next, after, replies.drop_first())
        },
        _ => (step, conn),
    }
}

spec fn load_tracks(
    state: LoadState,
    events: EventLog,
    log: Seq<EventModel>,
    source: Query,
) -> bool {
    match state {
        LoadState::Preparing { prepare } => prepare_tracks(prepare, events, log, source, false),
        LoadState::Executing { prepared } => {
            &&& prepared.source == source.debug
            &&& is_readied(events, log, source)
        },
        LoadState::GettingCursor { cursor } => {
            &&& cursor.source == source.debug
            &&& is_readied(events, log, source)
        },
    }
}

proof fn lemma_load_run<B>(
    operation: Load<B>,
    conn: ConnectionModel,
    replies: Seq<Reply>,
    log: Seq<EventModel>,
    source: Query,
) where PgConnection: PgLoadingMode<B>
    requires
        load_tracks(operation.state, conn.manager.events, log, source),
    ensures
        ({
            let (step, after) = run_load(Step::Pending(operation), conn, replies);
            let failing = operation.state matches LoadState::Preparing { prepare } && prepare
                is CollectingBinds && binds_fail(replies);
            step matches Step::Done(result) ==> if failing || (result is Ok
                && <PgConnection as PgLoadingMode<B>>::USE_ROW_BY_ROW_MODE && operation.state
                !is GettingCursor) {
                is_readied(after.manager.events, log, source)
            } else {
                is_finished(after.manager.events, log, source, error_of(result))
            }
        }),
    decreases replies.len(),
{
    if replies.len() > 0 {
        let reply = replies[0];
        let (step, after) = operation.step(conn, reply);
        let observed = conn.observed(reply.transaction_status);
        match operation.state {
            LoadState::Preparing { prepare } => {
                lemma_prepare_step(prepare, conn, reply, log, source, false);
            },
            LoadState::Executing { prepared } => {
                if let Answer::Executed(Err(error)) = reply.answer {
                    lemma_finish(observed, log, source, Some(error));
                }
            },
            LoadState::GettingCursor { cursor } => {
                if let Answer::NextResult(next) = reply.answer {
                    lemma_finish(observed, log, source, error_of(next));
                }
            },
        }
        match step {
            Step::Pending(next) => {
                lemma_load_run(next, after, replies.drop_first(), log, source);
            },
            Step::Done(result) => {
                assert(run_load(step, after, replies.drop_first()) == (step, after));
            },
        }
    }
}

/// Loading ends with one report, with its outcome, whatever has happened on the connection before
/// the binds are there. There are two exceptions, in which the end is not reported: the binds have
/// failed, or a row by row cursor was handed out.
pub proof fn law_a_load_ends_with_one_report<B>(
    conn: ConnectionModel,
    source: Query,
    mode: B,
    replies: Seq<Reply>,
    log: Seq<EventModel>,
) where PgConnection: PgLoadingMode<B>
    requires
        conn.manager.events == Some(log),
    ensures
        ({
            let (step, after) = run_load(
                Step::Pending(load_of(source, mode)),
                conn,
                replies,
            );
            step matches Step::Done(result) ==> if binds_fail(replies) || (result is Ok
                && <PgConnection as PgLoadingMode<B>>::USE_ROW_BY_ROW_MODE) {
                is_readied(after.manager.events, log, source)
            } else {
                is_finished(after.manager.events, log, source, error_of(result))
            }
        }),
{
    lemma_load_run(load_of(source, mode), conn, replies, log, source);
}

/// A query that is loaded is reported as started once, and as finished once with its outcome.
/// There are two exceptions, in which the end is not reported: the binds have failed, or a row by
/// row cursor was handed out, which has the end still to be reported.
pub proof fn law_a_load_is_reported_once<B>(
    conn: ConnectionModel,
    source: Query,
    mode: B,
    replies: Seq<Reply>,
    log: Seq<EventModel>,
) where PgConnection: PgLoadingMode<B>
    requires
        conn.manager.events == Some(log),
    ensures
        ({
            let (step, after) = run_load(
                Step::Pending(load_of(source, mode)),
                with_start(conn, source),
                replies,
            );
            step matches Step::Done(result) ==> if binds_fail(replies) || (result is Ok
                && <PgConnection as PgLoadingMode<B>>::USE_ROW_BY_ROW_MODE) {
                is_readied(after.manager.events, started(log, source), source)
            } else {
                is_finished(after.manager.events, started(log, source), source, error_of(result))
            }
        }),
{
    law_a_load_ends_with_one_report(
        with_start(conn, source),
        source,
        mode,
        replies,
        started(log, source),
    );
}

/// Loading at once ends with one report, with its outcome, whatever has happened on the connection
/// before the binds are there; where the binds have failed the end is not reported.
pub proof fn law_a_default_load_ends_with_one_report(
    conn: ConnectionModel,
    source: Query,
    replies: Seq<Reply>,
    log: Seq<EventModel>,
)
    requires
        conn.manager.events == Some(log),
    ensures
        ({
            let (step, after) = run_load(
                Step::Pending(load_of(source, DefaultLoadingMode)),
                conn,
                replies,
            );
            step matches Step::Done(result) ==> if binds_fail(replies) {
                is_readied(after.manager.events, log, source)
            } else {
                is_finished(after.manager.events, log, source, error_of(result))
            }
        }),
{
    law_loading_modes();
    law_a_load_ends_with_one_report(conn, source, DefaultLoadingMode, replies, log);
}

/// A query that is loaded at once is reported as started once, and as finished once with its
/// outcome; where the binds have failed the end is not reported.
pub proof fn law_a_default_load_is_reported_once(
    conn: ConnectionModel,
    source: Query,
    replies: Seq<Reply>,
    log: Seq<EventModel>,
)
    requires
        conn.manager.events == Some(log),
    ensures
        ({
            let (step, after) = run_load(
                Step::Pending(load_of(source, DefaultLoadingMode)),
                with_start(conn, source),
                replies,
            );
            step matches Step::Done(result) ==> if binds_fail(replies) {
                is_readied(after.manager.events, started(log, source), source)
            } else {
                is_finished(after.manager.events, started(log, source), source, error_of(result))
            }
        }),
{
    law_a_default_load_ends_with_one_report(
        with_start(conn, source),
        source,
        replies,
        started(log, source),
    );
}

/// Loading row by row ends without a report if it succeeds, and with one if it fails, whatever has
/// happened on the connection before the binds are there; where the binds have failed the end is
/// not reported.
pub proof fn law_a_row_by_row_load_reports_its_failure_alone(
    conn: ConnectionModel,
    source: Query,
    replies: Seq<Reply>,
    log: Seq<EventModel>,
)
    requires
        conn.manager.events == Some(log),
    ensures
        ({
            let (step, after) = run_load(
                Step::Pending(load_of(source, PgRowByRowLoadingMode)),
                conn,
                replies,
            );
            step matches Step::Done(result) ==> if binds_fail(replies) || result is Ok {
                is_readied(after.manager.events, log, source)
            } else {
                is_finished(after.manager.events, log, source, error_of(result))
            }
        }),
{
    law_loading_modes();
    law_a_load_ends_with_one_report(conn, source, PgRowByRowLoadingMode, replies, log);
}

/// A query that is loaded row by row is reported as started once. Its end is reported once if it
/// fails, and not at all if it succeeds: the query has not ended yet. Where the binds have failed
/// the end is not reported either.
pub proof fn law_a_row_by_row_load_is_left_to_its_cursor(
    conn: ConnectionModel,
    source: Query,
    replies: Seq<Reply>,
    log: Seq<EventModel>,
)
    requires
        conn.manager.events == Some(log),
    ensures
        ({
            let (step, after) = run_load(
                Step::Pending(load_of(source, PgRowByRowLoadingMode)),
                with_start(conn, source),
                replies,
            );
            step matches Step::Done(result) ==> if binds_fail(replies) || result is Ok {
                is_readied(after.manager.events, started(log, source), source)
            } else {
                is_finished(after.manager.events, started(log, source), source, error_of(result))
            }
        }),
{
    law_a_row_by_row_load_reports_its_failure_alone(
        with_start(conn, source),
        source,
        replies,
        started(log, source),
    );
}

/// A statement is executed with the binds of its query, and libpq is asked for one row at a time
/// in the row by row mode alone. A failure is the outcome. A result is handed out at once in the
/// row by row mode, and once libpq was asked for the next result in the default mode.
pub proof fn law_loads_ask_for_rows_by_their_mode(
    prepared: PreparedQuery,
    conn: ConnectionModel,
    result: QueryResult<PgResult>,
    transaction_status: PgTransactionStatus,
)
    ensures
        ({
            let state = LoadState::Executing { prepared };
            let reply = Reply { answer: Answer::Executed(result), transaction_status };
            let at_once = Load { state, mode: DefaultLoadingMode };
            let row_by_row = Load { state, mode: PgRowByRowLoadingMode };
            &&& at_once.awaited() == (Request::Execute {
                statement: prepared.statement,
                binds: &prepared.binds,
                row_by_row: false,
            })
            &&& row_by_row.awaited() == (Request::Execute {
                statement: prepared.statement,
                binds: &prepared.binds,
                row_by_row: true,
            })
            &&& at_once.step(conn, reply).0 == match result {
                Ok(result) => Step::<Load<DefaultLoadingMode>, QueryResult<Cursor>>::Pending(
                    Load {
                        state: LoadState::GettingCursor {
                            cursor: GetCursor { result, source: prepared.source },
                        },
                        mode: DefaultLoadingMode,
                    },
                ),
                Err(error) => Step::Done(Err(error)),
            }
            &&& row_by_row.step(conn, reply).0 == match result {
                Ok(result) => Step::<
                    Load<PgRowByRowLoadingMode>,
                    QueryResult<RowByRowCursor>,
                >::Done(Ok(RowByRowCursor { first_row: result, source: prepared.source })),
                Err(error) => Step::Done(Err(error)),
            }
        }),
{
    law_loading_modes();
}

/// The default cursor waits for the next result, and then comes at its first row, or with the
/// error of that. Its end is reported, and the record follows what the server says by then.
pub proof fn law_a_default_cursor_comes_with_its_end(
    getting: GetCursor,
    conn: ConnectionModel,
    next: QueryResult<Option<PgResult>>,
    transaction_status: PgTransactionStatus,
)
    ensures
        ({
            let load = Load {
                state: LoadState::GettingCursor { cursor: getting },
                mode: DefaultLoadingMode,
            };
            let reply = Reply { answer: Answer::NextResult(next), transaction_status };
            let result = match next {
                Ok(_) => QueryResult::<Cursor>::Ok(
                    Cursor { current_row: 0, db_result: getting.result },
                ),
                Err(error) => Err(error),
            };
            &&& load.awaited() == Request::NextResult
            &&& load.step(conn, reply) == (
                Step::<Load<DefaultLoadingMode>, QueryResult<Cursor>>::Done(result),
                conn.observed(transaction_status).settled(result, getting.source@, true),
            )
        }),
{
}

/// The result came as an answer to the execution, and libpq was asked for the next one after it.
pub open spec fn is_received_whole(result: PgResult, replies: Seq<Reply>) -> bool {
    exists|i: int, j: int|
        {
            &&& 0 <= i < j < replies.len()
            &&& (#[trigger] replies[i]).answer == Answer::Executed(Ok(result))
            &&& (#[trigger] replies[j]).answer matches Answer::NextResult(next)
            &&& next is Ok
        }
}

/// libpq was asked for the next result.
spec fn is_asked_for_more(replies: Seq<Reply>) -> bool {
    exists|j: int|
        {
            &&& 0 <= j < replies.len()
            &&& (#[trigger] replies[j]).answer matches Answer::NextResult(next)
            &&& next is Ok
        }
}

proof fn lemma_default_load_run(
    operation: Load<DefaultLoadingMode>,
    conn: ConnectionModel,
    replies: Seq<Reply>,
)
    ensures
        ({
            let (step, after) = run_load(Step::Pending(operation), conn, replies);
            step matches Step::Done(Ok(cursor)) ==> {
                &&& cursor.current_row == 0
                &&& match operation.state {
                    LoadState::GettingCursor { cursor: getting } => cursor.db_result
                        == getting.result && is_asked_for_more(replies),
                    _ => is_received_whole(cursor.db_result, replies),
                }
            }
        }),
    decreases replies.len(),
{
    if replies.len() > 0 {
        law_loading_modes();
        let (step, after) = operation.step(conn, replies[0]);
        let rest = replies.drop_first();
        match step {
            Step::Pending(next) => {
                lemma_default_load_run(next, after, rest);
                if let Step::Done(Ok(cursor)) = run_load(step, after, rest).0 {
                    if next.state is GettingCursor {
                        let j = choose|j: int|
                            {
                                &&& 0 <= j < rest.len()
                                &&& (#[trigger] rest[j]).answer matches Answer::NextResult(next)
                                &&& next is Ok
                            };
                        assert(rest[j] == replies[j + 1]);
                        if operation.state is Executing {
                            assert(replies[0].answer == Answer::Executed(Ok(cursor.db_result)));
                        }
                    } else {
                        let (i, j) = choose|i: int, j: int|
                            {
                                &&& 0 <= i < j < rest.len()
                                &&& (#[trigger] rest[i]).answer == Answer::Executed(
                                    Ok(cursor.db_result),
                                )
                                &&& (#[trigger] rest[j]).answer matches Answer::NextResult(next)
                                &&& next is Ok
                            };
                        assert(rest[i] == replies[i + 1]);
                        assert(rest[j] == replies[j + 1]);
                    }
                }
            },
            Step::Done(_) => {
                assert(run_load(step, after, rest) == (step, after));
            },
        }
    }
}

/// A cursor from which `n` rows were taken.
pub open spec fn walked_on(cursor: Cursor, num_rows: usize, n: nat) -> Cursor
    decreases n,
{
    if n == 0 {
        cursor
    } else {
        walked_on(cursor, num_rows, (n - 1) as nat).walked(num_rows)
    }
}

/// A cursor that nothing was taken from yields each row of its result once, in order.
pub proof fn law_a_cursor_yields_all_rows(cursor: Cursor, num_rows: usize, n: nat)
    requires
        cursor.current_row == 0,
    ensures
        walked_on(cursor, num_rows, n).db_result == cursor.db_result,
        walked_on(cursor, num_rows, n).row(num_rows) == if n < num_rows {
            Some(n as usize)
        } else {
            None
        },
{
    lemma_place_of_cursor(cursor, num_rows, n);
}

proof fn lemma_place_of_cursor(cursor: Cursor, num_rows: usize, n: nat)
    requires
        cursor.current_row == 0,
    ensures
        walked_on(cursor, num_rows, n).db_result == cursor.db_result,
        walked_on(cursor, num_rows, n).current_row == if n < num_rows {
            n as int
        } else {
            num_rows as int
        },
    decreases n,
{
    if n > 0 {
        lemma_place_of_cursor(cursor, num_rows, (n - 1) as nat);
    }
}

/// Two queries can be loaded at once, one behind the other, on one connection, and both results be
/// walked through after that, in any order. Each cursor stands for the result of its own query,
/// which was received as a whole, and yields each row of it once.
///
/// Each load may find the connection in any state when its binds are there, the second one with all
/// that the first one and others have left behind. What is in a row is known to the driver, which
/// finds the result by its number.
pub proof fn law_default_cursors_do_not_disturb_each_other(
    first_conn: ConnectionModel,
    first: Query,
    first_replies: Seq<Reply>,
    second_conn: ConnectionModel,
    second: Query,
    second_replies: Seq<Reply>,
    first_rows: usize,
    second_rows: usize,
)
    ensures
        ({
            let (first_step, first_after) = run_load(
                Step::Pending(load_of(first, DefaultLoadingMode)),
                first_conn,
                first_replies,
            );
            let (second_step, second_after) = run_load(
                Step::Pending(load_of(second, DefaultLoadingMode)),
                second_conn,
                second_replies,
            );
            first_step matches Step::Done(Ok(left)) ==> second_step matches Step::Done(Ok(right))
                ==> {
                &&& is_received_whole(left.db_result, first_replies)
                &&& is_received_whole(right.db_result, second_replies)
                &&& forall|n: nat|
                    (#[trigger] walked_on(left, first_rows, n)).row(first_rows) == if n
                        < first_rows {
                        Some(n as usize)
                    } else {
                        None
                    }
                &&& forall|n: nat|
                    (#[trigger] walked_on(right, second_rows, n)).row(second_rows) == if n
                        < second_rows {
                        Some(n as usize)
                    } else {
                        None
                    }
            }
        }),
{
    let loading = load_of(first, DefaultLoadingMode);
    lemma_default_load_run(loading, first_conn, first_replies);
    let (first_step, first_after) = run_load(Step::Pending(loading), first_conn, first_replies);
    let loading = load_of(second, DefaultLoadingMode);
    lemma_default_load_run(loading, second_conn, second_replies);
    let (second_step, second_after) = run_load(
        Step::Pending(loading),
        second_conn,
        second_replies,
    );
    if let Step::Done(Ok(left)) = first_step {
        if let Step::Done(Ok(right)) = second_step {
            assert forall|n: nat|
                (#[trigger] walked_on(left, first_rows, n)).row(first_rows) == if n < first_rows {
                    Some(n as usize)
                } else {
                    None
                } by {
                law_a_cursor_yields_all_rows(left, first_rows, n);
            }
            assert forall|n: nat|
                (#[trigger] walked_on(right, second_rows, n)).row(second_rows) == if n
                    < second_rows {
                    Some(n as usize)
                } else {
                    None
                } by {
                law_a_cursor_yields_all_rows(right, second_rows, n);
            }
        }
    }
}

/// How a copy from the server stands after the replies, as far as it takes them.
pub open spec fn run_copy_to(
    step: Step<CopyTo, QueryResult<CopyToBuffer>>,
    conn: ConnectionModel,
    replies: Seq<Reply>,
) -> CopyToStep
    decreases replies.len(),
{
    match step {
        Step::Pending(operation) if replies.len() > 0 => {
            let (next, after) = operation.step(conn, replies[0]);
            run_copy_to(next, after, replies.drop_first())
        },
        _ => (step, conn),
    }
}

spec fn copy_to_tracks(
    operation: CopyTo,
    events: EventLog,
    log: Seq<EventModel>,
    source: Query,
) -> bool {
    match operation {
        CopyTo::Preparing { prepare } => prepare_tracks(prepare, events, log, source, false),
        CopyTo::Executing { prepared } => {
            &&& prepared.source == source.debug
            &&& is_readied(events, log, source)
        },
    }
}

proof fn lemma_copy_to_run(
    operation: CopyTo,
    conn: ConnectionModel,
    replies: Seq<Reply>,
    log: Seq<EventModel>,
    source: Query,
)
    requires
        copy_to_tracks(operation, conn.manager.events, log, source),
    ensures
        ({
            let (step, after) = run_copy_to(Step::Pending(operation), conn, replies);
            let failing = operation matches CopyTo::Preparing { prepare } && prepare
                is CollectingBinds && binds_fail(replies);
            step matches Step::Done(result) ==> if failing {
                is_readied(after.manager.events, log, source)
            } else {
                is_finished(after.manager.events, log, source, error_of(result))
            }
        }),
    decreases replies.len(),
{
    if replies.len() > 0 {
        let reply = replies[0];
        let (step, after) = operation.step(conn, reply);
        let observed = conn.observed(reply.transaction_status);
        match operation {
            CopyTo::Preparing { prepare } => {
                lemma_prepare_step(prepare, conn, reply, log, source, false);
            },
            CopyTo::Executing { prepared } => {
                if let Answer::Executed(result) = reply.answer {
                    lemma_finish(observed, log, source, error_of(result));
                }
            },
        }
        match step {
            Step::Pending(next) => {
                lemma_copy_to_run(next, after, replies.drop_first(), log, source);
            },
            Step::Done(result) => {
                assert(run_copy_to(step, after, replies.drop_first()) == (step, after));
            },
        }
    }
}

/// A copy from the server leaves the record of the open transaction as it is, whatever the replies
/// are, and whoever listens.
pub proof fn law_a_copy_from_the_server_keeps_the_record(
    operation: CopyTo,
    conn: ConnectionModel,
    replies: Seq<Reply>,
)
    ensures
        run_copy_to(Step::Pending(operation), conn, replies).1.manager.status
            == conn.manager.status,
    decreases replies.len(),
{
    if replies.len() > 0 {
        let (step, after) = operation.step(conn, replies[0]);
        match step {
            Step::Pending(next) => {
                law_a_copy_from_the_server_keeps_the_record(next, after, replies.drop_first());
            },
            Step::Done(_) => {
                assert(run_copy_to(step, after, replies.drop_first()) == (step, after));
            },
        }
    }
}

/// A copy from the server ends with one report, with its outcome, whatever has happened on the
/// connection before the binds are there; where the binds have failed the end is not reported.
pub proof fn law_a_copy_from_the_server_ends_with_one_report(
    conn: ConnectionModel,
    source: Query,
    replies: Seq<Reply>,
    log: Seq<EventModel>,
)
    requires
        conn.manager.events == Some(log),
    ensures
        ({
            let (step, after) = run_copy_to(
                Step::Pending(
                    CopyTo::Preparing {
                        prepare: PrepareQuery::CollectingBinds {
                            source,
                            execute_returning_count: false,
                        },
                    },
                ),
                conn,
                replies,
            );
            step matches Step::Done(result) ==> if binds_fail(replies) {
                is_readied(after.manager.events, log, source)
            } else {
                is_finished(after.manager.events, log, source, error_of(result))
            }
        }),
{
    lemma_copy_to_run(
        CopyTo::Preparing {
            prepare: PrepareQuery::CollectingBinds { source, execute_returning_count: false },
        },
        conn,
        replies,
        log,
        source,
    );
}

/// A copy from the server is reported as started once and as finished once, with its outcome;
/// where the binds have failed the end is not reported.
pub proof fn law_a_copy_from_the_server_is_reported_once(
    conn: ConnectionModel,
    source: Query,
    replies: Seq<Reply>,
    log: Seq<EventModel>,
)
    requires
        conn.manager.events == Some(log),
    ensures
        ({
            let (step, after) = run_copy_to(
                Step::Pending(
                    CopyTo::Preparing {
                        prepare: PrepareQuery::CollectingBinds {
                            source,
                            execute_returning_count: false,
                        },
                    },
                ),
                with_start(conn, source),
                replies,
            );
            step matches Step::Done(result) ==> if binds_fail(replies) {
                is_readied(after.manager.events, started(log, source), source)
            } else {
                is_finished(after.manager.events, started(log, source), source, error_of(result))
            }
        }),
{
    law_a_copy_from_the_server_ends_with_one_report(
        with_start(conn, source),
        source,
        replies,
        started(log, source),
    );
}

/// A copy to the server may stand like this after the replies, as far as it takes them.
pub open spec fn runs_copy_from(
    operation: CopyFrom,
    conn: ConnectionModel,
    replies: Seq<CopyFromReply>,
    step: CopyFromStep,
    after: ConnectionModel,
) -> bool
    decreases replies.len(),
{
    if replies.len() == 0 {
        step == CopyFromStep::Pending(operation) && after == conn
    } else {
        exists|next: CopyFromStep, next_conn: ConnectionModel|
            {
                &&& #[trigger] operation.advances(conn, replies[0], next, next_conn)
                &&& match next {
                    Step::Done(_) => step == next && after == next_conn,
                    Step::Pending(next_operation) => runs_copy_from(
                        next_operation,
                        next_conn,
                        replies.drop_first(),
                        step,
                        after,
                    ),
                }
            }
    }
}

/// Whether the bind values of the `COPY` command fail to be turned into bytes: the first answer
/// on them says so.
pub open spec fn copy_binds_fail(replies: Seq<CopyFromReply>) -> bool
    decreases replies.len(),
{
    if replies.len() == 0 {
        false
    } else {
        match replies[0].answer {
            CopyFromAnswer::Query(Answer::Binds(binds)) => binds is Err,
            _ => copy_binds_fail(replies.drop_first()),
        }
    }
}

/// The copy waits as `last` for the reply number `i`, and that one leads to `step`.
pub open spec fn copy_is_led_on_by(
    operation: CopyFrom,
    conn: ConnectionModel,
    replies: Seq<CopyFromReply>,
    i: int,
    last: CopyFrom,
    before: ConnectionModel,
    step: CopyFromStep,
    after: ConnectionModel,
) -> bool {
    &&& 0 <= i < replies.len()
    &&& runs_copy_from(operation, conn, replies.take(i), CopyFromStep::Pending(last), before)
    &&& last.advances(before, replies[i], step, after)
}

spec fn copy_from_tracks(
    operation: CopyFrom,
    events: EventLog,
    log: Seq<EventModel>,
    source: Query,
) -> bool {
    match operation {
        CopyFrom::Preparing { prepare } => prepare_tracks(prepare, events, log, source, false),
        CopyFrom::Executing { prepared } => {
            &&& prepared.source == source.debug
            &&& is_readied(events, log, source)
        },
        CopyFrom::Sending { source: own }
        | CopyFrom::Finishing { source: own, .. }
        | CopyFrom::AwaitingResult { source: own, .. }
        | CopyFrom::Draining { source: own, .. }
        | CopyFrom::Reporting { source: own, .. } => {
            &&& own == source.debug
            &&& is_readied(events, log, source)
        },
    }
}

/// The query was reported as started, once, and as finished, once. A copy that could not be
/// prepared is reported with that error; any other failure is reported in the words of the reply
/// that has ended the copy.
pub open spec fn copy_is_finished(
    events: EventLog,
    log: Seq<EventModel>,
    source: Query,
    reply: CopyFromReply,
    result: Result<usize, CopyFromError>,
) -> bool {
    match (result, reply.answer) {
        (Ok(_), _) => is_finished(events, log, source, None),
        (Err(_), CopyFromAnswer::Described(message)) => is_finished(
            events,
            log,
            source,
            Some(reported_copy_error(message)),
        ),
        (Err(CopyFromError::Query(error)), _) => is_finished(events, log, source, Some(error)),
        (Err(CopyFromError::Callback), _) => false,
    }
}

proof fn lemma_copy_from_step(
    operation: CopyFrom,
    conn: ConnectionModel,
    reply: CopyFromReply,
    step: CopyFromStep,
    after: ConnectionModel,
    log: Seq<EventModel>,
    source: Query,
)
    requires
        operation.advances(conn, reply, step, after),
        copy_from_tracks(operation, conn.manager.events, log, source),
    ensures
        match step {
            Step::Pending(next) => copy_from_tracks(next, after.manager.events, log, source),
            Step::Done(result) => if reply.answer matches CopyFromAnswer::Query(
                Answer::Binds(binds),
            ) && binds is Err {
                is_readied(after.manager.events, log, source)
            } else {
                copy_is_finished(after.manager.events, log, source, reply, result)
            },
        },
{
    let observed = conn.observed(reply.transaction_status);
    match (operation, reply.answer) {
        (CopyFrom::Preparing { prepare }, CopyFromAnswer::Query(answer)) => {
            let inner = Reply { answer, transaction_status: reply.transaction_status };
            lemma_prepare_step(prepare, conn, inner, log, source, false);
        },
        (CopyFrom::Draining { .. }, _) => {
            lemma_finish(observed, log, source, None);
        },
        (CopyFrom::Reporting { .. }, CopyFromAnswer::Described(message)) => {
            lemma_finish(observed, log, source, Some(reported_copy_error(message)));
        },
        _ => {},
    }
}

/// The binds of the `COPY` command are still to come, and fail.
spec fn copy_is_failing(operation: CopyFrom, replies: Seq<CopyFromReply>) -> bool {
    operation matches CopyFrom::Preparing { prepare } && prepare is CollectingBinds
        && copy_binds_fail(replies)
}

proof fn lemma_copy_from_run(
    operation: CopyFrom,
    conn: ConnectionModel,
    replies: Seq<CopyFromReply>,
    step: CopyFromStep,
    after: ConnectionModel,
    log: Seq<EventModel>,
    source: Query,
)
    requires
        runs_copy_from(operation, conn, replies, step, after),
        copy_from_tracks(operation, conn.manager.events, log, source),
    ensures
        step matches Step::Done(result) ==> if copy_is_failing(operation, replies) {
            is_readied(after.manager.events, log, source)
        } else {
            exists|i: int, last: CopyFrom, before: ConnectionModel|
                {
                    &&& #[trigger] copy_is_led_on_by(
                        operation,
                        conn,
                        replies,
                        i,
                        last,
                        before,
                        step,
                        after,
                    )
                    &&& copy_is_finished(after.manager.events, log, source, replies[i], result)
                }
        },
    decreases replies.len(),
{
    if replies.len() > 0 {
        let (next, next_conn) = choose|next: CopyFromStep, next_conn: ConnectionModel|
            {
                &&& #[trigger] operation.advances(conn, replies[0], next, next_conn)
                &&& match next {
                    Step::Done(_) => step == next && after == next_conn,
                    Step::Pending(next_operation) => runs_copy_from(
                        next_operation,
                        next_conn,
                        replies.drop_first(),
                        step,
                        after,
                    ),
                }
            };
        lemma_copy_from_step(operation, conn, replies[0], next, next_conn, log, source);
        match next {
            Step::Done(_) => {
                assert(runs_copy_from(
                    operation,
                    conn,
                    replies.take(0),
                    CopyFromStep::Pending(operation),
                    conn,
                ));
                assert(copy_is_led_on_by(
                    operation,
                    conn,
                    replies,
                    0,
                    operation,
                    conn,
                    step,
                    after,
                ));
            },
            Step::Pending(next_operation) => {
                let rest = replies.drop_first();
                lemma_copy_from_run(next_operation, next_conn, rest, step, after, log, source);
                if step is Done && !copy_is_failing(operation, replies) {
                    assert(!copy_is_failing(next_operation, rest));
                    let (i, last, before) = choose|i: int, last: CopyFrom, before: ConnectionModel|
                        {
                            &&& #[trigger] copy_is_led_on_by(
                                next_operation,
                                next_conn,
                                rest,
                                i,
                                last,
                                before,
                                step,
                                after,
                            )
                            &&& copy_is_finished(
                                after.manager.events,
                                log,
                                source,
                                rest[i],
                                step->Done_0,
                            )
                        };
                    let taken = replies.take(i + 1);
                    assert(taken[0] == replies[0]);
                    assert(taken.drop_first() =~= rest.take(i));
                    assert(rest[i] == replies[i + 1]);
                    assert(operation.advances(conn, taken[0], next, next_conn));
                    assert(runs_copy_from(
                        operation,
                        conn,
                        taken,
                        CopyFromStep::Pending(last),
                        before,
                    ));
                    assert(copy_is_led_on_by(
                        operation,
                        conn,
                        replies,
                        i + 1,
                        last,
                        before,
                        step,
                        after,
                    ));
                }
            },
        }
    }
}

/// A copy to the server leaves the record of the open transaction as it is, whatever the replies
/// are, and whoever listens.
pub proof fn law_a_copy_to_the_server_keeps_the_record(
    operation: CopyFrom,
    conn: ConnectionModel,
    replies: Seq<CopyFromReply>,
    step: CopyFromStep,
    after: ConnectionModel,
)
    requires
        runs_copy_from(operation, conn, replies, step, after),
    ensures
        after.manager.status == conn.manager.status,
    decreases replies.len(),
{
    if replies.len() > 0 {
        let (next, next_conn) = choose|next: CopyFromStep, next_conn: ConnectionModel|
            {
                &&& #[trigger] operation.advances(conn, replies[0], next, next_conn)
                &&& match next {
                    Step::Done(_) => step == next && after == next_conn,
                    Step::Pending(next_operation) => runs_copy_from(
                        next_operation,
                        next_conn,
                        replies.drop_first(),
                        step,
                        after,
                    ),
                }
            };
        assert(next_conn.manager.status == conn.manager.status);
        if let Step::Pending(next_operation) = next {
            law_a_copy_to_the_server_keeps_the_record(
                next_operation,
                next_conn,
                replies.drop_first(),
                step,
                after,
            );
        }
    }
}

/// A copy to the server ends with one report, by the reply that has ended it, whatever has happened
/// on the connection before the binds are there; where the binds have failed the end is not
/// reported.
pub proof fn law_a_copy_to_the_server_ends_with_one_report(
    conn: ConnectionModel,
    source: Query,
    replies: Seq<CopyFromReply>,
    step: CopyFromStep,
    after: ConnectionModel,
    log: Seq<EventModel>,
)
    requires
        conn.manager.events == Some(log),
        runs_copy_from(copy_of(source), conn, replies, step, after),
    ensures
        step matches Step::Done(result) ==> if copy_binds_fail(replies) {
            is_readied(after.manager.events, log, source)
        } else {
            exists|i: int, last: CopyFrom, before: ConnectionModel|
                {
                    &&& #[trigger] copy_is_led_on_by(
                        copy_of(source),
                        conn,
                        replies,
                        i,
                        last,
                        before,
                        step,
                        after,
                    )
                    &&& copy_is_finished(after.manager.events, log, source, replies[i], result)
                }
        },
{
    lemma_copy_from_run(copy_of(source), conn, replies, step, after, log, source);
}

/// A copy to the server is reported as started once and as finished once, by the reply that has
/// ended it; where the binds have failed the end is not reported.
pub proof fn law_a_copy_to_the_server_is_reported_once(
    conn: ConnectionModel,
    source: Query,
    replies: Seq<CopyFromReply>,
    step: CopyFromStep,
    after: ConnectionModel,
    log: Seq<EventModel>,
)
    requires
        conn.manager.events == Some(log),
        runs_copy_from(copy_of(source), with_start(conn, source), replies, step, after),
    ensures
        step matches Step::Done(result) ==> if copy_binds_fail(replies) {
            is_readied(after.manager.events, started(log, source), source)
        } else {
            exists|i: int, last: CopyFrom, before: ConnectionModel|
                {
                    &&& #[trigger] copy_is_led_on_by(
                        copy_of(source),
                        with_start(conn, source),
                        replies,
                        i,
                        last,
                        before,
                        step,
                        after,
                    )
                    &&& copy_is_finished(
                        after.manager.events,
                        started(log, source),
                        source,
                        replies[i],
                        result,
                    )
                }
        },
{
    law_a_copy_to_the_server_ends_with_one_report(
        with_start(conn, source),
        source,
        replies,
        step,
        after,
        started(log, source),
    );
}

/// A number of further results, and word that there are no more.
pub open spec fn is_copy_drain(replies: Seq<CopyFromReply>) -> bool {
    &&& replies.len() > 0
    &&& replies.last().answer == CopyFromAnswer::Query(Answer::NextResult(Ok(None)))
    &&& forall|i: int|
        0 <= i < replies.len() - 1 ==> {
            &&& (#[trigger] replies[i]).answer matches CopyFromAnswer::Query(
                Answer::NextResult(next),
            )
            &&& next matches Ok(Some(_))
        }
}

proof fn lemma_copy_drain(
    source: String,
    callback_failed: bool,
    rows: usize,
    conn: ConnectionModel,
    drain: Seq<CopyFromReply>,
    step: CopyFromStep,
    after: ConnectionModel,
)
    requires
        is_copy_drain(drain),
        runs_copy_from(
            (CopyFrom::Draining { source, callback_failed, rows }),
            conn,
            drain,
            step,
            after,
        ),
    ensures
        step == if callback_failed {
            copy_failed(source, CopyFromError::Callback)
        } else {
            CopyFromStep::Done(Ok(rows))
        },
    decreases drain.len(),
{
    let operation = CopyFrom::Draining { source, callback_failed, rows };
    let (next, next_conn) = choose|next: CopyFromStep, next_conn: ConnectionModel|
        {
            &&& #[trigger] operation.advances(conn, drain[0], next, next_conn)
            &&& match next {
                Step::Done(_) => step == next && after == next_conn,
                Step::Pending(next_operation) => runs_copy_from(
                    next_operation,
                    next_conn,
                    drain.drop_first(),
                    step,
                    after,
                ),
            }
        };
    if drain.len() == 1 {
        assert(drain[0] == drain.last());
        assert(drain.drop_first().len() == 0);
    } else {
        assert(next == CopyFromStep::Pending(operation));
        assert(drain.drop_first().last() == drain.last());
        assert forall|i: int| 0 <= i < drain.drop_first().len() - 1 implies {
            &&& (#[trigger] drain.drop_first()[i]).answer matches CopyFromAnswer::Query(
                Answer::NextResult(next),
            )
            &&& next matches Ok(Some(_))
        } by {
            assert(drain.drop_first()[i] == drain[i + 1]);
        }
        lemma_copy_drain(source, callback_failed, rows, next_conn, drain.drop_first(), step, after);
    }
}

/// A copy that nothing went wrong with counts the rows that the first result after the data
/// tells, however many further results there are. If the caller has failed to produce the data,
/// that is the outcome once all results are received.
pub proof fn law_a_copy_counts_the_first_result(
    source: String,
    callback_failed: bool,
    result: PgResult,
    transaction_status: PgTransactionStatus,
    conn: ConnectionModel,
    drain: Seq<CopyFromReply>,
    step: CopyFromStep,
    after: ConnectionModel,
)
    requires
        is_copy_drain(drain),
        runs_copy_from(
            (CopyFrom::AwaitingResult { source, callback_failed }),
            conn,
            seq![
                (CopyFromReply {
                    answer: CopyFromAnswer::Query(Answer::NextResult(Ok(Some(result)))),
                    transaction_status,
                }),
            ] + drain,
            step,
            after,
        ),
    ensures
        step == if callback_failed {
            copy_failed(source, CopyFromError::Callback)
        } else {
            CopyFromStep::Done(Ok(result.rows_affected))
        },
{
    let operation = CopyFrom::AwaitingResult { source, callback_failed };
    let first = CopyFromReply {
        answer: CopyFromAnswer::Query(Answer::NextResult(Ok(Some(result)))),
        transaction_status,
    };
    let replies = seq![first] + drain;
    assert(replies[0] == first);
    assert(replies.drop_first() =~= drain);
    let (next, next_conn) = choose|next: CopyFromStep, next_conn: ConnectionModel|
        {
            &&& #[trigger] operation.advances(conn, replies[0], next, next_conn)
            &&& match next {
                Step::Done(_) => step == next && after == next_conn,
                Step::Pending(next_operation) => runs_copy_from(
                    next_operation,
                    next_conn,
                    replies.drop_first(),
                    step,
                    after,
                ),
            }
        };
    lemma_copy_drain(
        source,
        callback_failed,
        result.rows_affected,
        next_conn,
        drain,
        step,
        after,
    );
}

/// An attempt to connect may stand like this after the replies, as far as it takes them.
pub open spec fn runs_establish(
    operation: Establish,
    replies: Seq<EstablishReply>,
    step: Step<Establish, Result<PgConnection, EstablishFailure>>,
) -> bool
    decreases replies.len(),
{
    if replies.len() == 0 {
        step == Step::<Establish, Result<PgConnection, EstablishFailure>>::Pending(operation)
    } else {
        exists|next: Step<Establish, Result<PgConnection, EstablishFailure>>|
            {
                &&& #[trigger] operation.advances(replies[0], next)
                &&& match next {
                    Step::Done(_) => step == next,
                    Step::Pending(next_operation) => runs_establish(
                        next_operation,
                        replies.drop_first(),
                        step,
                    ),
                }
            }
    }
}

/// Whoever listens to an attempt to connect hears of its end once, with its outcome, and of
/// nothing else: the queries that set the options of the session are not reported. The connection
/// that it leads to drops notices.
pub proof fn law_an_attempt_to_connect_is_reported_once(
    operation: Establish,
    replies: Seq<EstablishReply>,
    step: Step<Establish, Result<PgConnection, EstablishFailure>>,
)
    requires
        runs_establish(operation, replies, step),
    ensures
        step matches Step::Done(Ok(conn)) ==> {
            &&& conn@.manager.events == reported(
                operation.instrumentation@,
                EventModel::FinishEstablishConnection { url: operation.url@, error: None },
            )
            &&& conn@.manager.raw_connection.notice_processor == NoticeProcessor::Noop
        },
        step matches Step::Done(Err(failure)) ==> failure.instrumentation@ == reported(
            operation.instrumentation@,
            EventModel::FinishEstablishConnection {
                url: operation.url@,
                error: Some(failure.error),
            },
        ),
        step matches Step::Pending(pending) ==> pending.instrumentation@
            == operation.instrumentation@,
    decreases replies.len(),
{
    if replies.len() > 0 {
        let next = choose|next: Step<Establish, Result<PgConnection, EstablishFailure>>|
            {
                &&& #[trigger] operation.advances(replies[0], next)
                &&& match next {
                    Step::Done(_) => step == next,
                    Step::Pending(next_operation) => runs_establish(
                        next_operation,
                        replies.drop_first(),
                        step,
                    ),
                }
            };
        if let Step::Pending(next_operation) = next {
            law_an_attempt_to_connect_is_reported_once(
                next_operation,
                replies.drop_first(),
                step,
            );
        }
    }
}

/// The transaction status that a reply reports.
pub open spec fn reported_status(reply: EstablishReply) -> PgTransactionStatus {
    match reply {
        EstablishReply::Connected { transaction_status, .. } => transaction_status,
        EstablishReply::Query(reply) => reply.transaction_status,
    }
}

/// No reply tells of a bad connection.
pub open spec fn connection_stays_good(replies: Seq<EstablishReply>) -> bool {
    forall|i: int|
        0 <= i < replies.len() ==> reported_status(#[trigger] replies[i])
            != PgTransactionStatus::Unknown
}

proof fn lemma_idle_attempt(
    operation: Establish,
    replies: Seq<EstablishReply>,
    step: Step<Establish, Result<PgConnection, EstablishFailure>>,
)
    requires
        runs_establish(operation, replies, step),
        connection_stays_good(replies),
        operation.phase matches EstablishPhase::Configuring { conn, .. } ==> conn@.manager.status
            == TransactionManagerStatus::idle(),
    ensures
        step matches Step::Done(Ok(conn)) ==> conn@.manager.status
            == TransactionManagerStatus::idle(),
    decreases replies.len(),
{
    if replies.len() > 0 {
        let next = choose|next: Step<Establish, Result<PgConnection, EstablishFailure>>|
            {
                &&& #[trigger] operation.advances(replies[0], next)
                &&& match next {
                    Step::Done(_) => step == next,
                    Step::Pending(next_operation) => runs_establish(
                        next_operation,
                        replies.drop_first(),
                        step,
                    ),
                }
            };
        assert(reported_status(replies[0]) != PgTransactionStatus::Unknown);
        if let EstablishPhase::Configuring { conn, options } = operation.phase {
            if let EstablishReply::Query(reply) = replies[0] {
                law_the_record_follows_an_execution(options.execution(), conn@, seq![reply]);
                let (executed, stepped) = options.execution().step(conn@, reply);
                assert(seq![reply].drop_first().len() == 0);
                assert(run_execution(executed, stepped, seq![reply].drop_first()) == (
                    executed,
                    stepped,
                ));
                assert(run_execution(Step::Pending(options.execution()), conn@, seq![reply]) == (
                    executed,
                    stepped,
                ));
                assert(all_report(seq![reply], reply.transaction_status));
            }
        }
        if let Step::Pending(next_operation) = next {
            assert(connection_stays_good(replies.drop_first())) by {
                assert forall|i: int| 0 <= i < replies.drop_first().len() implies reported_status(
                    #[trigger] replies.drop_first()[i],
                ) != PgTransactionStatus::Unknown by {
                    assert(replies.drop_first()[i] == replies[i + 1]);
                }
            }
            lemma_idle_attempt(next_operation, replies.drop_first(), step);
        }
    }
}

/// An attempt to connect leads to a connection without an open transaction.
///
/// Replies that tell of a bad connection are left out: they break the record.
pub proof fn law_an_established_connection_has_no_open_transaction(
    operation: Establish,
    replies: Seq<EstablishReply>,
    step: Step<Establish, Result<PgConnection, EstablishFailure>>,
)
    requires
        operation.phase is Connecting,
        runs_establish(operation, replies, step),
        connection_stays_good(replies),
    ensures
        step matches Step::Done(Ok(conn)) ==> conn@.manager.status
            == TransactionManagerStatus::idle(),
{
    lemma_idle_attempt(operation, replies, step);
}

/// A statement that was prepared to be kept serves the query again, and the server does not have
/// to prepare it a second time.
pub proof fn law_a_kept_statement_is_not_prepared_again(
    conn: ConnectionModel,
    entry: CachedStatement,
    source: Query,
    query: RenderedQuery,
    execute_returning_count: bool,
    collected: CollectedBinds,
)
    requires
        source.rendered == QueryResult::<RenderedQuery>::Ok(query),
        conn.statements.keeps(query),
        lookup(conn.statements.statements, query, collected.metadata@) is None,
        entry.serves(query, collected.metadata@),
    ensures
        ({
            let keeping = ConnectionModel { statements: conn.statements.storing(entry), ..conn };
            binds_collected(keeping, source, execute_returning_count, collected) == (
                Step::<PrepareQuery, QueryResult<PreparedQuery>>::Done(
                    Ok(
                        PreparedQuery {
                            source: source.debug,
                            statement: MaybeCached::Cached(entry.statement),
                            binds: collected.binds,
                        },
                    ),
                ),
                keeping,
            )
        }),
{
    law_a_kept_statement_is_found_again(
        conn.statements.statements,
        entry,
        query,
        collected.metadata@,
    );
}

} // verus!
