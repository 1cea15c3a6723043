//! What queries come to, by the replies that they are given.
//!
//! An ending tells everything that a query comes to and leaves behind, in terms of the replies: the
//! outcome, the transaction status, the record, the statement that is kept, and what is reported.
use crate::cache_laws::is_for_query;
use crate::connection::{ConnectionModel, PgConnection};
use crate::connection_laws::{heard, only_events_differ};
use crate::error::{Error, QueryResult};
use crate::execute::{execution_of, ExecuteReturningCount, Ping, PingStep};
use crate::instrumentation::EventModel;
use crate::prepared_query::PrepareQuery;
use crate::query::{Answer, CollectedBinds, PreparedQuery, Query, Reply, Request, Step};
use crate::raw::{PgResult, PgTransactionStatus};
use crate::record_laws::followed;
use crate::runs::{is_drain, run_execution, run_prepare};
use crate::statement_cache::{
    lookup, CacheSize, CachedStatement, MaybeCached, PgTypeMetadata, RenderedQuery, Statement,
    StatementCacheModel,
};
use crate::transaction_status::TransactionManagerStatus;
use vstd::prelude::*;

verus! {

/// What a reply said, the transaction status that it brought, and the replies behind it.
pub struct Told<T> {
    pub result: QueryResult<T>,
    pub server: PgTransactionStatus,
    pub rest: Seq<Reply>,
}

/// The first reply on the binds.
pub open spec fn told_binds(replies: Seq<Reply>) -> Option<Told<CollectedBinds>>
    decreases replies.len(),
{
    if replies.len() == 0 {
        None
    } else {
        let rest = replies.drop_first();
        match replies[0].answer {
            Answer::Binds(result) => Some(
                Told { result, server: replies[0].transaction_status, rest },
            ),
            _ => told_binds(rest),
        }
    }
}

/// The first reply on the preparation.
pub open spec fn told_prepared(replies: Seq<Reply>) -> Option<Told<Statement>>
    decreases replies.len(),
{
    if replies.len() == 0 {
        None
    } else {
        let rest = replies.drop_first();
        match replies[0].answer {
            Answer::Prepared(result) => Some(
                Told { result, server: replies[0].transaction_status, rest },
            ),
            _ => told_prepared(rest),
        }
    }
}

/// The first reply on the execution.
pub open spec fn told_executed(replies: Seq<Reply>) -> Option<Told<PgResult>>
    decreases replies.len(),
{
    if replies.len() == 0 {
        None
    } else {
        let rest = replies.drop_first();
        match replies[0].answer {
            Answer::Executed(result) => Some(
                Told { result, server: replies[0].transaction_status, rest },
            ),
            _ => told_executed(rest),
        }
    }
}

/// The first reply on the next result.
pub open spec fn told_next(replies: Seq<Reply>) -> Option<Told<Option<PgResult>>>
    decreases replies.len(),
{
    if replies.len() == 0 {
        None
    } else {
        let rest = replies.drop_first();
        match replies[0].answer {
            Answer::NextResult(result) => Some(
                Told { result, server: replies[0].transaction_status, rest },
            ),
            _ => told_next(rest),
        }
    }
}

/// The reply on the next result that ends them: there are no more of them, or that is an error.
pub open spec fn told_no_more(replies: Seq<Reply>) -> Option<Told<()>>
    decreases replies.len(),
{
    if replies.len() == 0 {
        None
    } else {
        let rest = replies.drop_first();
        let server = replies[0].transaction_status;
        match replies[0].answer {
            Answer::NextResult(Ok(None)) => Some(Told { result: Ok(()), server, rest }),
            Answer::NextResult(Err(error)) => Some(Told { result: Err(error), server, rest }),
            _ => told_no_more(rest),
        }
    }
}

/// The first statement that was prepared for the query.
pub open spec fn first_for_query(
    statements: Seq<CachedStatement>,
    query: RenderedQuery,
    bind_types: Seq<PgTypeMetadata>,
) -> Option<Statement>
    decreases statements.len(),
{
    if statements.len() == 0 {
        None
    } else if is_for_query(statements[0], query, bind_types) {
        Some(statements[0].statement)
    } else {
        first_for_query(statements.drop_first(), query, bind_types)
    }
}

/// A lookup finds the first statement that was prepared for the query.
pub proof fn law_the_first_statement_for_the_query_is_found(
    statements: Seq<CachedStatement>,
    query: RenderedQuery,
    bind_types: Seq<PgTypeMetadata>,
)
    ensures
        lookup(statements, query, bind_types) == first_for_query(statements, query, bind_types),
    decreases statements.len(),
{
    if statements.len() > 0 {
        law_the_first_statement_for_the_query_is_found(statements.drop_first(), query, bind_types);
    }
}

/// What getting a query ready comes to.
pub struct Readiness {
    pub result: QueryResult<PreparedQuery>,
    pub server: PgTransactionStatus,
    pub rest: Seq<Reply>,
    /// The SQL that is reported as prepared for repeated use.
    pub announced: Option<Seq<char>>,
    /// The statement that is kept from now on.
    pub stored: Option<CachedStatement>,
    /// The bind values could not be turned into bytes.
    pub unbound: bool,
}

/// What the server's word on a statement comes to.
pub open spec fn readiness_once_bound(
    debug: String,
    query: RenderedQuery,
    bind_types: Vec<PgTypeMetadata>,
    binds: Vec<Option<Vec<u8>>>,
    keep: bool,
    announced: Option<Seq<char>>,
    replies: Seq<Reply>,
) -> Option<Readiness> {
    match told_prepared(replies) {
        None => None,
        Some(told) => Some(
            match told.result {
                Err(error) => Readiness {
                    result: Err(error),
                    server: told.server,
                    rest: told.rest,
                    announced,
                    stored: None,
                    unbound: false,
                },
                Ok(statement) => Readiness {
                    result: Ok(
                        PreparedQuery {
                            source: debug,
                            statement: if keep {
                                MaybeCached::Cached(statement)
                            } else {
                                MaybeCached::CannotCache(statement)
                            },
                            binds,
                        },
                    ),
                    server: told.server,
                    rest: told.rest,
                    announced,
                    stored: if keep {
                        Some(
                            CachedStatement {
                                query_id: query.query_id,
                                sql: query.sql,
                                bind_types,
                                statement,
                            },
                        )
                    } else {
                        None
                    },
                    unbound: false,
                },
            },
        ),
    }
}

/// What getting a query ready comes to, by its replies: the error of the binds; the error of
/// writing it as SQL; the statement that was prepared for it before; or what the server says of a
/// statement for it, which is kept if that is safe and the cache is not disabled.
pub open spec fn readiness(
    source: Query,
    cache: StatementCacheModel,
    replies: Seq<Reply>,
) -> Option<Readiness> {
    match told_binds(replies) {
        None => None,
        Some(told) => match (told.result, source.rendered) {
            (Err(error), _) => Some(
                Readiness {
                    result: Err(error),
                    server: told.server,
                    rest: told.rest,
                    announced: None,
                    stored: None,
                    unbound: true,
                },
            ),
            (Ok(_), Err(error)) => Some(
                Readiness {
                    result: Err(error),
                    server: told.server,
                    rest: told.rest,
                    announced: None,
                    stored: None,
                    unbound: false,
                },
            ),
            (Ok(collected), Ok(query)) => {
                let keep = query.is_safe_to_cache_prepared && cache.size == CacheSize::Unbounded;
                let before = first_for_query(cache.statements, query, collected.metadata@);
                if keep && before is Some {
                    Some(
                        Readiness {
                            result: Ok(
                                PreparedQuery {
                                    source: source.debug,
                                    statement: MaybeCached::Cached(before->0),
                                    binds: collected.binds,
                                },
                            ),
                            server: told.server,
                            rest: told.rest,
                            announced: None,
                            stored: None,
                            unbound: false,
                        },
                    )
                } else {
                    readiness_once_bound(
                        source.debug,
                        query,
                        collected.metadata,
                        collected.binds,
                        keep,
                        if keep {
                            Some(query.sql@)
                        } else {
                            None
                        },
                        told.rest,
                    )
                }
            },
        },
    }
}

/// The same for a query that may be ready in part.
pub open spec fn readiness_from(
    prepare: PrepareQuery,
    cache: StatementCacheModel,
    replies: Seq<Reply>,
) -> Option<Readiness> {
    match prepare {
        PrepareQuery::CollectingBinds { source, .. } => readiness(source, cache, replies),
        PrepareQuery::Preparing {
            source,
            query,
            bind_types,
            binds,
            for_cache,
            execute_returning_count: _,
        } => readiness_once_bound(source, query, bind_types, binds, for_cache, None, replies),
    }
}

/// What a query comes to.
pub struct Ending<T> {
    pub result: QueryResult<T>,
    /// The transaction status of the last reply.
    pub server: PgTransactionStatus,
    /// What the record follows: a transaction status, and whether there was a failure.
    pub follows: Seq<(PgTransactionStatus, bool)>,
    pub announced: Option<Seq<char>>,
    pub stored: Option<CachedStatement>,
    /// With which error, if any, the end is reported, if it is.
    pub reported: Option<Option<Error>>,
}

/// A record that follows one status behind the other.
pub open spec fn following(
    record: TransactionManagerStatus,
    follows: Seq<(PgTransactionStatus, bool)>,
) -> TransactionManagerStatus
    decreases follows.len(),
{
    if follows.len() == 0 {
        record
    } else {
        following(followed(record, follows[0].0, follows[0].1), follows.drop_first())
    }
}

/// What a connection is like behind an ending. Nothing is different but what that tells.
pub open spec fn is_left_behind<T>(
    before: ConnectionModel,
    debug: Seq<char>,
    ending: Ending<T>,
    after: ConnectionModel,
) -> bool {
    let announced = match ending.announced {
        Some(sql) => heard(before.manager.events, EventModel::CacheQuery { sql }),
        None => before.manager.events,
    };
    &&& after.manager.events == match ending.reported {
        Some(error) => heard(announced, EventModel::FinishQuery { query: debug, error }),
        None => announced,
    }
    &&& after.manager.status == following(before.manager.status, ending.follows)
    &&& after.manager.raw_connection.transaction_status == ending.server
    &&& after.manager.raw_connection.notice_processor
        == before.manager.raw_connection.notice_processor
    &&& after.manager.raw_connection.notifications == before.manager.raw_connection.notifications
    &&& after.statements.size == before.statements.size
    &&& after.statements.statements == match ending.stored {
        Some(entry) => before.statements.statements.push(entry),
        None => before.statements.statements,
    }
    &&& after.types == before.types
}

/// The error of a result.
pub open spec fn error_in<T>(result: QueryResult<T>) -> Option<Error> {
    match result {
        Ok(_) => None,
        Err(error) => Some(error),
    }
}

/// An ending that came with getting ready.
pub open spec fn not_ready<T>(
    ready: Readiness,
    error: Error,
    follows: Seq<(PgTransactionStatus, bool)>,
    reported: Option<Option<Error>>,
) -> Ending<T> {
    Ending {
        result: Err(error),
        server: ready.server,
        follows,
        announced: ready.announced,
        stored: ready.stored,
        reported,
    }
}

/// What getting ready on its own comes to: where it fails the end is reported, unless the binds
/// have failed or the caller counts the rows.
pub open spec fn preparation_ending(ready: Readiness, counting: bool) -> Ending<PreparedQuery> {
    Ending {
        result: ready.result,
        server: ready.server,
        follows: Seq::empty(),
        announced: ready.announced,
        stored: ready.stored,
        reported: match ready.result {
            Err(error) if !counting && !ready.unbound => Some(Some(error)),
            _ => None,
        },
    }
}

/// The query as events show it.
pub open spec fn shown(prepare: PrepareQuery) -> String {
    match prepare {
        PrepareQuery::CollectingBinds { source, .. } => source.debug,
        PrepareQuery::Preparing {
            source,
            query: _,
            bind_types: _,
            binds: _,
            for_cache: _,
            execute_returning_count: _,
        } => source,
    }
}

/// Whether the caller counts the rows.
pub open spec fn counts(prepare: PrepareQuery) -> bool {
    match prepare {
        PrepareQuery::CollectingBinds { execute_returning_count, .. } => execute_returning_count,
        PrepareQuery::Preparing {
            source: _,
            query: _,
            bind_types: _,
            binds: _,
            for_cache: _,
            execute_returning_count,
        } => execute_returning_count,
    }
}

/// A query waits for the server to prepare its own SQL, for the types of its own binds.
pub open spec fn is_being_prepared(
    source: Query,
    cache: StatementCacheModel,
    collected: CollectedBinds,
    counting: bool,
    prepare: PrepareQuery,
) -> bool {
    &&& source.rendered matches Ok(own)
    &&& prepare matches PrepareQuery::Preparing {
        source: debug,
        query,
        bind_types,
        binds,
        for_cache,
        execute_returning_count,
    }
    &&& debug == source.debug
    &&& query == own
    &&& bind_types == collected.metadata
    &&& binds == collected.binds
    &&& for_cache <==> (own.is_safe_to_cache_prepared && cache.size == CacheSize::Unbounded)
    &&& execute_returning_count == counting
}

proof fn lemma_preparation(prepare: PrepareQuery, conn: ConnectionModel, replies: Seq<Reply>)
    ensures
        ({
            let (step, after) = run_prepare(Step::Pending(prepare), conn, replies);
            match readiness_from(prepare, conn.statements, replies) {
                Some(ready) => {
                    &&& step == Step::<PrepareQuery, QueryResult<PreparedQuery>>::Done(ready.result)
                    &&& is_left_behind(
                        conn,
                        shown(prepare)@,
                        preparation_ending(ready, counts(prepare)),
                        after,
                    )
                },
                None => step matches Step::Pending(waiting) && match prepare {
                    PrepareQuery::CollectingBinds { source, execute_returning_count } => {
                        match told_binds(replies) {
                            None => waiting == prepare,
                            Some(told) => told.result is Ok && is_being_prepared(
                                source,
                                conn.statements,
                                told.result->Ok_0,
                                execute_returning_count,
                                waiting,
                            ),
                        }
                    },
                    _ => waiting == prepare,
                },
            }
        }),
    decreases replies.len(),
{
    if replies.len() > 0 {
        let rest = replies.drop_first();
        let (step, after) = prepare.step(conn, replies[0]);
        if let PrepareQuery::CollectingBinds { source, .. } = prepare {
            if let Answer::Binds(Ok(collected)) = replies[0].answer {
                if let Ok(query) = source.rendered {
                    law_the_first_statement_for_the_query_is_found(
                        conn.statements.statements,
                        query,
                        collected.metadata@,
                    );
                }
            }
        }
        match step {
            Step::Pending(next) => {
                lemma_preparation(next, after, rest);
            },
            Step::Done(_) => {
                assert(run_prepare(step, after, rest) == (step, after));
            },
        }
    }
}

/// Getting a query ready comes to what the replies tell, and leaves behind what they tell. Until
/// then it waits for the binds, and after that for the server to prepare the query's own SQL, for
/// the types of its own binds.
pub proof fn law_a_query_gets_ready(
    conn: ConnectionModel,
    source: Query,
    counting: bool,
    replies: Seq<Reply>,
)
    ensures
        ({
            let start = PrepareQuery::CollectingBinds { source, execute_returning_count: counting };
            let (step, after) = run_prepare(Step::Pending(start), conn, replies);
            match readiness(source, conn.statements, replies) {
                Some(ready) => {
                    &&& step == Step::<PrepareQuery, QueryResult<PreparedQuery>>::Done(ready.result)
                    &&& is_left_behind(
                        conn,
                        source.debug@,
                        preparation_ending(ready, counting),
                        after,
                    )
                },
                None => step matches Step::Pending(waiting) && match told_binds(replies) {
                    None => waiting == start,
                    Some(told) => told.result is Ok && is_being_prepared(
                        source,
                        conn.statements,
                        told.result->Ok_0,
                        counting,
                        waiting,
                    ),
                },
            }
        }),
{
    lemma_preparation(
        PrepareQuery::CollectingBinds { source, execute_returning_count: counting },
        conn,
        replies,
    );
}

/// With one statement in the cache, a query with another number has the server prepare its own SQL,
/// whatever the SQL and the bind types of the other one are.
pub proof fn law_a_query_with_another_number_is_prepared(
    conn: ConnectionModel,
    entry: CachedStatement,
    source: Query,
    query: RenderedQuery,
    counting: bool,
    collected: CollectedBinds,
    transaction_status: PgTransactionStatus,
    waiting: PrepareQuery,
    request: Request,
)
    requires
        conn.statements.statements == seq![entry],
        source.rendered == QueryResult::<RenderedQuery>::Ok(query),
        entry.query_id is Some || query.query_id is Some,
        entry.query_id != query.query_id,
        run_prepare(
            Step::Pending(
                PrepareQuery::CollectingBinds { source, execute_returning_count: counting },
            ),
            conn,
            seq![Reply { answer: Answer::Binds(Ok(collected)), transaction_status }],
        ).0 == Step::<PrepareQuery, QueryResult<PreparedQuery>>::Pending(waiting),
        call_ensures(PrepareQuery::request, (&waiting,), request),
    ensures
        request matches Request::Prepare { sql, bind_types, .. } && *sql == query.sql && *bind_types
            == collected.metadata,
{
    let replies = seq![Reply { answer: Answer::Binds(Ok(collected)), transaction_status }];
    law_a_query_gets_ready(conn, source, counting, replies);
    assert(replies[0].answer == Answer::Binds(Ok(collected)));
    assert(told_binds(replies)->0.result == QueryResult::<CollectedBinds>::Ok(collected));
}

/// Such a query is not served from the cache: it does wait for the server.
pub proof fn law_a_query_with_another_number_waits_for_the_server(
    conn: ConnectionModel,
    entry: CachedStatement,
    source: Query,
    query: RenderedQuery,
    counting: bool,
    collected: CollectedBinds,
    transaction_status: PgTransactionStatus,
)
    requires
        conn.statements.statements == seq![entry],
        source.rendered == QueryResult::<RenderedQuery>::Ok(query),
        entry.query_id is Some || query.query_id is Some,
        entry.query_id != query.query_id,
    ensures
        run_prepare(
            Step::Pending(
                PrepareQuery::CollectingBinds { source, execute_returning_count: counting },
            ),
            conn,
            seq![Reply { answer: Answer::Binds(Ok(collected)), transaction_status }],
        ).0 is Pending,
{
    let replies = seq![Reply { answer: Answer::Binds(Ok(collected)), transaction_status }];
    law_a_query_gets_ready(conn, source, counting, replies);
    assert(replies[0].answer == Answer::Binds(Ok(collected)));
    let rest = replies.drop_first();
    assert(rest.len() == 0);
    assert(told_prepared(rest) is None);
    let statements = conn.statements.statements;
    assert(statements[0] == entry);
    assert(statements.drop_first().len() == 0);
    assert(first_for_query(statements.drop_first(), query, collected.metadata@) is None);
    assert(first_for_query(statements, query, collected.metadata@) is None);
}

/// What counting comes to once all results are received: an error among the further results; or the
/// outcome of the execution, its own error or its number of rows.
pub open spec fn counting_ending(
    executed: QueryResult<PgResult>,
    last: Told<()>,
    announced: Option<Seq<char>>,
    stored: Option<CachedStatement>,
) -> Ending<usize> {
    let result = match (last.result, executed) {
        (Err(error), _) => QueryResult::<usize>::Err(error),
        (Ok(_), Err(error)) => Err(error),
        (Ok(_), Ok(result)) => Ok(result.rows_affected),
    };
    Ending {
        result,
        server: last.server,
        follows: seq![(last.server, result is Err)],
        announced,
        stored,
        reported: Some(error_in(result)),
    }
}

/// What an execution comes to once its statement was sent.
pub open spec fn execution_once_sent(
    announced: Option<Seq<char>>,
    stored: Option<CachedStatement>,
    replies: Seq<Reply>,
) -> Option<Ending<usize>> {
    match told_executed(replies) {
        None => None,
        Some(executed) => match told_no_more(executed.rest) {
            None => None,
            Some(last) => Some(counting_ending(executed.result, last, announced, stored)),
        },
    }
}

/// What an execution comes to, once its query is ready or not.
pub open spec fn execution_once_ready(ready: Option<Readiness>) -> Option<Ending<usize>> {
    match ready {
        None => None,
        Some(ready) => match ready.result {
            Err(error) => Some(
                not_ready(ready, error, seq![(ready.server, true)], Some(Some(error))),
            ),
            Ok(_) => execution_once_sent(ready.announced, ready.stored, ready.rest),
        },
    }
}

/// The same for an execution that has come some way.
spec fn execution_from(
    operation: ExecuteReturningCount,
    cache: StatementCacheModel,
    replies: Seq<Reply>,
) -> Option<Ending<usize>> {
    match operation {
        ExecuteReturningCount::Preparing { prepare, .. } => execution_once_ready(
            readiness_from(prepare, cache, replies),
        ),
        ExecuteReturningCount::Executing { .. } => execution_once_sent(None, None, replies),
        ExecuteReturningCount::Draining { result, .. } => match told_no_more(replies) {
            None => None,
            Some(last) => {
                let outcome = match last.result {
                    Err(error) => Err(error),
                    Ok(_) => result,
                };
                Some(
                    Ending {
                        result: outcome,
                        server: last.server,
                        follows: seq![(last.server, outcome is Err)],
                        announced: None,
                        stored: None,
                        reported: Some(error_in(outcome)),
                    },
                )
            },
        },
    }
}

/// The execution shows this text of its query, and counts.
spec fn execution_shows(operation: ExecuteReturningCount, debug: String) -> bool {
    match operation {
        ExecuteReturningCount::Preparing { source, prepare } => source == debug && shown(prepare)
            == debug && counts(prepare),
        ExecuteReturningCount::Executing { prepared } => prepared.source == debug,
        ExecuteReturningCount::Draining { source, .. } => source == debug,
    }
}

/// Following one status.
pub proof fn lemma_following_once(
    record: TransactionManagerStatus,
    server: PgTransactionStatus,
    failed: bool,
)
    ensures
        following(record, seq![(server, failed)]) == followed(record, server, failed),
        following(record, Seq::empty()) == record,
{
    let follows = seq![(server, failed)];
    assert(follows.drop_first() =~= Seq::empty());
    assert(follows[0] == (server, failed));
    reveal_with_fuel(following, 2);
}

/// Following two.
pub proof fn lemma_following_twice(
    record: TransactionManagerStatus,
    first: (PgTransactionStatus, bool),
    second: (PgTransactionStatus, bool),
)
    ensures
        following(record, seq![first, second]) == followed(
            followed(record, first.0, first.1),
            second.0,
            second.1,
        ),
{
    let follows = seq![first, second];
    assert(follows.drop_first() =~= seq![second]);
    lemma_following_once(followed(record, first.0, first.1), second.0, second.1);
}

proof fn lemma_execution(
    operation: ExecuteReturningCount,
    conn: ConnectionModel,
    replies: Seq<Reply>,
    debug: String,
)
    requires
        execution_shows(operation, debug),
    ensures
        ({
            let (step, after) = run_execution(Step::Pending(operation), conn, replies);
            match execution_from(operation, conn.statements, replies) {
                Some(ending) => {
                    &&& step == Step::<ExecuteReturningCount, QueryResult<usize>>::Done(
                        ending.result,
                    )
                    &&& is_left_behind(conn, debug@, ending, after)
                },
                None => step is Pending,
            }
        }),
    decreases replies.len(),
{
    if replies.len() > 0 {
        let reply = replies[0];
        let rest = replies.drop_first();
        let (step, after) = operation.step(conn, reply);
        lemma_following_once(conn.manager.status, reply.transaction_status, true);
        lemma_following_once(conn.manager.status, reply.transaction_status, false);
        if let ExecuteReturningCount::Preparing { prepare, .. } = operation {
            if let PrepareQuery::CollectingBinds { source, .. } = prepare {
                if let Answer::Binds(Ok(collected)) = reply.answer {
                    if let Ok(query) = source.rendered {
                        law_the_first_statement_for_the_query_is_found(
                            conn.statements.statements,
                            query,
                            collected.metadata@,
                        );
                    }
                }
            }
        }
        match step {
            Step::Pending(next) => {
                lemma_execution(next, after, rest, debug);
            },
            Step::Done(_) => {
                assert(run_execution(step, after, rest) == (step, after));
            },
        }
    }
}

/// An execution comes to what the replies tell: the error of getting ready; an error among the
/// further results; the very error of the execution; or the number of rows of its first result. It
/// leaves behind what they tell, and nothing else.
pub proof fn law_an_execution_comes_to_what_it_is_told(
    conn: ConnectionModel,
    source: Query,
    replies: Seq<Reply>,
)
    ensures
        ({
            let (step, after) = run_execution(Step::Pending(execution_of(source)), conn, replies);
            match execution_once_ready(readiness(source, conn.statements, replies)) {
                Some(ending) => {
                    &&& step == Step::<ExecuteReturningCount, QueryResult<usize>>::Done(
                        ending.result,
                    )
                    &&& is_left_behind(conn, source.debug@, ending, after)
                },
                None => step is Pending,
            }
        }),
{
    lemma_execution(execution_of(source), conn, replies, source.debug);
}

/// If the execution of a statement is answered with an error, and all further results are received
/// without one, the very error of that reply is the outcome.
pub proof fn law_the_error_of_an_execution_is_its_outcome(
    prepared: PreparedQuery,
    conn: ConnectionModel,
    error: Error,
    transaction_status: PgTransactionStatus,
    drain: Seq<Reply>,
)
    requires
        is_drain(drain),
    ensures
        run_execution(
            Step::Pending(ExecuteReturningCount::Executing { prepared }),
            conn,
            seq![Reply { answer: Answer::Executed(Err(error)), transaction_status }] + drain,
        ).0 == Step::<ExecuteReturningCount, QueryResult<usize>>::Done(Err(error)),
{
    let first = Reply { answer: Answer::Executed(Err(error)), transaction_status };
    let replies = seq![first] + drain;
    assert(replies[0] == first);
    assert(replies.drop_first() =~= drain);
    lemma_drained(drain);
    lemma_execution(
        ExecuteReturningCount::Executing { prepared },
        conn,
        replies,
        prepared.source,
    );
}

proof fn lemma_drained(drain: Seq<Reply>)
    requires
        is_drain(drain),
    ensures
        told_no_more(drain) matches Some(last) && last.result is Ok,
    decreases drain.len(),
{
    if drain.len() == 1 {
        assert(drain[0] == drain.last());
    } else {
        let rest = drain.drop_first();
        assert(rest.last() == drain.last());
        assert forall|i: int| 0 <= i < rest.len() - 1 implies {
            &&& (#[trigger] rest[i]).answer matches Answer::NextResult(next)
            &&& next matches Ok(Some(_))
        } by {
            assert(rest[i] == drain[i + 1]);
        }
        lemma_drained(rest);
    }
}

/// How a ping stands after the replies, as far as it takes them.
pub open spec fn run_ping(
    step: Step<Ping, QueryResult<()>>,
    conn: ConnectionModel,
    replies: Seq<Reply>,
) -> PingStep
    decreases replies.len(),
{
    match step {
        Step::Pending(operation) if replies.len() > 0 => {
            let (next, after) = operation.step(conn, replies[0]);
            run_ping(next, after, replies.drop_first())
        },
        _ => (step, conn),
    }
}

/// A ping succeeds just if the execution of its query succeeds on the same replies, and fails with
/// that execution's error otherwise. It leaves the connection as that execution does.
pub proof fn law_a_ping_comes_to_what_its_query_comes_to(
    execution: ExecuteReturningCount,
    conn: ConnectionModel,
    replies: Seq<Reply>,
)
    ensures
        ({
            let (ping, after) = run_ping(Step::Pending(Ping { execution }), conn, replies);
            let (counted, counted_after) = run_execution(Step::Pending(execution), conn, replies);
            &&& after == counted_after
            &&& match counted {
                Step::Done(Ok(_)) => ping == Step::<Ping, QueryResult<()>>::Done(Ok(())),
                Step::Done(Err(error)) => ping == Step::<Ping, QueryResult<()>>::Done(Err(error)),
                Step::Pending(next) => ping == Step::<Ping, QueryResult<()>>::Pending(
                    Ping { execution: next },
                ),
            }
        }),
    decreases replies.len(),
{
    if replies.len() > 0 {
        let rest = replies.drop_first();
        let (step, after) = execution.step(conn, replies[0]);
        let (ping, ping_after) = (Ping { execution }).step(conn, replies[0]);
        match step {
            Step::Pending(next) => {
                law_a_ping_comes_to_what_its_query_comes_to(next, after, rest);
            },
            Step::Done(_) => {
                assert(run_execution(step, after, rest) == (step, after));
                assert(run_ping(ping, ping_after, rest) == (ping, ping_after));
            },
        }
    }
}

/// What a ping asks is the query of the pool, executed like any other.
pub proof fn law_a_ping_executes_the_query_of_the_pool(
    conn: &mut PgConnection,
    query: Query,
    ping: Ping,
    counting: &mut PgConnection,
    source: Query,
    execution: ExecuteReturningCount,
)
    requires
        call_ensures(PgConnection::ping, (conn, query), ping),
        call_ensures(PgConnection::execute_returning_count, (counting, source), execution),
    ensures
        ping.execution matches ExecuteReturningCount::Preparing {
            source: debug,
            prepare: PrepareQuery::CollectingBinds { source: own, execute_returning_count },
        } && debug == query.debug && own == query && execute_returning_count,
        final(conn)@.manager.events == heard(
            old(conn)@.manager.events,
            EventModel::StartQuery { query: query.debug@ },
        ),
        only_events_differ(old(conn)@, final(conn)@),
        execution matches ExecuteReturningCount::Preparing {
            source: debug,
            prepare: PrepareQuery::CollectingBinds { source: own, execute_returning_count },
        } && debug == source.debug && own == source && execute_returning_count,
        final(counting)@.manager.events == heard(
            old(counting)@.manager.events,
            EventModel::StartQuery { query: source.debug@ },
        ),
        only_events_differ(old(counting)@, final(counting)@),
{
}

/// An execution gets its query ready like any other: what it waits for is what getting ready waits
/// for, and what it sends is what getting ready came to.
pub proof fn law_an_execution_sends_what_got_ready(
    source: String,
    prepare: PrepareQuery,
    conn: ConnectionModel,
    replies: Seq<Reply>,
)
    ensures
        ({
            let operation = ExecuteReturningCount::Preparing { source, prepare };
            match run_execution(Step::Pending(operation), conn, replies).0 {
                Step::Pending(
                    ExecuteReturningCount::Preparing { source: own, prepare: waiting },
                ) => {
                    &&& own == source
                    &&& run_prepare(Step::Pending(prepare), conn, replies).0
                        == Step::<PrepareQuery, QueryResult<PreparedQuery>>::Pending(waiting)
                },
                Step::Pending(ExecuteReturningCount::Executing { prepared }) => {
                    readiness_from(prepare, conn.statements, replies) matches Some(ready)
                        && ready.result == QueryResult::<PreparedQuery>::Ok(prepared)
                },
                _ => true,
            }
        }),
    decreases replies.len(),
{
    lemma_preparation(prepare, conn, replies);
    if replies.len() > 0 {
        let rest = replies.drop_first();
        let (step, after) = prepare.step(conn, replies[0]);
        match step {
            Step::Pending(next) => {
                law_an_execution_sends_what_got_ready(source, next, after, rest);
                lemma_preparation(next, after, rest);
            },
            Step::Done(Ok(prepared)) => {
                assert(run_prepare(step, after, rest) == (step, after));
                lemma_stays_sent(prepared, after, rest);
            },
            Step::Done(Err(_)) => {
                let (counted, counted_after) = (ExecuteReturningCount::Preparing {
                    source,
                    prepare,
                }).step(conn, replies[0]);
                assert(run_execution(counted, counted_after, rest) == (counted, counted_after));
            },
        }
    }
}

proof fn lemma_stays_sent(prepared: PreparedQuery, conn: ConnectionModel, replies: Seq<Reply>)
    ensures
        match run_execution(
            Step::Pending(ExecuteReturningCount::Executing { prepared }),
            conn,
            replies,
        ).0 {
            Step::Pending(ExecuteReturningCount::Preparing { .. }) => false,
            Step::Pending(ExecuteReturningCount::Executing { prepared: own }) => own == prepared,
            _ => true,
        },
    decreases replies.len(),
{
    if replies.len() > 0 {
        let operation = ExecuteReturningCount::Executing { prepared };
        let (step, after) = operation.step(conn, replies[0]);
        if let Step::Pending(next) = step {
            if next is Executing {
                lemma_stays_sent(prepared, after, replies.drop_first());
            } else {
                lemma_stays_draining(next, after, replies.drop_first());
            }
        }
    }
}

proof fn lemma_stays_draining(
    operation: ExecuteReturningCount,
    conn: ConnectionModel,
    replies: Seq<Reply>,
)
    requires
        operation is Draining,
    ensures
        match run_execution(Step::Pending(operation), conn, replies).0 {
            Step::Pending(next) => next is Draining,
            _ => true,
        },
    decreases replies.len(),
{
    if replies.len() > 0 {
        let (step, after) = operation.step(conn, replies[0]);
        match step {
            Step::Pending(next) => {
                lemma_stays_draining(next, after, replies.drop_first());
            },
            Step::Done(_) => {
                assert(run_execution(step, after, replies.drop_first()) == (step, after));
            },
        }
    }
}

} // verus!
