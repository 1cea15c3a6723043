//! Getting a query ready to be executed.
use crate::connection::{ConnectionModel, PgConnection};
use crate::error::{Error, QueryResult};
use crate::instrumentation::{EventModel, InstrumentationEvent};
use crate::query::{Answer, CollectedBinds, PreparedQuery, Query, Reply, Request, Step};
use crate::statement_cache::{
    lookup, CachedStatement, MaybeCached, PgTypeMetadata, RenderedQuery,
};
use vstd::prelude::*;

verus! {

/// A query on its way to a prepared statement, for [`PgConnection::with_prepared_query`].
#[derive(Debug, PartialEq, Eq)]
pub enum PrepareQuery {
    /// The bind values are being turned into bytes.
    CollectingBinds { source: Query, execute_returning_count: bool },
    /// The server is preparing a statement.
    Preparing {
        source: String,
        query: RenderedQuery,
        bind_types: Vec<PgTypeMetadata>,
        binds: Vec<Option<Vec<u8>>>,
        for_cache: bool,
        execute_returning_count: bool,
    },
}

/// A step on the way to a prepared statement, and the connection after it.
pub type PrepareStep = (Step<PrepareQuery, QueryResult<PreparedQuery>>, ConnectionModel);

/// There is no statement for the query. The end of the query is reported here, unless the caller
/// is one that executes it for the number of its rows, and reports the end itself.
pub open spec fn no_statement(
    conn: ConnectionModel,
    source: String,
    execute_returning_count: bool,
    error: Error,
) -> PrepareStep {
    (
        Step::Done(Err(error)),
        if execute_returning_count {
            conn
        } else {
            conn.reporting(EventModel::FinishQuery { query: source@, error: Some(error) })
        },
    )
}

/// The binds are there. A statement that is kept for the query is used; otherwise the server has
/// to prepare one, and it is reported if that one will be kept.
pub open spec fn binds_collected(
    conn: ConnectionModel,
    source: Query,
    execute_returning_count: bool,
    collected: CollectedBinds,
) -> PrepareStep {
    match source.rendered {
        Err(error) => no_statement(conn, source.debug, execute_returning_count, error),
        Ok(query) => {
            let for_cache = conn.statements.keeps(query);
            let kept = lookup(conn.statements.statements, query, collected.metadata@);
            if for_cache && kept is Some {
                (
                    Step::Done(
                        Ok(
                            PreparedQuery {
                                source: source.debug,
                                statement: MaybeCached::Cached(kept->0),
                                binds: collected.binds,
                            },
                        ),
                    ),
                    conn,
                )
            } else {
                (
                    Step::Pending(
                        PrepareQuery::Preparing {
                            source: source.debug,
                            query,
                            bind_types: collected.metadata,
                            binds: collected.binds,
                            for_cache,
                            execute_returning_count,
                        },
                    ),
                    if for_cache {
                        conn.reporting(EventModel::CacheQuery { sql: query.sql@ })
                    } else {
                        conn
                    },
                )
            }
        },
    }
}

impl PrepareQuery {
    /// What the driver is asked for.
    pub open spec fn awaited(self) -> Request<'static> {
        match self {
            PrepareQuery::CollectingBinds { .. } => Request::CollectBinds,
            PrepareQuery::Preparing { query, bind_types, for_cache, .. } => Request::Prepare {
                sql: &query.sql,
                bind_types: &bind_types,
                for_cache,
            },
        }
    }

    /// What the driver has to do.
    pub fn request(&self) -> (request: Request<'_>)
        ensures
            request == self.awaited(),
    {
        match self {
            PrepareQuery::CollectingBinds { .. } => Request::CollectBinds,
            PrepareQuery::Preparing { query, bind_types, for_cache, .. } => Request::Prepare {
                sql: &query.sql,
                bind_types,
                for_cache: *for_cache,
            },
        }
    }

    /// How things stand after the reply.
    ///
    /// If the bind values cannot be turned into bytes, that is the outcome, and the end of the
    /// query is not reported.
    pub open spec fn step(self, conn: ConnectionModel, reply: Reply) -> PrepareStep {
        let conn = conn.observed(reply.transaction_status);
        match (self, reply.answer) {
            (
                PrepareQuery::CollectingBinds { source, execute_returning_count },
                Answer::Binds(result),
            ) => match result {
                Err(error) => (Step::Done(Err(error)), conn),
                Ok(collected) => binds_collected(conn, source, execute_returning_count, collected),
            },
            (
                PrepareQuery::Preparing {
                    source,
                    query,
                    bind_types,
                    binds,
                    for_cache,
                    execute_returning_count,
                },
                Answer::Prepared(result),
            ) => match result {
                Err(error) => no_statement(conn, source, execute_returning_count, error),
                Ok(statement) => if for_cache {
                    (
                        Step::Done(
                            Ok(
                                PreparedQuery {
                                    source,
                                    statement: MaybeCached::Cached(statement),
                                    binds,
                                },
                            ),
                        ),
                        ConnectionModel {
                            statements: conn.statements.storing(
                                CachedStatement {
                                    query_id: query.query_id,
                                    sql: query.sql,
                                    bind_types,
                                    statement,
                                },
                            ),
                            ..conn
                        },
                    )
                } else {
                    (
                        Step::Done(
                            Ok(
                                PreparedQuery {
                                    source,
                                    statement: MaybeCached::CannotCache(statement),
                                    binds,
                                },
                            ),
                        ),
                        conn,
                    )
                },
            },
            _ => (Step::Pending(self), conn),
        }
    }

    /// Takes the reply to the request. One that answers something else changes nothing but the
    /// known transaction status.
    pub fn resume(self, conn: &mut PgConnection, reply: Reply) -> (step: Step<
        PrepareQuery,
        QueryResult<PreparedQuery>,
    >)
        ensures
            (step, final(conn)@) == self.step(old(conn)@, reply),
            old(conn)@.wf() ==> final(conn)@.wf(),
    {
        conn.connection_and_transaction_manager.observe(reply.transaction_status);
        match (self, reply.answer) {
            (
                PrepareQuery::CollectingBinds { source, execute_returning_count },
                Answer::Binds(result),
            ) => match result {
                Err(error) => Step::Done(Err(error)),
                Ok(collected) => {
                    let Query { debug, rendered } = source;
                    match rendered {
                        Err(error) => Step::Done(
                            fail_to_prepare(conn, debug, execute_returning_count, error),
                        ),
                        Ok(query) => {
                            let for_cache: bool = conn.statement_cache.is_kept(&query);
                            if for_cache {
                                if let Some(statement) = conn.statement_cache.get(
                                    &query,
                                    &collected.metadata,
                                ) {
                                    return Step::Done(
                                        Ok(
                                            PreparedQuery {
                                                source: debug,
                                                statement: MaybeCached::Cached(statement),
                                                binds: collected.binds,
                                            },
                                        ),
                                    );
                                }
                                conn.connection_and_transaction_manager.report(
                                    InstrumentationEvent::CacheQuery { sql: query.sql.clone() },
                                );
                            }
                            Step::Pending(
                                PrepareQuery::Preparing {
                                    source: debug,
                                    query,
                                    bind_types: collected.metadata,
                                    binds: collected.binds,
                                    for_cache,
                                    execute_returning_count,
                                },
                            )
                        },
                    }
                },
            },
            (
                PrepareQuery::Preparing {
                    source,
                    query,
                    bind_types,
                    binds,
                    for_cache,
                    execute_returning_count,
                },
                Answer::Prepared(result),
            ) => match result {
                Err(error) => Step::Done(
                    fail_to_prepare(conn, source, execute_returning_count, error),
                ),
                Ok(statement) => {
                    if for_cache {
                        conn.statement_cache.insert(
                            CachedStatement {
                                query_id: query.query_id,
                                sql: query.sql,
                                bind_types,
                                statement,
                            },
                        );
                        Step::Done(
                            Ok(
                                PreparedQuery {
                                    source,
                                    statement: MaybeCached::Cached(statement),
                                    binds,
                                },
                            ),
                        )
                    } else {
                        Step::Done(
                            Ok(
                                PreparedQuery {
                                    source,
                                    statement: MaybeCached::CannotCache(statement),
                                    binds,
                                },
                            ),
                        )
                    }
                },
            },
            (operation, _) => Step::Pending(operation),
        }
    }
}

fn fail_to_prepare(
    conn: &mut PgConnection,
    source: String,
    execute_returning_count: bool,
    error: Error,
) -> (result: QueryResult<PreparedQuery>)
    ensures
        (Step::<PrepareQuery, QueryResult<PreparedQuery>>::Done(result), final(conn)@)
            == no_statement(old(conn)@, source, execute_returning_count, error),
{
    if !execute_returning_count {
        conn.connection_and_transaction_manager.report(
            InstrumentationEvent::FinishQuery { query: source, error: Some(error.clone()) },
        );
    }
    Err(error)
}

impl PgConnection {
    /// Starts to get a query ready to be executed. The start of the query is reported.
    ///
    /// While the binds are collected the connection may be used for other queries: the type of a
    /// bind may have to be looked up on the server.
    pub fn with_prepared_query(&mut self, source: Query, execute_returning_count: bool) -> (pending:
        PrepareQuery)
        ensures
            pending == (PrepareQuery::CollectingBinds { source, execute_returning_count }),
            final(self)@ == old(self)@.reporting(
                EventModel::StartQuery { query: source.debug@ },
            ),
    {
        self.connection_and_transaction_manager.report(
            InstrumentationEvent::StartQuery { query: source.debug.clone() },
        );
        PrepareQuery::CollectingBinds { source, execute_returning_count }
    }
}

} // verus!
