//! Executing a query for the number of rows that it affects.
use crate::connection::{update_transaction_manager_status, ConnectionModel, PgConnection};
use crate::error::QueryResult;
use crate::instrumentation::EventModel;
use crate::prepared_query::PrepareQuery;
use crate::query::{Answer, PreparedQuery, Query, Reply, Request, Step};
use crate::raw::PgResult;
use vstd::prelude::*;

verus! {

/// A query that is executed for the number of rows that it affects, for
/// [`PgConnection::execute_returning_count`].
#[derive(Debug, PartialEq, Eq)]
pub enum ExecuteReturningCount {
    /// The query is on its way to a prepared statement.
    Preparing { source: String, prepare: PrepareQuery },
    /// The statement was sent.
    Executing { prepared: PreparedQuery },
    /// libpq wants to be asked for results until there are no more.
    Draining { source: String, result: QueryResult<usize> },
}

/// A step of the execution, and the connection after it.
pub type CountStep = (Step<ExecuteReturningCount, QueryResult<usize>>, ConnectionModel);

/// The execution has come to `result`.
pub open spec fn counted(
    conn: ConnectionModel,
    source: String,
    result: QueryResult<usize>,
) -> CountStep {
    (Step::Done(result), conn.settled(result, source@, true))
}

/// The number of affected rows of a statement that was executed.
pub open spec fn rows_affected(result: QueryResult<PgResult>) -> QueryResult<usize> {
    match result {
        Ok(result) => Ok(result.rows_affected),
        Err(error) => Err(error),
    }
}

impl ExecuteReturningCount {
    /// What the driver is asked for.
    pub open spec fn awaited(self) -> Request<'static> {
        match self {
            ExecuteReturningCount::Preparing { prepare, .. } => prepare.awaited(),
            ExecuteReturningCount::Executing { prepared } => Request::Execute {
                statement: prepared.statement,
                binds: &prepared.binds,
                row_by_row: false,
            },
            ExecuteReturningCount::Draining { .. } => Request::NextResult,
        }
    }

    /// What the driver has to do.
    pub fn request(&self) -> (request: Request<'_>)
        ensures
            request == self.awaited(),
    {
        match self {
            ExecuteReturningCount::Preparing { prepare, .. } => prepare.request(),
            ExecuteReturningCount::Executing { prepared } => Request::Execute {
                statement: prepared.statement,
                binds: &prepared.binds,
                row_by_row: false,
            },
            ExecuteReturningCount::Draining { .. } => Request::NextResult,
        }
    }

    /// How things stand after the reply.
    ///
    /// The outcome is the number of rows that the first result tells, or its error; but an error
    /// among the further results takes its place.
    pub open spec fn step(self, conn: ConnectionModel, reply: Reply) -> CountStep {
        let observed = conn.observed(reply.transaction_status);
        match (self, reply.answer) {
            (ExecuteReturningCount::Preparing { source, prepare }, _) => {
                let (step, after) = prepare.step(conn, reply);
                match step {
                    Step::Pending(prepare) => (
                        Step::Pending(ExecuteReturningCount::Preparing { source, prepare }),
                        after,
                    ),
                    Step::Done(Ok(prepared)) => (
                        Step::Pending(ExecuteReturningCount::Executing { prepared }),
                        after,
                    ),
                    Step::Done(Err(error)) => counted(after, source, Err(error)),
                }
            },
            (ExecuteReturningCount::Executing { prepared }, Answer::Executed(result)) => (
                Step::Pending(
                    ExecuteReturningCount::Draining {
                        source: prepared.source,
                        result: rows_affected(result),
                    },
                ),
                observed,
            ),
            (ExecuteReturningCount::Draining { source, result }, Answer::NextResult(next)) => {
                match next {
                    Ok(Some(_)) => (Step::Pending(self), observed),
                    Ok(None) => counted(observed, source, result),
                    Err(error) => counted(observed, source, Err(error)),
                }
            },
            _ => (Step::Pending(self), observed),
        }
    }

    /// Takes the reply to the request. One that answers something else changes nothing but the
    /// known transaction status.
    pub fn resume(self, conn: &mut PgConnection, reply: Reply) -> (step: Step<
        ExecuteReturningCount,
        QueryResult<usize>,
    >)
        ensures
            (step, final(conn)@) == self.step(old(conn)@, reply),
            old(conn)@.wf() ==> final(conn)@.wf(),
    {
        match self {
            ExecuteReturningCount::Preparing { source, prepare } => {
                match prepare.resume(conn, reply) {
                    Step::Pending(prepare) => Step::Pending(
                        ExecuteReturningCount::Preparing { source, prepare },
                    ),
                    Step::Done(Ok(prepared)) => Step::Pending(
                        ExecuteReturningCount::Executing { prepared },
                    ),
                    Step::Done(Err(error)) => Step::Done(
                        conn.finish_counting(source, Err(error)),
                    ),
                }
            },
            ExecuteReturningCount::Executing { prepared } => {
                conn.connection_and_transaction_manager.observe(reply.transaction_status);
                match reply.answer {
                    Answer::Executed(result) => Step::Pending(
                        ExecuteReturningCount::Draining {
                            source: prepared.source,
                            result: match result {
                                Ok(result) => Ok(result.rows_affected),
                                Err(error) => Err(error),
                            },
                        },
                    ),
                    _ => Step::Pending(ExecuteReturningCount::Executing { prepared }),
                }
            },
            ExecuteReturningCount::Draining { source, result } => {
                conn.connection_and_transaction_manager.observe(reply.transaction_status);
                match reply.answer {
                    Answer::NextResult(Ok(None)) => Step::Done(
                        conn.finish_counting(source, result),
                    ),
                    Answer::NextResult(Err(error)) => Step::Done(
                        conn.finish_counting(source, Err(error)),
                    ),
                    _ => Step::Pending(ExecuteReturningCount::Draining { source, result }),
                }
            },
        }
    }
}

impl PgConnection {
    /// Starts to execute a query for the number of rows that it affects.
    pub fn execute_returning_count(&mut self, source: Query) -> (pending: ExecuteReturningCount)
        ensures
            pending == execution_of(source),
            final(self)@ == old(self)@.reporting(
                EventModel::StartQuery { query: source.debug@ },
            ),
    {
        let debug: String = source.debug.clone();
        let prepare: PrepareQuery = self.with_prepared_query(source, true);
        ExecuteReturningCount::Preparing { source: debug, prepare }
    }

    fn finish_counting(&mut self, source: String, result: QueryResult<usize>) -> (outcome:
        QueryResult<usize>)
        ensures
            (Step::<ExecuteReturningCount, QueryResult<usize>>::Done(outcome), final(self)@)
                == counted(old(self)@, source, result),
    {
        update_transaction_manager_status(
            result,
            &mut self.connection_and_transaction_manager,
            source.as_str(),
            true,
        )
    }

    /// Starts to test whether the server still answers, with the query that the pool tests its
    /// connections with.
    pub fn ping(&mut self, check_connection_query: Query) -> (pending: Ping)
        ensures
            pending.execution == execution_of(check_connection_query),
            final(self)@ == old(self)@.reporting(
                EventModel::StartQuery { query: check_connection_query.debug@ },
            ),
    {
        Ping { execution: self.execute_returning_count(check_connection_query) }
    }

    /// Whether the pool must not hand this connection out again: the record of its transaction
    /// is broken, or holds an open transaction that is no test transaction.
    pub fn is_broken(&mut self) -> (broken: bool)
        ensures
            broken == old(self)@.manager.status.is_broken(),
            final(self)@ == old(self)@,
    {
        crate::connection::AnsiTransactionManager::is_broken_transaction_manager(self)
    }
}

/// The execution of a query before the first reply.
pub open spec fn execution_of(source: Query) -> ExecuteReturningCount {
    ExecuteReturningCount::Preparing {
        source: source.debug,
        prepare: PrepareQuery::CollectingBinds { source, execute_returning_count: true },
    }
}

/// A test of whether the server still answers, for [`PgConnection::ping`].
#[derive(Debug, PartialEq, Eq)]
pub struct Ping {
    pub execution: ExecuteReturningCount,
}

/// A step of the test, and the connection after it.
pub type PingStep = (Step<Ping, QueryResult<()>>, ConnectionModel);

impl Ping {
    /// What the driver has to do.
    pub fn request(&self) -> (request: Request<'_>)
        ensures
            request == self.execution.awaited(),
    {
        self.execution.request()
    }

    /// How things stand after the reply: as for the query, without the number of its rows.
    pub open spec fn step(self, conn: ConnectionModel, reply: Reply) -> PingStep {
        let (step, after) = self.execution.step(conn, reply);
        (
            match step {
                Step::Pending(execution) => Step::Pending(Ping { execution }),
                Step::Done(Ok(_)) => Step::Done(Ok(())),
                Step::Done(Err(error)) => Step::Done(Err(error)),
            },
            after,
        )
    }

    /// Takes the reply to the request. One that answers something else changes nothing but the
    /// known transaction status.
    pub fn resume(self, conn: &mut PgConnection, reply: Reply) -> (step: Step<
        Ping,
        QueryResult<()>,
    >)
        ensures
            (step, final(conn)@) == self.step(old(conn)@, reply),
            old(conn)@.wf() ==> final(conn)@.wf(),
    {
        match self.execution.resume(conn, reply) {
            Step::Pending(execution) => Step::Pending(Ping { execution }),
            Step::Done(Ok(_)) => Step::Done(Ok(())),
            Step::Done(Err(error)) => Step::Done(Err(error)),
        }
    }
}

} // verus!
