//! Bulk transfer with `COPY`.
use crate::connection::{ConnectionModel, PgConnection};
use crate::error::{
    copy_error, error_of, DatabaseErrorInformation, DatabaseErrorKind, Error, QueryResult,
};
use crate::instrumentation::{EventModel, InstrumentationEvent};
use crate::prepared_query::PrepareQuery;
use crate::query::{Answer, PreparedQuery, Query, Reply, Request, Step};
use crate::raw::{PgResult, PgTransactionStatus};
use vstd::prelude::*;

verus! {

/// Why data could not be copied to the server.
#[derive(Debug, PartialEq, Eq)]
pub enum CopyFromError {
    /// libpq or the server failed.
    Query(Error),
    /// The caller failed to produce the data. What went wrong is known to the caller.
    Callback,
}

/// Data that is being copied to the server, for [`PgConnection::copy_from`].
#[derive(Debug, PartialEq, Eq)]
pub enum CopyFrom {
    /// The `COPY` command is on its way to a prepared statement.
    Preparing { prepare: PrepareQuery },
    /// The command was sent.
    Executing { prepared: PreparedQuery },
    /// The caller is producing the data.
    Sending { source: String },
    /// The end of the data is being told to the server, with what went wrong on the caller's
    /// side.
    Finishing { source: String, sent: Result<(), String> },
    /// The server has not yet said what became of the data.
    AwaitingResult { source: String, callback_failed: bool },
    /// libpq wants to be asked for results until there are no more.
    Draining { source: String, callback_failed: bool, rows: usize },
    /// The copy has failed, which is still to be reported.
    Reporting { source: String, error: CopyFromError },
}

/// What copying asks of the driver.
#[derive(Debug, PartialEq, Eq)]
pub enum CopyFromRequest<'a> {
    /// Do what a query takes.
    Query(Request<'a>),
    /// Have the caller produce the data, and pass it on to libpq.
    SendData,
    /// Tell libpq that there is no more data; with a message, that the copy has failed.
    Finish { error: Option<&'a String> },
    /// Put into words what the caller will be told.
    Describe { error: &'a CopyFromError },
}

/// What a request came to.
#[derive(Debug, PartialEq, Eq)]
pub enum CopyFromAnswer {
    /// To [`CopyFromRequest::Query`].
    Query(Answer),
    /// To [`CopyFromRequest::SendData`]; the text says what went wrong.
    Sent(Result<(), String>),
    /// To [`CopyFromRequest::Finish`].
    Finished(QueryResult<()>),
    /// To [`CopyFromRequest::Describe`].
    Described(String),
}

/// What a request came to, and the transaction status from then on.
#[derive(Debug, PartialEq, Eq)]
pub struct CopyFromReply {
    pub answer: CopyFromAnswer,
    pub transaction_status: PgTransactionStatus,
}

impl<'a> CopyFromRequest<'a> {
    /// The answer is one to this request.
    pub open spec fn accepts(self, answer: CopyFromAnswer) -> bool {
        match (self, answer) {
            (CopyFromRequest::Query(request), CopyFromAnswer::Query(answer)) => request.accepts(
                answer,
            ),
            (CopyFromRequest::SendData, CopyFromAnswer::Sent(_)) => true,
            (CopyFromRequest::Finish { .. }, CopyFromAnswer::Finished(_)) => true,
            (CopyFromRequest::Describe { .. }, CopyFromAnswer::Described(_)) => true,
            _ => false,
        }
    }

    /// Whether the answer is one to this request.
    pub fn is_answered_by(&self, answer: &CopyFromAnswer) -> (yes: bool)
        ensures
            yes == self.accepts(*answer),
    {
        match (self, answer) {
            (CopyFromRequest::Query(request), CopyFromAnswer::Query(answer)) => {
                request.is_answered_by(answer)
            },
            (CopyFromRequest::SendData, CopyFromAnswer::Sent(_)) => true,
            (CopyFromRequest::Finish { .. }, CopyFromAnswer::Finished(_)) => true,
            (CopyFromRequest::Describe { .. }, CopyFromAnswer::Described(_)) => true,
            _ => false,
        }
    }
}

/// The server has ended a copy without saying what became of the data.
pub open spec fn is_missing_result(error: CopyFromError) -> bool {
    &&& error matches CopyFromError::Query(Error::DeserializationError(message))
    &&& message@ == "Failed to receive result from the database"@
}

/// The error under which a failed copy is reported.
pub open spec fn reported_copy_error(message: String) -> Error {
    Error::DatabaseError(
        DatabaseErrorKind::Unknown,
        DatabaseErrorInformation::of_message(message),
    )
}

/// A step of a copy to the server.
pub type CopyFromStep = Step<CopyFrom, Result<usize, CopyFromError>>;

/// The copy has failed, and its failure comes to be reported next.
pub open spec fn copy_failed(source: String, error: CopyFromError) -> CopyFromStep {
    Step::Pending(CopyFrom::Reporting { source, error })
}

impl CopyFrom {
    /// What the driver is asked for.
    pub open spec fn awaited(self) -> CopyFromRequest<'static> {
        match self {
            CopyFrom::Preparing { prepare } => CopyFromRequest::Query(prepare.awaited()),
            CopyFrom::Executing { prepared } => CopyFromRequest::Query(
                Request::Execute {
                    statement: prepared.statement,
                    binds: &prepared.binds,
                    row_by_row: false,
                },
            ),
            CopyFrom::Sending { .. } => CopyFromRequest::SendData,
            CopyFrom::Finishing { sent, .. } => CopyFromRequest::Finish {
                error: match sent {
                    Ok(_) => None,
                    Err(message) => Some(&message),
                },
            },
            CopyFrom::AwaitingResult { .. } => CopyFromRequest::Query(Request::NextResult),
            CopyFrom::Draining { .. } => CopyFromRequest::Query(Request::NextResult),
            CopyFrom::Reporting { error, .. } => CopyFromRequest::Describe { error: &error },
        }
    }

    /// What the driver has to do.
    pub fn request(&self) -> (request: CopyFromRequest<'_>)
        ensures
            request == self.awaited(),
    {
        match self {
            CopyFrom::Preparing { prepare } => CopyFromRequest::Query(prepare.request()),
            CopyFrom::Executing { prepared } => CopyFromRequest::Query(
                Request::Execute {
                    statement: prepared.statement,
                    binds: &prepared.binds,
                    row_by_row: false,
                },
            ),
            CopyFrom::Sending { .. } => CopyFromRequest::SendData,
            CopyFrom::Finishing { sent, .. } => CopyFromRequest::Finish {
                error: match sent {
                    Ok(()) => None,
                    Err(message) => Some(message),
                },
            },
            CopyFrom::AwaitingResult { .. } => CopyFromRequest::Query(Request::NextResult),
            CopyFrom::Draining { .. } => CopyFromRequest::Query(Request::NextResult),
            CopyFrom::Reporting { error, .. } => CopyFromRequest::Describe { error },
        }
    }

    /// How things may stand after the reply.
    ///
    /// The first of these decides the outcome: an error of the execution, an error of telling the
    /// end of the data, an error of receiving the result, a missing result, an error among the
    /// further results, the caller's failure. Without any of them it is the number of rows that
    /// the first result after the data tells. The record of the open transaction stays as it is.
    pub open spec fn advances(
        self,
        conn: ConnectionModel,
        reply: CopyFromReply,
        step: CopyFromStep,
        after: ConnectionModel,
    ) -> bool {
        let observed = conn.observed(reply.transaction_status);
        match (self, reply.answer) {
            (CopyFrom::Preparing { prepare }, CopyFromAnswer::Query(answer)) => {
                let (prepare_step, prepared_conn) = prepare.step(
                    conn,
                    Reply { answer, transaction_status: reply.transaction_status },
                );
                &&& step == match prepare_step {
                    Step::Pending(prepare) => CopyFromStep::Pending(
                        CopyFrom::Preparing { prepare },
                    ),
                    Step::Done(Ok(prepared)) => CopyFromStep::Pending(
                        CopyFrom::Executing { prepared },
                    ),
                    Step::Done(Err(error)) => CopyFromStep::Done(
                        Err(CopyFromError::Query(error)),
                    ),
                }
                &&& after == prepared_conn
            },
            (
                CopyFrom::Executing { prepared },
                CopyFromAnswer::Query(Answer::Executed(result)),
            ) => {
                &&& step == match result {
                    Ok(_) => CopyFromStep::Pending(CopyFrom::Sending { source: prepared.source }),
                    Err(error) => copy_failed(prepared.source, CopyFromError::Query(error)),
                }
                &&& after == observed
            },
            (CopyFrom::Sending { source }, CopyFromAnswer::Sent(sent)) => {
                &&& step == CopyFromStep::Pending(CopyFrom::Finishing { source, sent })
                &&& after == observed
            },
            (CopyFrom::Finishing { source, sent }, CopyFromAnswer::Finished(result)) => {
                &&& step == match result {
                    Ok(_) => CopyFromStep::Pending(
                        CopyFrom::AwaitingResult { source, callback_failed: sent is Err },
                    ),
                    Err(error) => copy_failed(source, CopyFromError::Query(error)),
                }
                &&& after == observed
            },
            (
                CopyFrom::AwaitingResult { source, callback_failed },
                CopyFromAnswer::Query(Answer::NextResult(next)),
            ) => {
                &&& match next {
                    Ok(Some(result)) => step == CopyFromStep::Pending(
                        CopyFrom::Draining { source, callback_failed, rows: result.rows_affected },
                    ),
                    Ok(None) => {
                        &&& step matches Step::Pending(
                            CopyFrom::Reporting { source: failed, error },
                        )
                        &&& failed == source
                        &&& is_missing_result(error)
                    },
                    Err(error) => step == copy_failed(source, CopyFromError::Query(error)),
                }
                &&& after == observed
            },
            (
                CopyFrom::Draining { source, callback_failed, rows },
                CopyFromAnswer::Query(Answer::NextResult(next)),
            ) => match next {
                Ok(Some(_)) => step == CopyFromStep::Pending(self) && after == observed,
                Ok(None) => if callback_failed {
                    &&& step == copy_failed(source, CopyFromError::Callback)
                    &&& after == observed
                } else {
                    &&& step == CopyFromStep::Done(Ok(rows))
                    &&& after == observed.reporting(
                        EventModel::FinishQuery { query: source@, error: None },
                    )
                },
                Err(error) => {
                    &&& step == copy_failed(source, CopyFromError::Query(error))
                    &&& after == observed
                },
            },
            (CopyFrom::Reporting { source, error }, CopyFromAnswer::Described(message)) => {
                &&& step == CopyFromStep::Done(Err(error))
                &&& after == observed.reporting(
                    EventModel::FinishQuery {
                        query: source@,
                        error: Some(reported_copy_error(message)),
                    },
                )
            },
            _ => step == CopyFromStep::Pending(self) && after == observed,
        }
    }

    /// Takes the reply to the request. One that answers something else changes nothing but the
    /// known transaction status.
    pub fn resume(self, conn: &mut PgConnection, reply: CopyFromReply) -> (step: CopyFromStep)
        ensures
            self.advances(old(conn)@, reply, step, final(conn)@),
            old(conn)@.wf() ==> final(conn)@.wf(),
    {
        let transaction_status: PgTransactionStatus = reply.transaction_status;
        conn.connection_and_transaction_manager.observe(transaction_status);
        match (self, reply.answer) {
            (CopyFrom::Preparing { prepare }, CopyFromAnswer::Query(answer)) => {
                match prepare.resume(conn, Reply { answer, transaction_status }) {
                    Step::Pending(prepare) => Step::Pending(CopyFrom::Preparing { prepare }),
                    Step::Done(Ok(prepared)) => Step::Pending(CopyFrom::Executing { prepared }),
                    Step::Done(Err(error)) => Step::Done(Err(CopyFromError::Query(error))),
                }
            },
            (
                CopyFrom::Executing { prepared },
                CopyFromAnswer::Query(Answer::Executed(result)),
            ) => match result {
                Ok(_) => Step::Pending(CopyFrom::Sending { source: prepared.source }),
                Err(error) => fail_to_copy(prepared.source, CopyFromError::Query(error)),
            },
            (CopyFrom::Sending { source }, CopyFromAnswer::Sent(sent)) => Step::Pending(
                CopyFrom::Finishing { source, sent },
            ),
            (CopyFrom::Finishing { source, sent }, CopyFromAnswer::Finished(result)) => {
                match result {
                    Ok(()) => Step::Pending(
                        CopyFrom::AwaitingResult { source, callback_failed: sent.is_err() },
                    ),
                    Err(error) => fail_to_copy(source, CopyFromError::Query(error)),
                }
            },
            (
                CopyFrom::AwaitingResult { source, callback_failed },
                CopyFromAnswer::Query(Answer::NextResult(next)),
            ) => match next {
                Ok(Some(result)) => Step::Pending(
                    CopyFrom::Draining { source, callback_failed, rows: result.rows_affected },
                ),
                Ok(None) => fail_to_copy(
                    source,
                    CopyFromError::Query(
                        Error::DeserializationError(
                            "Failed to receive result from the database".to_owned(),
                        ),
                    ),
                ),
                Err(error) => fail_to_copy(source, CopyFromError::Query(error)),
            },
            (
                CopyFrom::Draining { source, callback_failed, rows },
                CopyFromAnswer::Query(Answer::NextResult(next)),
            ) => match next {
                Ok(Some(_)) => Step::Pending(CopyFrom::Draining { source, callback_failed, rows }),
                Ok(None) => {
                    if callback_failed {
                        fail_to_copy(source, CopyFromError::Callback)
                    } else {
                        conn.connection_and_transaction_manager.report(
                            InstrumentationEvent::FinishQuery { query: source, error: None },
                        );
                        Step::Done(Ok(rows))
                    }
                },
                Err(error) => fail_to_copy(source, CopyFromError::Query(error)),
            },
            (CopyFrom::Reporting { source, error }, CopyFromAnswer::Described(message)) => {
                conn.connection_and_transaction_manager.report(
                    InstrumentationEvent::FinishQuery {
                        query: source,
                        error: Some(
                            Error::DatabaseError(
                                DatabaseErrorKind::Unknown,
                                DatabaseErrorInformation::from_message(message),
                            ),
                        ),
                    },
                );
                Step::Done(Err(error))
            },
            (operation, _) => Step::Pending(operation),
        }
    }
}

/// A copy to the server before the first reply.
pub open spec fn copy_of(command: Query) -> CopyFrom {
    CopyFrom::Preparing {
        prepare: PrepareQuery::CollectingBinds { source: command, execute_returning_count: false },
    }
}

fn fail_to_copy(source: String, error: CopyFromError) -> (step: CopyFromStep)
    ensures
        step == copy_failed(source, error),
{
    Step::Pending(CopyFrom::Reporting { source, error })
}

/// The data that a `COPY` command sends to the client.
#[derive(Debug, PartialEq, Eq)]
pub struct CopyToBuffer {
    pub result: PgResult,
}

/// Data that is being copied from the server, for [`PgConnection::copy_to`].
#[derive(Debug, PartialEq, Eq)]
pub enum CopyTo {
    /// The `COPY` command is on its way to a prepared statement.
    Preparing { prepare: PrepareQuery },
    /// The command was sent.
    Executing { prepared: PreparedQuery },
}

/// A step of a copy from the server, and the connection after it.
pub type CopyToStep = (Step<CopyTo, QueryResult<CopyToBuffer>>, ConnectionModel);

impl CopyTo {
    /// What the driver is asked for.
    pub open spec fn awaited(self) -> Request<'static> {
        match self {
            CopyTo::Preparing { prepare } => prepare.awaited(),
            CopyTo::Executing { prepared } => Request::Execute {
                statement: prepared.statement,
                binds: &prepared.binds,
                row_by_row: false,
            },
        }
    }

    /// What the driver has to do.
    pub fn request(&self) -> (request: Request<'_>)
        ensures
            request == self.awaited(),
    {
        match self {
            CopyTo::Preparing { prepare } => prepare.request(),
            CopyTo::Executing { prepared } => Request::Execute {
                statement: prepared.statement,
                binds: &prepared.binds,
                row_by_row: false,
            },
        }
    }

    /// How things stand after the reply. The end of the query is reported as soon as the data
    /// can be read; the record of the open transaction stays as it is.
    pub open spec fn step(self, conn: ConnectionModel, reply: Reply) -> CopyToStep {
        let observed = conn.observed(reply.transaction_status);
        match (self, reply.answer) {
            (CopyTo::Preparing { prepare }, _) => {
                let (step, after) = prepare.step(conn, reply);
                match step {
                    Step::Pending(prepare) => (Step::Pending(CopyTo::Preparing { prepare }), after),
                    Step::Done(Ok(prepared)) => (
                        Step::Pending(CopyTo::Executing { prepared }),
                        after,
                    ),
                    Step::Done(Err(error)) => (Step::Done(Err(error)), after),
                }
            },
            (CopyTo::Executing { prepared }, Answer::Executed(result)) => (
                Step::Done(
                    match result {
                        Ok(result) => Ok(CopyToBuffer { result }),
                        Err(error) => Err(error),
                    },
                ),
                observed.reporting(
                    EventModel::FinishQuery { query: prepared.source@, error: error_of(result) },
                ),
            ),
            _ => (Step::Pending(self), observed),
        }
    }

    /// Takes the reply to the request. One that answers something else changes nothing but the
    /// known transaction status.
    pub fn resume(self, conn: &mut PgConnection, reply: Reply) -> (step: Step<
        CopyTo,
        QueryResult<CopyToBuffer>,
    >)
        ensures
            (step, final(conn)@) == self.step(old(conn)@, reply),
            old(conn)@.wf() ==> final(conn)@.wf(),
    {
        match self {
            CopyTo::Preparing { prepare } => {
                match prepare.resume(conn, reply) {
                    Step::Pending(prepare) => Step::Pending(CopyTo::Preparing { prepare }),
                    Step::Done(Ok(prepared)) => Step::Pending(CopyTo::Executing { prepared }),
                    Step::Done(Err(error)) => Step::Done(Err(error)),
                }
            },
            CopyTo::Executing { prepared } => {
                conn.connection_and_transaction_manager.observe(reply.transaction_status);
                match reply.answer {
                    Answer::Executed(result) => {
                        let error: Option<Error> = copy_error(&result);
                        conn.connection_and_transaction_manager.report(
                            InstrumentationEvent::FinishQuery { query: prepared.source, error },
                        );
                        Step::Done(
                            match result {
                                Ok(result) => Ok(CopyToBuffer { result }),
                                Err(error) => Err(error),
                            },
                        )
                    },
                    _ => Step::Pending(CopyTo::Executing { prepared }),
                }
            },
        }
    }
}

impl PgConnection {
    /// Starts to copy data to the server, with a `COPY ... FROM STDIN` command.
    pub fn copy_from(&mut self, command: Query) -> (pending: CopyFrom)
        ensures
            pending == copy_of(command),
            final(self)@ == old(self)@.reporting(
                EventModel::StartQuery { query: command.debug@ },
            ),
    {
        CopyFrom::Preparing { prepare: self.with_prepared_query(command, false) }
    }

    /// Starts to copy data from the server, with a `COPY ... TO STDOUT` command.
    pub fn copy_to(&mut self, command: Query) -> (pending: CopyTo)
        ensures
            pending == (CopyTo::Preparing {
                prepare: PrepareQuery::CollectingBinds {
                    source: command,
                    execute_returning_count: false,
                },
            }),
            final(self)@ == old(self)@.reporting(
                EventModel::StartQuery { query: command.debug@ },
            ),
    {
        CopyTo::Preparing { prepare: self.with_prepared_query(command, false) }
    }
}

} // verus!
