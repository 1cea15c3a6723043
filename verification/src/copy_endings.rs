//! What copying to the server comes to, by the replies that it is given.
use crate::connection::ConnectionModel;
use crate::connection_laws::heard;
use crate::copy::{CopyFrom, CopyFromAnswer, CopyFromError, CopyFromReply, CopyFromStep};
use crate::error::{DatabaseErrorKind, Error};
use crate::instrumentation::{EventLog, EventModel};
use crate::prepared_query::PrepareQuery;
use crate::query::{Answer, PreparedQuery, Reply, Step};
use crate::raw::PgTransactionStatus;
use crate::runs::runs_copy_from;
use vstd::prelude::*;

verus! {

/// Why a copy has failed.
pub enum CopyFailure {
    /// This error was in a reply.
    Told(Error),
    /// The caller has failed to produce the data.
    Callback,
    /// There was no result after the data.
    NoResult,
}

/// How a copy goes once its command was sent.
pub enum CopyCourse {
    /// So many rows were copied, and the last reply brought this transaction status.
    Copied { rows: usize, server: PgTransactionStatus },
    /// It has failed, and these replies are behind that.
    Failed { failure: CopyFailure, rest: Seq<CopyFromReply> },
}

/// How it goes once the first result after the data has told the number of rows.
pub open spec fn course_once_counted(
    unproduced: bool,
    rows: usize,
    replies: Seq<CopyFromReply>,
) -> Option<CopyCourse>
    decreases replies.len(),
{
    if replies.len() == 0 {
        None
    } else {
        let rest = replies.drop_first();
        match replies[0].answer {
            CopyFromAnswer::Query(Answer::NextResult(Ok(None))) => Some(
                if unproduced {
                    CopyCourse::Failed { failure: CopyFailure::Callback, rest }
                } else {
                    CopyCourse::Copied { rows, server: replies[0].transaction_status }
                },
            ),
            CopyFromAnswer::Query(Answer::NextResult(Err(error))) => Some(
                CopyCourse::Failed { failure: CopyFailure::Told(error), rest },
            ),
            _ => course_once_counted(unproduced, rows, rest),
        }
    }
}

/// How it goes once the end of the data was told.
pub open spec fn course_once_finished(
    unproduced: bool,
    replies: Seq<CopyFromReply>,
) -> Option<CopyCourse>
    decreases replies.len(),
{
    if replies.len() == 0 {
        None
    } else {
        let rest = replies.drop_first();
        match replies[0].answer {
            CopyFromAnswer::Query(Answer::NextResult(next)) => match next {
                Ok(Some(result)) => course_once_counted(unproduced, result.rows_affected, rest),
                Ok(None) => Some(CopyCourse::Failed { failure: CopyFailure::NoResult, rest }),
                Err(error) => Some(CopyCourse::Failed { failure: CopyFailure::Told(error), rest }),
            },
            _ => course_once_finished(unproduced, rest),
        }
    }
}

/// How it goes once the caller has produced the data, or failed to.
pub open spec fn course_once_produced(
    unproduced: bool,
    replies: Seq<CopyFromReply>,
) -> Option<CopyCourse>
    decreases replies.len(),
{
    if replies.len() == 0 {
        None
    } else {
        let rest = replies.drop_first();
        match replies[0].answer {
            CopyFromAnswer::Finished(Ok(_)) => course_once_finished(unproduced, rest),
            CopyFromAnswer::Finished(Err(error)) => Some(
                CopyCourse::Failed { failure: CopyFailure::Told(error), rest },
            ),
            _ => course_once_produced(unproduced, rest),
        }
    }
}

/// How it goes once the command was executed.
pub open spec fn course_once_executed(replies: Seq<CopyFromReply>) -> Option<CopyCourse>
    decreases replies.len(),
{
    if replies.len() == 0 {
        None
    } else {
        let rest = replies.drop_first();
        match replies[0].answer {
            CopyFromAnswer::Sent(sent) => course_once_produced(sent is Err, rest),
            _ => course_once_executed(rest),
        }
    }
}

/// How a copy goes once its command was sent, by its replies.
pub open spec fn course_once_sent(replies: Seq<CopyFromReply>) -> Option<CopyCourse>
    decreases replies.len(),
{
    if replies.len() == 0 {
        None
    } else {
        let rest = replies.drop_first();
        match replies[0].answer {
            CopyFromAnswer::Query(Answer::Executed(Ok(_))) => course_once_executed(rest),
            CopyFromAnswer::Query(Answer::Executed(Err(error))) => Some(
                CopyCourse::Failed { failure: CopyFailure::Told(error), rest },
            ),
            _ => course_once_sent(rest),
        }
    }
}

/// The first reply that puts a failure into words, and the transaction status that it brings.
pub open spec fn told_in_words(replies: Seq<CopyFromReply>) -> Option<(String, PgTransactionStatus)>
    decreases replies.len(),
{
    if replies.len() == 0 {
        None
    } else {
        match replies[0].answer {
            CopyFromAnswer::Described(message) => Some((message, replies[0].transaction_status)),
            _ => told_in_words(replies.drop_first()),
        }
    }
}

/// The error tells of this failure.
pub open spec fn is_error_of(failure: CopyFailure, error: CopyFromError) -> bool {
    match failure {
        CopyFailure::Told(own) => error == CopyFromError::Query(own),
        CopyFailure::Callback => error is Callback,
        CopyFailure::NoResult => error matches CopyFromError::Query(
            Error::DeserializationError(message),
        ) && message@ == "Failed to receive result from the database"@,
    }
}

/// The error is one that the server did not sort, and says nothing but these words.
pub open spec fn says_alone(error: Error, message: String) -> bool {
    &&& error matches Error::DatabaseError(kind, information)
    &&& kind == DatabaseErrorKind::Unknown
    &&& information.message == message
    &&& information.details is None
    &&& information.hint is None
    &&& information.table_name is None
    &&& information.column_name is None
    &&& information.constraint_name is None
    &&& information.statement_position is None
}

/// Nothing about the connection is different but what was heard and which transaction status libpq
/// tells.
pub open spec fn is_otherwise_the_same(before: ConnectionModel, after: ConnectionModel) -> bool {
    &&& after.manager.status == before.manager.status
    &&& after.manager.raw_connection.notice_processor
        == before.manager.raw_connection.notice_processor
    &&& after.manager.raw_connection.notifications == before.manager.raw_connection.notifications
    &&& after.statements == before.statements
    &&& after.types == before.types
}

/// The end was reported as a failure, in these words and no others.
pub open spec fn failure_is_heard(
    before: EventLog,
    debug: Seq<char>,
    message: String,
    after: EventLog,
) -> bool {
    match before {
        None => after is None,
        Some(log) => {
            &&& after matches Some(events)
            &&& events.len() == log.len() + 1
            &&& events.drop_last() == log
            &&& events.last() matches EventModel::FinishQuery { query, error: Some(error) }
            &&& query == debug
            &&& says_alone(error, message)
        },
    }
}

/// What a copy that goes like this comes to, and leaves behind.
pub open spec fn is_course_taken(
    before: ConnectionModel,
    debug: String,
    course: Option<CopyCourse>,
    step: CopyFromStep,
    after: ConnectionModel,
) -> bool {
    &&& is_otherwise_the_same(before, after)
    &&& match course {
        None => step matches Step::Pending(waiting) && waiting !is Reporting
            && after.manager.events == before.manager.events,
        Some(CopyCourse::Copied { rows, server }) => {
            &&& step == CopyFromStep::Done(Ok(rows))
            &&& after.manager.events == heard(
                before.manager.events,
                EventModel::FinishQuery { query: debug@, error: None },
            )
            &&& after.manager.raw_connection.transaction_status == server
        },
        Some(CopyCourse::Failed { failure, rest }) => match told_in_words(rest) {
            None => {
                &&& step matches Step::Pending(CopyFrom::Reporting { source, error })
                &&& source == debug
                &&& is_error_of(failure, error)
                &&& after.manager.events == before.manager.events
            },
            Some((message, server)) => {
                &&& step matches Step::Done(Err(error))
                &&& is_error_of(failure, error)
                &&& failure_is_heard(
                    before.manager.events,
                    debug@,
                    message,
                    after.manager.events,
                )
                &&& after.manager.raw_connection.transaction_status == server
            },
        },
    }
}

/// How a copy that has come some way goes on.
spec fn course_from(operation: CopyFrom, replies: Seq<CopyFromReply>) -> Option<CopyCourse> {
    match operation {
        CopyFrom::Preparing { .. } => None,
        CopyFrom::Executing { .. } => course_once_sent(replies),
        CopyFrom::Sending { .. } => course_once_executed(replies),
        CopyFrom::Finishing { sent, .. } => course_once_produced(sent is Err, replies),
        CopyFrom::AwaitingResult { callback_failed, .. } => course_once_finished(
            callback_failed,
            replies,
        ),
        CopyFrom::Draining { callback_failed, rows, .. } => course_once_counted(
            callback_failed,
            rows,
            replies,
        ),
        CopyFrom::Reporting { .. } => None,
    }
}

spec fn copy_shows(operation: CopyFrom, debug: String) -> bool {
    match operation {
        CopyFrom::Preparing { .. } => false,
        CopyFrom::Executing { prepared } => prepared.source == debug,
        CopyFrom::Sending { source }
        | CopyFrom::Finishing { source, .. }
        | CopyFrom::AwaitingResult { source, .. }
        | CopyFrom::Draining { source, .. }
        | CopyFrom::Reporting { source, .. } => source == debug,
    }
}

proof fn lemma_reporting(
    debug: String,
    error: CopyFromError,
    conn: ConnectionModel,
    replies: Seq<CopyFromReply>,
    step: CopyFromStep,
    after: ConnectionModel,
)
    requires
        runs_copy_from(
            (CopyFrom::Reporting { source: debug, error }),
            conn,
            replies,
            step,
            after,
        ),
    ensures
        is_otherwise_the_same(conn, after),
        match told_in_words(replies) {
            None => step == CopyFromStep::Pending(CopyFrom::Reporting { source: debug, error })
                && after.manager.events == conn.manager.events,
            Some((message, server)) => {
                &&& step == CopyFromStep::Done(Err(error))
                &&& failure_is_heard(conn.manager.events, debug@, message, after.manager.events)
                &&& after.manager.raw_connection.transaction_status == server
            },
        },
    decreases replies.len(),
{
    if replies.len() > 0 {
        let operation = CopyFrom::Reporting { source: debug, error };
        let rest = replies.drop_first();
        let (next, next_conn) = choose|next: CopyFromStep, next_conn: ConnectionModel|
            {
                &&& #[trigger] operation.advances(conn, replies[0], next, next_conn)
                &&& match next {
                    Step::Done(_) => step == next && after == next_conn,
                    Step::Pending(next_operation) => runs_copy_from(
                        next_operation,
                        next_conn,
                        rest,
                        step,
                        after,
                    ),
                }
            };
        match next {
            Step::Pending(_) => {
                lemma_reporting(debug, error, next_conn, rest, step, after);
            },
            Step::Done(_) => {
                if let Some(log) = conn.manager.events {
                    assert(after.manager.events->0.drop_last() =~= log);
                }
            },
        }
    }
}

proof fn lemma_course(
    operation: CopyFrom,
    conn: ConnectionModel,
    replies: Seq<CopyFromReply>,
    step: CopyFromStep,
    after: ConnectionModel,
    debug: String,
)
    requires
        runs_copy_from(operation, conn, replies, step, after),
        copy_shows(operation, debug),
        operation !is Reporting,
    ensures
        is_course_taken(conn, debug, course_from(operation, replies), step, after),
    decreases replies.len(),
{
    if replies.len() > 0 {
        let rest = replies.drop_first();
        let (next, next_conn) = choose|next: CopyFromStep, next_conn: ConnectionModel|
            {
                &&& #[trigger] operation.advances(conn, replies[0], next, next_conn)
                &&& match next {
                    Step::Done(_) => step == next && after == next_conn,
                    Step::Pending(next_operation) => runs_copy_from(
                        next_operation,
                        next_conn,
                        rest,
                        step,
                        after,
                    ),
                }
            };
        if let Step::Pending(next_operation) = next {
            if let CopyFrom::Reporting { source, error } = next_operation {
                lemma_reporting(source, error, next_conn, rest, step, after);
            } else {
                lemma_course(next_operation, next_conn, rest, step, after, debug);
            }
        }
    }
}

/// A copy whose command was sent comes to what its replies tell: the very error of the first of
/// these that fails, in this order, the execution, telling the end of the data, the first result
/// after that, all further ones; word that there was no result; the caller's failure; or the number
/// of rows that the first result tells. A failure is reported in the words that it is described
/// with, and the record does not follow a copy.
pub proof fn law_a_copy_to_the_server_comes_to_what_it_is_told(
    prepared: PreparedQuery,
    conn: ConnectionModel,
    replies: Seq<CopyFromReply>,
    step: CopyFromStep,
    after: ConnectionModel,
)
    requires
        runs_copy_from((CopyFrom::Executing { prepared }), conn, replies, step, after),
    ensures
        is_course_taken(conn, prepared.source, course_once_sent(replies), step, after),
{
    lemma_course(CopyFrom::Executing { prepared }, conn, replies, step, after, prepared.source);
}

/// A copy gets its command ready like any other query, step by step. Its error is the outcome, and
/// what is sent is what got ready.
pub proof fn law_a_copy_to_the_server_sends_what_got_ready(
    prepare: PrepareQuery,
    conn: ConnectionModel,
    answer: Answer,
    transaction_status: PgTransactionStatus,
    step: CopyFromStep,
    after: ConnectionModel,
)
    requires
        (CopyFrom::Preparing { prepare }).advances(
            conn,
            (CopyFromReply { answer: CopyFromAnswer::Query(answer), transaction_status }),
            step,
            after,
        ),
    ensures
        ({
            let (ready, ready_conn) = prepare.step(conn, Reply { answer, transaction_status });
            &&& after == ready_conn
            &&& match ready {
                Step::Pending(waiting) => step == CopyFromStep::Pending(
                    CopyFrom::Preparing { prepare: waiting },
                ),
                Step::Done(Ok(prepared)) => step == CopyFromStep::Pending(
                    CopyFrom::Executing { prepared },
                ),
                Step::Done(Err(error)) => step == CopyFromStep::Done(
                    Err(CopyFromError::Query(error)),
                ),
            }
        }),
{
}

/// What the caller said of the data is what the end of the data will be told with.
pub proof fn law_the_word_of_the_caller_is_kept(
    source: String,
    conn: ConnectionModel,
    sent: Result<(), String>,
    transaction_status: PgTransactionStatus,
    step: CopyFromStep,
    after: ConnectionModel,
)
    requires
        (CopyFrom::Sending { source }).advances(
            conn,
            (CopyFromReply { answer: CopyFromAnswer::Sent(sent), transaction_status }),
            step,
            after,
        ),
    ensures
        step matches Step::Pending(CopyFrom::Finishing { source: own, sent: kept }) && own == source
            && kept == sent,
{
}

/// Every reply to a copy brings its transaction status, and the record stays as it is.
pub proof fn law_every_reply_to_a_copy_brings_its_status(
    copy: CopyFrom,
    conn: ConnectionModel,
    reply: CopyFromReply,
    step: CopyFromStep,
    after: ConnectionModel,
)
    requires
        copy.advances(conn, reply, step, after),
    ensures
        after.manager.raw_connection.transaction_status == reply.transaction_status,
        after.manager.status == conn.manager.status,
{
}

} // verus!
