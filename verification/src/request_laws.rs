//! What the driver is asked for.
use crate::copy::{CopyFrom, CopyFromAnswer, CopyFromRequest, CopyTo};
use crate::establish::{Establish, EstablishPhase, EstablishRequest, SetConfigOptions};
use crate::execute::{ExecuteReturningCount, Ping};
use crate::load::{law_loading_modes, DefaultLoadingMode, Load, LoadState, PgRowByRowLoadingMode};
use crate::prepared_query::PrepareQuery;
use crate::query::{Answer, PreparedQuery, Request};
use vstd::prelude::*;

verus! {

/// The driver is asked to turn the bind values into bytes, or to have the very SQL of the query
/// prepared for the very types of its binds.
pub open spec fn asks_to_prepare(prepare: PrepareQuery, request: Request) -> bool {
    match prepare {
        PrepareQuery::CollectingBinds { .. } => request is CollectBinds,
        PrepareQuery::Preparing {
            source: _,
            query,
            bind_types,
            binds: _,
            for_cache: own,
            execute_returning_count: _,
        } => {
            &&& request matches Request::Prepare { sql, bind_types: types, for_cache }
            &&& *sql == query.sql
            &&& *types == bind_types
            &&& for_cache == own
        },
    }
}

/// The driver is asked to send the very statement of the query with its very binds.
pub open spec fn asks_to_execute(prepared: PreparedQuery, rows: bool, request: Request) -> bool {
    &&& request matches Request::Execute { statement, binds, row_by_row }
    &&& statement == prepared.statement
    &&& *binds == prepared.binds
    &&& row_by_row == rows
}

/// What is asked for to get a query ready.
pub proof fn law_requests_to_prepare<'a>(prepare: PrepareQuery, request: Request<'a>)
    requires
        call_ensures(PrepareQuery::request, (&prepare,), request),
    ensures
        asks_to_prepare(prepare, request),
{
}

/// An execution asks for what gets its query ready, has it executed for all rows at once, and asks
/// for the further results.
pub open spec fn asks_to_count(execution: ExecuteReturningCount, request: Request) -> bool {
    match execution {
        ExecuteReturningCount::Preparing { prepare, .. } => asks_to_prepare(prepare, request),
        ExecuteReturningCount::Executing { prepared } => asks_to_execute(prepared, false, request),
        ExecuteReturningCount::Draining { .. } => request is NextResult,
    }
}

/// What executions and pings ask for.
pub proof fn law_requests_to_count<'a>(
    execution: ExecuteReturningCount,
    request: Request<'a>,
    ping: Ping,
    ping_request: Request<'a>,
)
    requires
        call_ensures(ExecuteReturningCount::request, (&execution,), request),
        call_ensures(Ping::request, (&ping,), ping_request),
    ensures
        asks_to_count(execution, request),
        asks_to_count(ping.execution, ping_request),
{
}

/// What loading asks for: one row at a time in the row by row mode, and all rows in the default
/// mode, which asks for the next result too.
pub proof fn law_requests_to_load<'a>(
    at_once: Load<DefaultLoadingMode>,
    request: Request<'a>,
    row_by_row: Load<PgRowByRowLoadingMode>,
    row_request: Request<'a>,
)
    requires
        call_ensures(Load::<DefaultLoadingMode>::request, (&at_once,), request),
        call_ensures(Load::<PgRowByRowLoadingMode>::request, (&row_by_row,), row_request),
    ensures
        match at_once.state {
            LoadState::Preparing { prepare } => asks_to_prepare(prepare, request),
            LoadState::Executing { prepared } => asks_to_execute(prepared, false, request),
            LoadState::GettingCursor { .. } => request is NextResult,
        },
        match row_by_row.state {
            LoadState::Preparing { prepare } => asks_to_prepare(prepare, row_request),
            LoadState::Executing { prepared } => asks_to_execute(prepared, true, row_request),
            LoadState::GettingCursor { .. } => row_request is NextResult,
        },
{
    law_loading_modes();
}

/// What a copy from the server asks for.
pub proof fn law_requests_to_copy_from_the_server<'a>(copy: CopyTo, request: Request<'a>)
    requires
        call_ensures(CopyTo::request, (&copy,), request),
    ensures
        match copy {
            CopyTo::Preparing { prepare } => asks_to_prepare(prepare, request),
            CopyTo::Executing { prepared } => asks_to_execute(prepared, false, request),
        },
{
}

/// A copy that waits to tell the end of its data asks for a finish without an error just if the
/// caller has produced the data; otherwise the finish says what went wrong, in the caller's words.
pub proof fn law_the_end_of_the_data_is_told_as_it_was<'a>(
    source: String,
    sent: Result<(), String>,
    request: CopyFromRequest<'a>,
)
    requires
        call_ensures(CopyFrom::request, (&CopyFrom::Finishing { source, sent },), request),
    ensures
        request matches CopyFromRequest::Finish { error } && {
            &&& error is None <==> sent is Ok
            &&& sent matches Err(message) ==> error is Some && *error->0 == message
        },
{
}

/// What a copy to the server asks for at each step.
pub proof fn law_requests_to_copy_to_the_server<'a>(copy: CopyFrom, request: CopyFromRequest<'a>)
    requires
        call_ensures(CopyFrom::request, (&copy,), request),
    ensures
        match copy {
            CopyFrom::Preparing { prepare } => request matches CopyFromRequest::Query(inner)
                && asks_to_prepare(prepare, inner),
            CopyFrom::Executing { prepared } => request matches CopyFromRequest::Query(inner)
                && asks_to_execute(prepared, false, inner),
            CopyFrom::Sending { .. } => request is SendData,
            CopyFrom::Finishing { source: _, sent } => {
                &&& request matches CopyFromRequest::Finish { error }
                &&& error is Some <==> sent is Err
                &&& sent matches Err(message) ==> *error->0 == message
            },
            CopyFrom::AwaitingResult { .. } | CopyFrom::Draining { .. } => {
                request matches CopyFromRequest::Query(inner) && inner is NextResult
            },
            CopyFrom::Reporting { source: _, error: own } => request
                matches CopyFromRequest::Describe { error } && *error == own,
        },
{
}

/// An answer is one to a request of a copy just if it is of the same kind.
pub proof fn law_answers_to_a_copy_are_of_the_kind_of_their_request<'a>(
    request: &CopyFromRequest<'a>,
    answer: &CopyFromAnswer,
    yes: bool,
)
    requires
        call_ensures(CopyFromRequest::is_answered_by, (request, answer), yes),
    ensures
        match *answer {
            CopyFromAnswer::Query(inner) => yes <==> (*request matches CopyFromRequest::Query(
                asked,
            ) && match inner {
                Answer::Binds(_) => asked is CollectBinds,
                Answer::Prepared(_) => asked is Prepare,
                Answer::Executed(_) => asked is Execute,
                Answer::NextResult(_) => asked is NextResult,
            }),
            CopyFromAnswer::Sent(_) => yes <==> *request is SendData,
            CopyFromAnswer::Finished(_) => yes <==> *request is Finish,
            CopyFromAnswer::Described(_) => yes <==> *request is Describe,
        },
{
}

/// Setting the options of a session asks for what the command at hand asks for.
pub open spec fn asks_to_set(options: SetConfigOptions, request: Request) -> bool {
    match options {
        SetConfigOptions::SettingTimeZone { execution } => asks_to_count(execution, request),
        SetConfigOptions::SettingClientEncoding { execution } => asks_to_count(execution, request),
    }
}

/// An attempt to connect asks for a connection to its very URL, and then for what its options take.
pub proof fn law_requests_to_connect<'a>(
    attempt: Establish,
    request: EstablishRequest<'a>,
    options: SetConfigOptions,
    option_request: Request<'a>,
)
    requires
        call_ensures(Establish::request, (&attempt,), request),
        call_ensures(SetConfigOptions::request, (&options,), option_request),
    ensures
        match attempt.phase {
            EstablishPhase::Connecting => request matches EstablishRequest::Connect {
                database_url,
            } && *database_url == attempt.url,
            EstablishPhase::Configuring { conn: _, options } => request
                matches EstablishRequest::Query(inner) && asks_to_set(options, inner),
        },
        asks_to_set(options, option_request),
{
}

} // verus!
