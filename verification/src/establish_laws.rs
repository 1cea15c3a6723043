//! What an attempt to connect comes to.
use crate::connection::{ConnectionModel, PgConnection};
use crate::connection_laws::{heard, only_events_differ};
use crate::error::{ConnectionError, QueryResult};
use crate::establish::{
    is_fresh, sql_started, time_zone_sql, Establish, EstablishFailure, EstablishPhase,
    EstablishReply, SetConfigOptions,
};
use crate::execute::ExecuteReturningCount;
use crate::instrumentation::{DynInstrumentation, EventModel};
use crate::prepared_query::PrepareQuery;
use crate::query::{Reply, Step};
use crate::raw::{NoticeProcessor, PgTransactionStatus};
use crate::record_laws::nothing_open;
use crate::statement_cache::CacheSize;
use vstd::prelude::*;

verus! {

/// The execution waits for the binds of a query that is this SQL and nothing else.
pub open spec fn begins_to_execute(execution: ExecuteReturningCount, sql: Seq<char>) -> bool {
    &&& execution matches ExecuteReturningCount::Preparing {
        source: debug,
        prepare: PrepareQuery::CollectingBinds { source, execute_returning_count },
    }
    &&& debug == source.debug
    &&& debug@ == sql + " -- binds: []"@
    &&& execute_returning_count
    &&& source.rendered matches Ok(query)
    &&& query.sql@ == sql
    &&& query.query_id is None
    &&& !query.is_safe_to_cache_prepared
}

/// The start of that execution was reported, and nothing else has changed.
pub open spec fn is_begun(
    before: ConnectionModel,
    sql: Seq<char>,
    execution: ExecuteReturningCount,
    after: ConnectionModel,
) -> bool {
    &&& begins_to_execute(execution, sql)
    &&& only_events_differ(before, after)
    &&& after.manager.events == heard(
        before.manager.events,
        EventModel::StartQuery { query: sql + " -- binds: []"@ },
    )
}

/// The command that is being executed.
pub open spec fn command_of(options: SetConfigOptions) -> ExecuteReturningCount {
    match options {
        SetConfigOptions::SettingTimeZone { execution } => execution,
        SetConfigOptions::SettingClientEncoding { execution } => execution,
    }
}

/// Nothing has changed but that notices are dropped.
pub open spec fn only_drops_notices(before: ConnectionModel, after: ConnectionModel) -> bool {
    &&& after.manager.raw_connection.notice_processor == NoticeProcessor::Noop
    &&& after.manager.raw_connection.transaction_status
        == before.manager.raw_connection.transaction_status
    &&& after.manager.raw_connection.notifications == before.manager.raw_connection.notifications
    &&& after.manager.status == before.manager.status
    &&& after.manager.events == before.manager.events
    &&& after.statements == before.statements
    &&& after.types == before.types
}

/// How setting the options goes on: with the command at hand until that ends; with its error; from
/// the time zone to the encoding; and from there to success, with notices dropped.
pub open spec fn options_go_on(
    options: SetConfigOptions,
    before: ConnectionModel,
    reply: Reply,
    step: Step<SetConfigOptions, QueryResult<()>>,
    after: ConnectionModel,
) -> bool {
    let (executed, behind) = command_of(options).step(before, reply);
    match executed {
        Step::Pending(next) => {
            &&& step matches Step::Pending(going_on)
            &&& command_of(going_on) == next
            &&& going_on is SettingTimeZone <==> options is SettingTimeZone
            &&& after == behind
        },
        Step::Done(Err(error)) => {
            &&& step == Step::<SetConfigOptions, QueryResult<()>>::Done(Err(error))
            &&& after == behind
        },
        Step::Done(Ok(_)) => if options is SettingTimeZone {
            &&& step matches Step::Pending(SetConfigOptions::SettingClientEncoding { execution })
            &&& is_begun(behind, "SET CLIENT_ENCODING TO 'UTF8'"@, execution, after)
        } else {
            &&& step == Step::<SetConfigOptions, QueryResult<()>>::Done(Ok(()))
            &&& only_drops_notices(behind, after)
        },
    }
}

/// Setting the options begins with the time zone, which is set to UTC.
pub proof fn law_options_begin_with_the_time_zone(
    conn: &mut PgConnection,
    options: SetConfigOptions,
)
    requires
        call_ensures(PgConnection::set_config_options, (conn,), options),
    ensures
        options matches SetConfigOptions::SettingTimeZone { execution } && is_begun(
            old(conn)@,
            "SET TIME ZONE 'UTC'"@,
            execution,
            final(conn)@,
        ),
{
}

/// The time zone comes first and the encoding second, a failure of either ends it with its very
/// error, and after both notices are dropped.
pub proof fn law_options_are_set_one_behind_the_other(
    options: SetConfigOptions,
    conn: &mut PgConnection,
    reply: Reply,
    step: Step<SetConfigOptions, QueryResult<()>>,
)
    requires
        call_ensures(SetConfigOptions::resume, (options, conn, reply), step),
    ensures
        options_go_on(options, old(conn)@, reply, step, final(conn)@),
{
}

/// An attempt begins with its URL, and its start is reported to whom it was given.
pub proof fn law_an_attempt_begins(
    database_url: &str,
    instrumentation: DynInstrumentation,
    attempt: Establish,
)
    requires
        call_ensures(PgConnection::establish, (database_url, instrumentation), attempt),
    ensures
        attempt.url@ == database_url@,
        attempt.phase is Connecting,
        attempt.instrumentation@ == heard(
            instrumentation@,
            EventModel::StartEstablishConnection { url: database_url@ },
        ),
{
}

/// Nothing has happened on the connection yet, and nobody listens to it.
pub open spec fn is_untouched(conn: ConnectionModel, server: PgTransactionStatus) -> bool {
    &&& conn.manager.raw_connection.transaction_status == server
    &&& conn.manager.raw_connection.notice_processor == NoticeProcessor::Stderr
    &&& conn.manager.raw_connection.notifications@.len() == 0
    &&& conn.manager.status == nothing_open()
    &&& conn.manager.events is None
    &&& conn.statements.size == CacheSize::Unbounded
    &&& conn.statements.statements.len() == 0
    &&& conn.types.len() == 0
}

/// The attempt has failed with this error, and that was reported to whom it was given.
pub open spec fn attempt_fails(
    attempt: Establish,
    error: ConnectionError,
    step: Step<Establish, Result<PgConnection, EstablishFailure>>,
) -> bool {
    &&& step matches Step::Done(Err(failure))
    &&& failure.error == error
    &&& failure.instrumentation@ == heard(
        attempt.instrumentation@,
        EventModel::FinishEstablishConnection { url: attempt.url@, error: Some(error) },
    )
}

/// The attempt goes on with a connection, and the same URL and listener.
pub open spec fn attempt_goes_on(
    attempt: Establish,
    conn: ConnectionModel,
    options: SetConfigOptions,
    step: Step<Establish, Result<PgConnection, EstablishFailure>>,
) -> bool {
    &&& step matches Step::Pending(next)
    &&& next.url == attempt.url
    &&& next.instrumentation@ == attempt.instrumentation@
    &&& next.phase matches EstablishPhase::Configuring { conn: own, options: going_on }
    &&& own@ == conn
    &&& going_on == options
}

/// The attempt has led to this connection, and that was reported to whom the connection reports.
pub open spec fn attempt_succeeds_with(
    attempt: Establish,
    configured: ConnectionModel,
    step: Step<Establish, Result<PgConnection, EstablishFailure>>,
) -> bool {
    &&& step matches Step::Done(Ok(conn))
    &&& only_events_differ(configured, conn@)
    &&& conn@.manager.events == heard(
        attempt.instrumentation@,
        EventModel::FinishEstablishConnection { url: attempt.url@, error: None },
    )
}

/// An attempt goes on by its replies. A refused connection ends it with that very error. An
/// accepted one is untouched, and its options begin to be set. If they fail their error ends the
/// attempt, as one of the configuration; if they are all set, the attempt has led to that
/// connection. A reply to something else changes nothing.
pub proof fn law_an_attempt_goes_on_by_its_replies(
    attempt: Establish,
    reply: EstablishReply,
    step: Step<Establish, Result<PgConnection, EstablishFailure>>,
)
    requires
        call_ensures(Establish::resume, (attempt, reply), step),
    ensures
        match (attempt.phase, reply) {
            (
                EstablishPhase::Connecting,
                EstablishReply::Connected { result, transaction_status },
            ) => match result {
                Err(error) => attempt_fails(attempt, error, step),
                Ok(_) => exists|conn: ConnectionModel, options: SetConfigOptions|
                    {
                        &&& #[trigger] attempt_goes_on(attempt, conn, options, step)
                        &&& is_untouched(conn, transaction_status)
                        &&& options matches SetConfigOptions::SettingTimeZone { execution }
                        &&& begins_to_execute(execution, "SET TIME ZONE 'UTC'"@)
                    },
            },
            (EstablishPhase::Configuring { conn, options }, EstablishReply::Query(reply)) => {
                exists|inner: Step<SetConfigOptions, QueryResult<()>>, after: ConnectionModel|
                    {
                        &&& #[trigger] options_go_on(options, conn@, reply, inner, after)
                        &&& match inner {
                            Step::Pending(next) => attempt_goes_on(attempt, after, next, step),
                            Step::Done(Ok(_)) => attempt_succeeds_with(attempt, after, step),
                            Step::Done(Err(error)) => attempt_fails(
                                attempt,
                                ConnectionError::CouldntSetupConfiguration(error),
                                step,
                            ),
                        }
                    }
            },
            _ => step == Step::<Establish, Result<PgConnection, EstablishFailure>>::Pending(
                attempt,
            ),
        },
{
    match (attempt.phase, reply) {
        (EstablishPhase::Connecting, EstablishReply::Connected { result, transaction_status }) => {
            if result is Ok {
                let (conn, options) = choose|conn: ConnectionModel, options: SetConfigOptions|
                    {
                        &&& #[trigger] attempt.goes_on_with(conn, options, step)
                        &&& is_fresh(conn, transaction_status)
                        &&& options matches SetConfigOptions::SettingTimeZone { execution }
                        &&& sql_started(
                            conn,
                            time_zone_sql(),
                            execution,
                            conn,
                        )
                    };
                assert(attempt_goes_on(attempt, conn, options, step));
            }
        },
        (EstablishPhase::Configuring { conn, options }, EstablishReply::Query(reply)) => {
            let (inner, after) = choose|
                inner: Step<SetConfigOptions, QueryResult<()>>,
                after: ConnectionModel,
            |
                {
                    &&& #[trigger] options.advances(conn@, reply, inner, after)
                    &&& match inner {
                        Step::Pending(next) => attempt.goes_on_with(after, next, step),
                        Step::Done(Ok(_)) => attempt.succeeds_with(after, step),
                        Step::Done(Err(error)) => attempt.fails_with(
                            ConnectionError::CouldntSetupConfiguration(error),
                            step,
                        ),
                    }
                };
            assert(options_go_on(options, conn@, reply, inner, after));
        },
        _ => {},
    }
}

} // verus!
