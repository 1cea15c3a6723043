//! What a connection holds, what it reports, and what becomes of a batch.
use crate::connection::{
    update_transaction_manager_status, AnsiTransactionManager, BatchExecute,
    ConnectionAndTransactionManager, ConnectionModel, PgConnection,
};
use crate::error::{copy_error, DatabaseErrorInformation, Error, NulError, QueryResult};
use crate::instrumentation::{DynInstrumentation, EventLog, EventModel, InstrumentationEvent};
use crate::notifications::NotificationsIter;
use crate::query::{Answer, Query, Request};
use crate::raw::{
    ExecReply, NoticeProcessor, PgNotification, PgTransactionStatus, RawConnection,
};
use crate::record_laws::followed;
use crate::statement_cache::{CacheSize, PgMetadataCache};
use crate::text::{decimal, CString};
use crate::transaction_status::TransactionManagerStatus;
use vstd::prelude::*;
use vstd::utf8::encode_utf8;

verus! {

/// What is heard of an event: whoever listens hears of it last, and nobody else hears anything.
pub open spec fn heard(log: EventLog, event: EventModel) -> EventLog {
    match log {
        Some(events) => Some(events.push(event)),
        None => None,
    }
}

/// Two states of a connection differ in nothing but the events that were reported.
pub open spec fn only_events_differ(before: ConnectionModel, after: ConnectionModel) -> bool {
    &&& after.manager.raw_connection == before.manager.raw_connection
    &&& after.manager.status == before.manager.status
    &&& after.statements == before.statements
    &&& after.types == before.types
}

/// Two states of a connection differ in nothing but the events that were reported, the record of
/// the open transaction, and the transaction status that libpq tells.
pub open spec fn only_a_query_ended(before: ConnectionModel, after: ConnectionModel) -> bool {
    &&& after.manager.raw_connection.notice_processor
        == before.manager.raw_connection.notice_processor
    &&& after.manager.raw_connection.notifications == before.manager.raw_connection.notifications
    &&& after.statements == before.statements
    &&& after.types == before.types
}

/// What contracts say of a connection is what it holds.
pub proof fn law_a_connection_is_what_it_holds(conn: PgConnection)
    ensures
        conn@.manager.raw_connection == conn.connection_and_transaction_manager.raw_connection,
        conn@.manager.status == conn.connection_and_transaction_manager.transaction_state.status,
        conn@.manager.events == conn.connection_and_transaction_manager.instrumentation@,
        conn@.manager == conn.connection_and_transaction_manager@,
        conn@.statements == conn.statement_cache@,
        conn@.types == conn.metadata_cache@,
{
}

/// What contracts say of an event is what it says.
pub proof fn law_an_event_is_what_it_says(event: InstrumentationEvent)
    ensures
        match event {
            InstrumentationEvent::StartEstablishConnection { url } => event@
                == (EventModel::StartEstablishConnection { url: url@ }),
            InstrumentationEvent::FinishEstablishConnection { url, error } => event@
                == (EventModel::FinishEstablishConnection { url: url@, error }),
            InstrumentationEvent::StartQuery { query } => event@ == (EventModel::StartQuery {
                query: query@,
            }),
            InstrumentationEvent::CacheQuery { sql } => event@ == (EventModel::CacheQuery {
                sql: sql@,
            }),
            InstrumentationEvent::FinishQuery { query, error } => event@
                == (EventModel::FinishQuery { query: query@, error }),
            InstrumentationEvent::BeginTransaction { depth } => event@
                == (EventModel::BeginTransaction { depth }),
            InstrumentationEvent::CommitTransaction { depth } => event@
                == (EventModel::CommitTransaction { depth }),
            InstrumentationEvent::RollbackTransaction { depth } => event@
                == (EventModel::RollbackTransaction { depth }),
        },
{
}

/// Each event is heard, behind those before it.
pub proof fn law_events_are_heard_in_order(
    instrumentation: &mut DynInstrumentation,
    event: InstrumentationEvent,
    done: (),
)
    requires
        call_ensures(DynInstrumentation::on_connection_event, (instrumentation, event), done),
    ensures
        final(instrumentation)@ == heard(old(instrumentation)@, event@),
{
}

/// Events are handed out as they were heard, and each of them once.
pub proof fn law_events_are_handed_out_once(
    instrumentation: &mut DynInstrumentation,
    events: Vec<InstrumentationEvent>,
)
    requires
        call_ensures(DynInstrumentation::take_events, (instrumentation,), events),
    ensures
        match old(instrumentation)@ {
            Some(log) => {
                &&& events@.len() == log.len()
                &&& forall|i: int| 0 <= i < log.len() ==> (#[trigger] events@[i])@ == log[i]
                &&& final(instrumentation)@ == Some(Seq::<EventModel>::empty())
            },
            None => events@.len() == 0 && final(instrumentation)@ is None,
        },
{
    if let Some(log) = instrumentation@ {
        let views = events@.map_values(|event: InstrumentationEvent| event@);
        assert(views == log);
        assert forall|i: int| 0 <= i < log.len() implies (#[trigger] events@[i])@ == log[i] by {
            assert(views[i] == events@[i]@);
        }
    }
}

/// Whoever begins to listen has heard nothing; where nobody listens nothing is heard.
pub proof fn law_listening_begins_with_nothing(
    listening: DynInstrumentation,
    none: DynInstrumentation,
)
    requires
        call_ensures(DynInstrumentation::listening, (), listening),
        call_ensures(DynInstrumentation::none, (), none),
    ensures
        listening@ == Some(Seq::<EventModel>::empty()),
        none@ is None,
{
}

/// Noting the transaction status, and reporting an event, changes that alone.
pub proof fn law_one_thing_is_noted_at_a_time(
    observing: &mut ConnectionAndTransactionManager,
    transaction_status: PgTransactionStatus,
    observed: (),
    reporting: &mut ConnectionAndTransactionManager,
    event: InstrumentationEvent,
    reported: (),
)
    requires
        call_ensures(
            ConnectionAndTransactionManager::observe,
            (observing, transaction_status),
            observed,
        ),
        call_ensures(ConnectionAndTransactionManager::report, (reporting, event), reported),
    ensures
        final(observing)@.raw_connection.transaction_status == transaction_status,
        final(observing)@.raw_connection.notice_processor
            == old(observing)@.raw_connection.notice_processor,
        final(observing)@.raw_connection.notifications
            == old(observing)@.raw_connection.notifications,
        final(observing)@.status == old(observing)@.status,
        final(observing)@.events == old(observing)@.events,
        final(reporting)@.raw_connection == old(reporting)@.raw_connection,
        final(reporting)@.status == old(reporting)@.status,
        final(reporting)@.events == heard(old(reporting)@.events, event@),
{
}

/// What a session does to what is known of it: a call into libpq brings its transaction status, a
/// notice processor is set, a notification waits behind the others, and the oldest one is taken.
pub proof fn law_a_session_is_known_by_what_it_did(
    observing: &mut RawConnection,
    transaction_status: PgTransactionStatus,
    observed: (),
    asked: &RawConnection,
    told: PgTransactionStatus,
    setting: &mut RawConnection,
    notice_processor: NoticeProcessor,
    set: (),
    fresh: RawConnection,
)
    requires
        call_ensures(RawConnection::observe, (observing, transaction_status), observed),
        call_ensures(RawConnection::transaction_status, (asked,), told),
        call_ensures(RawConnection::set_notice_processor, (setting, notice_processor), set),
        call_ensures(RawConnection::new, (transaction_status,), fresh),
    ensures
        final(observing).transaction_status == transaction_status,
        final(observing).notice_processor == old(observing).notice_processor,
        final(observing).notifications == old(observing).notifications,
        told == asked.transaction_status,
        final(setting).notice_processor == notice_processor,
        final(setting).transaction_status == old(setting).transaction_status,
        final(setting).notifications == old(setting).notifications,
        fresh.transaction_status == transaction_status,
        fresh.notice_processor == NoticeProcessor::Stderr,
        fresh.notifications@.len() == 0,
{
}

/// Notifications are taken as they were received, the oldest one first, and nothing else changes.
pub proof fn law_the_oldest_notification_is_taken(
    receiving: &mut RawConnection,
    received: QueryResult<PgNotification>,
    done: (),
    waiting: &mut RawConnection,
    taken: QueryResult<Option<PgNotification>>,
)
    requires
        call_ensures(RawConnection::receive, (receiving, received), done),
        call_ensures(RawConnection::pq_notifies, (waiting,), taken),
    ensures
        final(receiving).notifications@ == old(receiving).notifications@.push(received),
        final(receiving).transaction_status == old(receiving).transaction_status,
        final(receiving).notice_processor == old(receiving).notice_processor,
        final(waiting).transaction_status == old(waiting).transaction_status,
        final(waiting).notice_processor == old(waiting).notice_processor,
        if old(waiting).notifications@.len() == 0 {
            taken == QueryResult::<Option<PgNotification>>::Ok(None)
                && final(waiting).notifications@.len() == 0
        } else {
            &&& match old(waiting).notifications@[0] {
                Ok(notification) => taken == QueryResult::<Option<PgNotification>>::Ok(
                    Some(notification),
                ),
                Err(error) => taken == QueryResult::<Option<PgNotification>>::Err(error),
            }
            &&& final(waiting).notifications@ == old(waiting).notifications@.skip(1)
        },
{
    if waiting.notifications@.len() > 0 {
        assert(waiting.notifications@.drop_first() =~= waiting.notifications@.skip(1));
    }
}

/// Walking through the notifications yields each of them once, the oldest one first, and none once
/// none waits; collecting them yields all of them at once.
pub proof fn law_notifications_are_walked_through<'a, 'b>(
    walking: &'b mut NotificationsIter<'a>,
    item: Option<QueryResult<PgNotification>>,
    collecting: NotificationsIter<'a>,
    items: Vec<QueryResult<PgNotification>>,
)
    requires
        call_ensures(NotificationsIter::next, (walking,), item),
        call_ensures(NotificationsIter::collect, (collecting,), items),
    ensures
        if old(walking).raw_connection.notifications@.len() == 0 {
            item is None && final(walking).raw_connection.notifications@.len() == 0
        } else {
            &&& item == Some(old(walking).raw_connection.notifications@[0])
            &&& final(walking).raw_connection.notifications@
                == old(walking).raw_connection.notifications@.skip(1)
        },
        items@ == old(collecting.raw_connection).notifications@,
        final(collecting.raw_connection).notifications@.len() == 0,
{
    let waiting = walking.raw_connection.notifications@;
    if waiting.len() > 0 {
        assert(waiting.drop_first() =~= waiting.skip(1));
    }
}

/// The outcome of a query is passed on. The record follows what libpq says, a failure is reported
/// as the end of the query, and a success is if this is the final call for it.
pub proof fn law_an_outcome_is_taken_into_account<T>(
    query_result: QueryResult<T>,
    conn: &mut ConnectionAndTransactionManager,
    source: &str,
    final_call: bool,
    result: QueryResult<T>,
)
    requires
        call_ensures(
            update_transaction_manager_status::<T>,
            (query_result, conn, source, final_call),
            result,
        ),
    ensures
        result == query_result,
        final(conn)@.raw_connection == old(conn)@.raw_connection,
        final(conn)@.status == followed(
            old(conn)@.status,
            old(conn)@.raw_connection.transaction_status,
            query_result is Err,
        ),
        final(conn)@.events == match query_result {
            Err(error) => heard(
                old(conn)@.events,
                EventModel::FinishQuery { query: source@, error: Some(error) },
            ),
            Ok(_) => if final_call {
                heard(old(conn)@.events, EventModel::FinishQuery { query: source@, error: None })
            } else {
                old(conn)@.events
            },
        },
{
}

/// The same holds of what contracts say of it.
pub proof fn law_settling_is_taking_into_account<T>(
    conn: ConnectionModel,
    result: QueryResult<T>,
    source: Seq<char>,
    final_call: bool,
)
    ensures
        ({
            let after = conn.settled(result, source, final_call);
            &&& after.manager.raw_connection == conn.manager.raw_connection
            &&& after.statements == conn.statements
            &&& after.types == conn.types
            &&& after.manager.status == followed(
                conn.manager.status,
                conn.manager.raw_connection.transaction_status,
                result is Err,
            )
            &&& after.manager.events == match result {
                Err(error) => heard(
                    conn.manager.events,
                    EventModel::FinishQuery { query: source, error: Some(error) },
                ),
                Ok(_) => if final_call {
                    heard(
                        conn.manager.events,
                        EventModel::FinishQuery { query: source, error: None },
                    )
                } else {
                    conn.manager.events
                },
            }
        }),
{
}

/// A batch is reported as started, and nothing else happens until the server replies. It is
/// refused just if it holds a NUL character, with the place of the first one among its bytes;
/// otherwise its bytes are to be sent.
pub proof fn law_a_batch_is_started(
    conn: &mut PgConnection,
    query: &str,
    result: QueryResult<BatchExecute>,
)
    requires
        call_ensures(PgConnection::batch_execute, (conn, query), result),
    ensures
        only_events_differ(old(conn)@, final(conn)@),
        final(conn)@.manager.events == heard(
            old(conn)@.manager.events,
            EventModel::StartQuery { query: query@ },
        ),
        match result {
            Ok(batch) => {
                &&& !query@.contains('\0')
                &&& batch.source() == query@
                &&& batch.bytes() == encode_utf8(query@)
            },
            Err(error) => {
                &&& query@.contains('\0')
                &&& error matches Error::InvalidCString(nul)
                &&& nul.data@ == query@
                &&& 0 <= nul.position < encode_utf8(query@).len()
                &&& encode_utf8(query@)[nul.position as int] == 0
                &&& forall|i: int|
                    0 <= i < nul.position ==> #[trigger] encode_utf8(query@)[i] != 0
            },
        },
{
}

/// The bytes that the driver has to send are those of the batch.
pub proof fn law_a_batch_sends_its_bytes(batch: &BatchExecute, c_query: &CString)
    requires
        call_ensures(BatchExecute::c_query, (batch,), c_query),
    ensures
        c_query@ == batch.bytes(),
{
}

/// A batch comes to success, or to the error of the server's reply. The transaction status of the
/// reply is noted, the record follows it, and the end is reported with that error.
pub proof fn law_a_batch_ends_with_the_reply(
    batch: BatchExecute,
    conn: &mut PgConnection,
    reply: ExecReply,
    result: QueryResult<()>,
)
    requires
        call_ensures(BatchExecute::resume, (batch, conn, reply), result),
    ensures
        only_a_query_ended(old(conn)@, final(conn)@),
        final(conn)@.manager.raw_connection.transaction_status == reply.transaction_status,
        final(conn)@.manager.status == followed(
            old(conn)@.manager.status,
            reply.transaction_status,
            reply.result is Err,
        ),
        match reply.result {
            Ok(_) => {
                &&& result == QueryResult::<()>::Ok(())
                &&& final(conn)@.manager.events == heard(
                    old(conn)@.manager.events,
                    EventModel::FinishQuery { query: batch.source(), error: None },
                )
            },
            Err(error) => {
                &&& result == QueryResult::<()>::Err(error)
                &&& final(conn)@.manager.events == heard(
                    old(conn)@.manager.events,
                    EventModel::FinishQuery { query: batch.source(), error: Some(error) },
                )
            },
        },
{
}

/// What a caller does to the record, to the listener, to the cache or to the types of a connection
/// is done to that part alone.
pub proof fn law_parts_of_a_connection_are_changed_alone<'a>(
    first: &'a mut PgConnection,
    state: &'a mut AnsiTransactionManager,
    second: &'a mut PgConnection,
    instrumentation: &'a mut DynInstrumentation,
    third: &'a mut PgConnection,
    listener: DynInstrumentation,
    set: (),
    fourth: &'a mut PgConnection,
    types: &'a mut PgMetadataCache,
)
    requires
        call_ensures(PgConnection::transaction_state, (first,), state),
        call_ensures(PgConnection::instrumentation, (second,), instrumentation),
        call_ensures(PgConnection::set_instrumentation, (third, listener), set),
        call_ensures(PgConnection::get_metadata_cache, (fourth,), types),
    ensures
        old(state).status == old(first)@.manager.status,
        final(first)@.manager.status == final(state).status,
        final(first)@.manager.raw_connection == old(first)@.manager.raw_connection,
        final(first)@.manager.events == old(first)@.manager.events,
        final(first)@.statements == old(first)@.statements,
        final(first)@.types == old(first)@.types,
        old(instrumentation)@ == old(second)@.manager.events,
        final(second)@.manager.events == final(instrumentation)@,
        only_events_differ(old(second)@, final(second)@),
        final(third)@.manager.events == listener@,
        only_events_differ(old(third)@, final(third)@),
        old(types)@ == old(fourth)@.types,
        final(fourth)@.types == final(types)@,
        final(fourth)@.manager == old(fourth)@.manager,
        final(fourth)@.statements == old(fourth)@.statements,
{
}

/// Another cache size drops the statements that are kept, the same one keeps them, and nothing else
/// about the connection changes.
pub proof fn law_another_cache_size_drops_statements(
    conn: &mut PgConnection,
    size: CacheSize,
    done: (),
)
    requires
        call_ensures(PgConnection::set_prepared_statement_cache_size, (conn, size), done),
    ensures
        final(conn)@.manager == old(conn)@.manager,
        final(conn)@.types == old(conn)@.types,
        final(conn)@.statements.size == size,
        old(conn)@.statements.size == size ==> final(conn)@.statements.statements
            == old(conn)@.statements.statements,
        old(conn)@.statements.size != size ==> final(conn)@.statements.statements.len() == 0,
{
}

/// A copy of an error is that error, and information may consist of a message alone.
pub proof fn law_errors_are_copied<T>(
    result: &QueryResult<T>,
    copy: Option<Error>,
    message: String,
    information: DatabaseErrorInformation,
)
    requires
        call_ensures(copy_error::<T>, (result,), copy),
        call_ensures(DatabaseErrorInformation::from_message, (message,), information),
    ensures
        match *result {
            Ok(_) => copy is None,
            Err(error) => copy == Some(error),
        },
        information.message == message,
        information.details is None,
        information.hint is None,
        information.table_name is None,
        information.column_name is None,
        information.constraint_name is None,
        information.statement_position is None,
{
}

/// A query that consists of SQL alone is that SQL, has no binds to show, and its statement is not
/// kept.
pub proof fn law_an_sql_query_is_its_sql(sql: &str, query: Query)
    requires
        call_ensures(Query::sql_query, (sql,), query),
    ensures
        query.debug@ == sql@ + " -- binds: []"@,
        query.rendered matches Ok(rendered) && rendered.sql@ == sql@ && rendered.query_id is None
            && !rendered.is_safe_to_cache_prepared,
{
}

/// An answer is one to a request just if it is of the same kind.
pub proof fn law_answers_are_of_the_kind_of_their_request<'a>(
    request: &Request<'a>,
    answer: &Answer,
    yes: bool,
)
    requires
        call_ensures(Request::is_answered_by, (request, answer), yes),
    ensures
        yes <==> match *answer {
            Answer::Binds(_) => *request is CollectBinds,
            Answer::Prepared(_) => *request is Prepare,
            Answer::Executed(_) => *request is Execute,
            Answer::NextResult(_) => *request is NextResult,
        },
{
}

/// The number that decimal digits stand for.
pub open spec fn number_of(digits: Seq<char>) -> nat
    decreases digits.len(),
{
    if digits.len() == 0 {
        0
    } else {
        10 * number_of(digits.drop_last()) + (digits.last() as nat - '0' as nat) as nat
    }
}

/// Decimal digits stand for their number, and none of them is a zero that could be left out.
pub proof fn law_decimal_digits_stand_for_their_number(n: nat)
    ensures
        number_of(decimal(n)) == n,
        decimal(n).len() > 0,
        n > 0 ==> decimal(n)[0] != '0',
        n == 0 ==> decimal(n) == seq!['0'],
        forall|i: int| 0 <= i < decimal(n).len() ==> '0' <= #[trigger] decimal(n)[i] <= '9',
    decreases n,
{
    if n >= 10 {
        law_decimal_digits_stand_for_their_number(n / 10);
        assert(decimal(n).drop_last() =~= decimal(n / 10));
        assert(decimal(n)[0] == decimal(n / 10)[0]);
        assert forall|i: int| 0 <= i < decimal(n).len() implies '0' <= #[trigger] decimal(n)[i]
            <= '9' by {
            if i < decimal(n / 10).len() {
                assert(decimal(n)[i] == decimal(n / 10)[i]);
            }
        }
    } else {
        assert(decimal(n).drop_last() =~= Seq::<char>::empty());
        assert(number_of(Seq::<char>::empty()) == 0);
    }
}

/// A text for libpq holds the bytes of its source, and is refused just if that holds a NUL
/// character.
pub proof fn law_texts_for_libpq(
    text: &str,
    result: Result<CString, NulError>,
    string: &CString,
    bytes: &[u8],
)
    requires
        call_ensures(CString::new, (text,), result),
        call_ensures(CString::as_bytes, (string,), bytes),
    ensures
        result is Err <==> exists|i: int| 0 <= i < text@.len() && text@[i] == '\0',
        result matches Ok(string) ==> string@ == encode_utf8(text@),
        result matches Err(nul) ==> nul.data@ == text@ && nul.position < encode_utf8(text@).len()
            && encode_utf8(text@)[nul.position as int] == 0,
        bytes@ == string@,
{
}

/// What a caller does to the record through the manager is done to the record alone; and walking
/// through the notifications changes nothing but what libpq has brought.
pub proof fn law_parts_are_borrowed_alone<'a>(
    first: &'a mut PgConnection,
    record: &'a mut TransactionManagerStatus,
    second: &'a mut PgConnection,
    iter: NotificationsIter<'a>,
)
    requires
        call_ensures(AnsiTransactionManager::transaction_manager_status_mut, (first,), record),
        call_ensures(PgConnection::notifications_iter, (second,), iter),
    ensures
        *old(record) == old(first)@.manager.status,
        final(first)@.manager.status == *final(record),
        final(first)@.manager.raw_connection == old(first)@.manager.raw_connection,
        final(first)@.manager.events == old(first)@.manager.events,
        final(first)@.statements == old(first)@.statements,
        final(first)@.types == old(first)@.types,
        *old(iter.raw_connection) == old(second)@.manager.raw_connection,
        final(second)@.manager.raw_connection == *final(iter.raw_connection),
        final(second)@.manager.status == old(second)@.manager.status,
        final(second)@.manager.events == old(second)@.manager.events,
        final(second)@.statements == old(second)@.statements,
        final(second)@.types == old(second)@.types,
{
}

} // verus!
