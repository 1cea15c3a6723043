//! A connection to a PostgreSQL server.
use crate::error::{copy_error, error_of, Error, QueryResult};
use crate::instrumentation::{
    reported, DynInstrumentation, EventLog, EventModel, InstrumentationEvent,
};
use crate::raw::{ExecReply, PgTransactionStatus, RawConnection};
use crate::statement_cache::{
    CacheSize, CachedType, PgMetadataCache, StatementCache, StatementCacheModel,
};
use crate::text::{has_nul, CString};
use crate::transaction_status::TransactionManagerStatus;
use vstd::prelude::*;
use vstd::utf8::encode_utf8;

verus! {

/// Keeps the record of the open transaction.
#[derive(Debug, Clone, Copy, PartialEq, Eq, Structural)]
pub struct AnsiTransactionManager {
    pub status: TransactionManagerStatus,
}

impl Default for AnsiTransactionManager {
    /// No transaction is open.
    fn default() -> (manager: AnsiTransactionManager)
        ensures
            manager.status == TransactionManagerStatus::idle(),
    {
        AnsiTransactionManager { status: TransactionManagerStatus::default() }
    }
}

/// The part of a connection that running a prepared query works on.
#[derive(Debug)]
pub struct ConnectionAndTransactionManager {
    pub raw_connection: RawConnection,
    pub transaction_state: AnsiTransactionManager,
    pub instrumentation: DynInstrumentation,
}

/// A connection to a PostgreSQL server.
///
/// The connection decides what is sent to the server and what its replies mean. It does not talk
/// to the server itself: each operation hands its requests to the driver of the connection, and
/// takes the replies back.
#[derive(Debug)]
pub struct PgConnection {
    pub statement_cache: StatementCache,
    pub metadata_cache: PgMetadataCache,
    pub connection_and_transaction_manager: ConnectionAndTransactionManager,
}

/// What a [`ConnectionAndTransactionManager`] holds.
#[verifier::ext_equal]
pub struct ManagerModel {
    pub raw_connection: RawConnection,
    pub status: TransactionManagerStatus,
    pub events: EventLog,
}

/// What a [`PgConnection`] holds.
#[verifier::ext_equal]
pub struct ConnectionModel {
    pub manager: ManagerModel,
    pub statements: StatementCacheModel,
    pub types: Seq<CachedType>,
}

impl View for ConnectionAndTransactionManager {
    type V = ManagerModel;

    open spec fn view(&self) -> ManagerModel {
        ManagerModel {
            raw_connection: self.raw_connection,
            status: self.transaction_state.status,
            events: self.instrumentation@,
        }
    }
}

impl View for PgConnection {
    type V = ConnectionModel;

    open spec fn view(&self) -> ConnectionModel {
        ConnectionModel {
            manager: self.connection_and_transaction_manager@,
            statements: self.statement_cache@,
            types: self.metadata_cache@,
        }
    }
}

impl ManagerModel {
    /// After libpq has reported `transaction_status`.
    pub open spec fn observed(self, transaction_status: PgTransactionStatus) -> ManagerModel {
        ManagerModel { raw_connection: self.raw_connection.observed(transaction_status), ..self }
    }

    /// After an event was reported.
    pub open spec fn reporting(self, event: EventModel) -> ManagerModel {
        ManagerModel { events: reported(self.events, event), ..self }
    }

    /// With another record of the open transaction.
    pub open spec fn with_status(self, status: TransactionManagerStatus) -> ManagerModel {
        ManagerModel { status, ..self }
    }

    /// After a query, or a part of one, has come to `result`: the record of the open transaction
    /// follows what libpq says, and the end of the query is reported. A failure ends the query; a
    /// success ends it if this is the `final_call` for it.
    pub open spec fn settled<T>(
        self,
        result: QueryResult<T>,
        source: Seq<char>,
        final_call: bool,
    ) -> ManagerModel {
        let followed = self.with_status(
            self.status.after_query(self.raw_connection.transaction_status, result is Err),
        );
        if result is Err || final_call {
            followed.reporting(
                EventModel::FinishQuery { query: source, error: error_of(result) },
            )
        } else {
            followed
        }
    }
}

impl ConnectionModel {
    /// An open transaction has a depth of at least one.
    pub open spec fn wf(self) -> bool {
        self.manager.status.wf()
    }

    /// With another state of the part that running a prepared query works on.
    pub open spec fn with_manager(self, manager: ManagerModel) -> ConnectionModel {
        ConnectionModel { manager, ..self }
    }

    /// After libpq has reported `transaction_status`.
    pub open spec fn observed(self, transaction_status: PgTransactionStatus) -> ConnectionModel {
        self.with_manager(self.manager.observed(transaction_status))
    }

    /// After an event was reported.
    pub open spec fn reporting(self, event: EventModel) -> ConnectionModel {
        self.with_manager(self.manager.reporting(event))
    }

    /// With another record of the open transaction.
    pub open spec fn with_status(self, status: TransactionManagerStatus) -> ConnectionModel {
        self.with_manager(self.manager.with_status(status))
    }

    /// After a query, or a part of one, has come to `result`.
    pub open spec fn settled<T>(
        self,
        result: QueryResult<T>,
        source: Seq<char>,
        final_call: bool,
    ) -> ConnectionModel {
        self.with_manager(self.manager.settled(result, source, final_call))
    }
}

impl ConnectionAndTransactionManager {
    /// Notes the transaction status that libpq reports after a call.
    pub fn observe(&mut self, transaction_status: PgTransactionStatus)
        ensures
            final(self)@ == old(self)@.observed(transaction_status),
    {
        self.raw_connection.observe(transaction_status);
    }

    /// Reports one event.
    pub fn report(&mut self, event: InstrumentationEvent)
        ensures
            final(self)@ == old(self)@.reporting(event@),
    {
        self.instrumentation.on_connection_event(event);
    }
}

/// Takes the outcome of a query, or of a part of one, into account, and passes it on.
///
/// The record of the open transaction is brought in line with what libpq says of the session. A
/// failure is reported as the end of the query `source`; so is a success, if this is the
/// `final_call` for the query.
pub fn update_transaction_manager_status<T>(
    query_result: QueryResult<T>,
    conn: &mut ConnectionAndTransactionManager,
    source: &str,
    final_call: bool,
) -> (result: QueryResult<T>)
    ensures
        result == query_result,
        final(conn)@ == old(conn)@.settled(query_result, source@, final_call),
        old(conn)@.status.wf() ==> final(conn)@.status.wf(),
{
    let server: PgTransactionStatus = conn.raw_connection.transaction_status();
    conn.transaction_state.status.update(server, query_result.is_err());
    if query_result.is_err() || final_call {
        let error: Option<Error> = copy_error(&query_result);
        conn.report(InstrumentationEvent::FinishQuery { query: source.to_owned(), error });
    }
    query_result
}

/// A query text that is to be sent to the server, for [`PgConnection::batch_execute`].
#[derive(Debug, PartialEq, Eq)]
pub struct BatchExecute {
    query: String,
    c_query: CString,
}

impl BatchExecute {
    /// The query as events show it.
    pub closed spec fn source(self) -> Seq<char> {
        self.query@
    }

    /// The bytes that are to be sent.
    pub closed spec fn bytes(self) -> Seq<u8> {
        self.c_query@
    }

    /// The text that the driver has to send.
    pub fn c_query(&self) -> (c_query: &CString)
        ensures
            c_query@ == self.bytes(),
    {
        &self.c_query
    }

    /// What the reply comes to for the caller of [`PgConnection::batch_execute`].
    pub open spec fn outcome(reply: ExecReply) -> QueryResult<()> {
        match reply.result {
            Ok(_) => Ok(()),
            Err(error) => Err(error),
        }
    }

    /// The connection after the reply.
    pub open spec fn after(self, conn: ConnectionModel, reply: ExecReply) -> ConnectionModel {
        conn.observed(reply.transaction_status).settled(reply.result, self.source(), true)
    }

    /// Takes the server's reply.
    pub fn resume(self, conn: &mut PgConnection, reply: ExecReply) -> (result: QueryResult<()>)
        ensures
            result == BatchExecute::outcome(reply),
            final(conn)@ == self.after(old(conn)@, reply),
            old(conn)@.wf() ==> final(conn)@.wf(),
    {
        let manager = &mut conn.connection_and_transaction_manager;
        manager.observe(reply.transaction_status);
        match update_transaction_manager_status(reply.result, manager, self.query.as_str(), true) {
            Ok(_) => Ok(()),
            Err(error) => Err(error),
        }
    }
}

impl PgConnection {
    /// Runs a text of one or more SQL commands.
    ///
    /// The start of the query is reported. A text with a NUL character in it is refused, and
    /// nothing is sent: neither is the end of the query reported, nor is the record of the open
    /// transaction touched.
    pub fn batch_execute(&mut self, query: &str) -> (result: QueryResult<BatchExecute>)
        ensures
            final(self)@ == old(self)@.reporting(EventModel::StartQuery { query: query@ }),
            result is Err <==> has_nul(query@),
            result matches Ok(pending) ==> {
                &&& pending.source() == query@
                &&& pending.bytes() == encode_utf8(query@)
            },
            result matches Err(error) ==> {
                &&& error matches Error::InvalidCString(nul)
                &&& crate::text::first_nul(encode_utf8(query@), nul.position as int)
                &&& nul.data@ == query@
            },
    {
        self.connection_and_transaction_manager.report(
            InstrumentationEvent::StartQuery { query: query.to_owned() },
        );
        match CString::new(query) {
            Ok(c_query) => Ok(BatchExecute { query: query.to_owned(), c_query }),
            Err(nul) => Err(Error::InvalidCString(nul)),
        }
    }

    /// The record of the open transaction.
    pub fn transaction_state(&mut self) -> (state: &mut AnsiTransactionManager)
        ensures
            state.status == old(self)@.manager.status,
            final(self)@ == old(self)@.with_status(final(state).status),
    {
        &mut self.connection_and_transaction_manager.transaction_state
    }

    /// Where the connection reports its events to.
    pub fn instrumentation(&mut self) -> (instrumentation: &mut DynInstrumentation)
        ensures
            instrumentation@ == old(self)@.manager.events,
            final(self)@ == old(self)@.with_manager(
                ManagerModel { events: final(instrumentation)@, ..old(self)@.manager },
            ),
    {
        &mut self.connection_and_transaction_manager.instrumentation
    }

    /// Has the connection report its events elsewhere.
    pub fn set_instrumentation(&mut self, instrumentation: DynInstrumentation)
        ensures
            final(self)@ == old(self)@.with_manager(
                ManagerModel { events: instrumentation@, ..old(self)@.manager },
            ),
    {
        self.connection_and_transaction_manager.instrumentation = instrumentation;
    }

    /// Changes how many prepared statements are kept. A change drops those that are kept.
    pub fn set_prepared_statement_cache_size(&mut self, size: CacheSize)
        ensures
            final(self)@.manager == old(self)@.manager,
            final(self)@.types == old(self)@.types,
            final(self)@.statements.size == size,
            final(self)@.statements.statements == if size == old(self)@.statements.size {
                old(self)@.statements.statements
            } else {
                Seq::empty()
            },
    {
        self.statement_cache.set_cache_size(size);
    }

    /// The types that were looked up on the server.
    pub fn get_metadata_cache(&mut self) -> (cache: &mut PgMetadataCache)
        ensures
            cache@ == old(self)@.types,
            final(self)@ == (ConnectionModel { types: final(cache)@, ..old(self)@ }),
    {
        &mut self.metadata_cache
    }
}

} // verus!
