//! Establishing a connection.
use crate::connection::{
    AnsiTransactionManager, ConnectionAndTransactionManager, ConnectionModel, ManagerModel,
    PgConnection,
};
use crate::error::{ConnectionError, ConnectionResult, QueryResult};
use crate::execute::{execution_of, ExecuteReturningCount};
use crate::instrumentation::{
    reported, DynInstrumentation, EventModel, InstrumentationEvent,
};
use crate::prepared_query::PrepareQuery;
use crate::query::{Query, Reply, Request, Step};
use crate::raw::{NoticeProcessor, PgTransactionStatus, RawConnection};
use crate::statement_cache::{CacheSize, PgMetadataCache, StatementCache};
use crate::transaction_status::TransactionManagerStatus;
use vstd::prelude::*;

verus! {

/// The session options that are being set, for [`PgConnection::set_config_options`].
#[derive(Debug, PartialEq, Eq)]
pub enum SetConfigOptions {
    /// Times are exchanged in UTC.
    SettingTimeZone { execution: ExecuteReturningCount },
    /// Texts are exchanged in UTF-8.
    SettingClientEncoding { execution: ExecuteReturningCount },
}

/// The command that sets the time zone of a session.
pub open spec fn time_zone_sql() -> Seq<char> {
    "SET TIME ZONE 'UTC'"@
}

/// The command that sets the encoding of a session.
pub open spec fn client_encoding_sql() -> Seq<char> {
    "SET CLIENT_ENCODING TO 'UTF8'"@
}

/// The start of a query that consists of `sql` alone was reported, and its execution waits for
/// the first reply.
pub open spec fn sql_started(
    before: ConnectionModel,
    sql: Seq<char>,
    execution: ExecuteReturningCount,
    after: ConnectionModel,
) -> bool {
    &&& execution matches ExecuteReturningCount::Preparing {
        prepare: PrepareQuery::CollectingBinds { source, .. },
        ..
    }
    &&& source.is_sql_query(sql)
    &&& execution == execution_of(source)
    &&& after == before.reporting(EventModel::StartQuery { query: source.debug@ })
}

/// The connection once its notices are dropped.
pub open spec fn without_notices(conn: ConnectionModel) -> ConnectionModel {
    conn.with_manager(
        ManagerModel {
            raw_connection: RawConnection {
                notice_processor: NoticeProcessor::Noop,
                ..conn.manager.raw_connection
            },
            ..conn.manager
        },
    )
}

impl SetConfigOptions {
    /// The command that is being executed.
    pub open spec fn execution(self) -> ExecuteReturningCount {
        match self {
            SetConfigOptions::SettingTimeZone { execution } => execution,
            SetConfigOptions::SettingClientEncoding { execution } => execution,
        }
    }

    /// What the driver has to do.
    pub fn request(&self) -> (request: Request<'_>)
        ensures
            request == self.execution().awaited(),
    {
        match self {
            SetConfigOptions::SettingTimeZone { execution } => execution.request(),
            SetConfigOptions::SettingClientEncoding { execution } => execution.request(),
        }
    }

    /// How things may stand after the reply.
    ///
    /// The time zone comes first, the encoding second. A command that fails ends it all. Once
    /// both have succeeded, notices are dropped.
    pub open spec fn advances(
        self,
        conn: ConnectionModel,
        reply: Reply,
        step: Step<SetConfigOptions, QueryResult<()>>,
        after: ConnectionModel,
    ) -> bool {
        let (executed, stepped) = self.execution().step(conn, reply);
        match executed {
            Step::Pending(execution) => {
                &&& step == Step::<SetConfigOptions, QueryResult<()>>::Pending(
                    match self {
                        SetConfigOptions::SettingTimeZone { .. } => {
                            SetConfigOptions::SettingTimeZone { execution }
                        },
                        SetConfigOptions::SettingClientEncoding { .. } => {
                            SetConfigOptions::SettingClientEncoding { execution }
                        },
                    },
                )
                &&& after == stepped
            },
            Step::Done(Err(error)) => {
                &&& step == Step::<SetConfigOptions, QueryResult<()>>::Done(Err(error))
                &&& after == stepped
            },
            Step::Done(Ok(_)) => match self {
                SetConfigOptions::SettingTimeZone { .. } => {
                    &&& step matches Step::Pending(
                        SetConfigOptions::SettingClientEncoding { execution },
                    )
                    &&& sql_started(stepped, client_encoding_sql(), execution, after)
                },
                SetConfigOptions::SettingClientEncoding { .. } => {
                    &&& step == Step::<SetConfigOptions, QueryResult<()>>::Done(Ok(()))
                    &&& after == without_notices(stepped)
                },
            },
        }
    }

    /// Takes the reply to the request. One that answers something else changes nothing but the
    /// known transaction status.
    pub fn resume(self, conn: &mut PgConnection, reply: Reply) -> (step: Step<
        SetConfigOptions,
        QueryResult<()>,
    >)
        ensures
            self.advances(old(conn)@, reply, step, final(conn)@),
            old(conn)@.wf() ==> final(conn)@.wf(),
    {
        match self {
            SetConfigOptions::SettingTimeZone { execution } => {
                match execution.resume(conn, reply) {
                    Step::Pending(execution) => Step::Pending(
                        SetConfigOptions::SettingTimeZone { execution },
                    ),
                    Step::Done(Err(error)) => Step::Done(Err(error)),
                    Step::Done(Ok(_)) => {
                        let execution = conn.execute_returning_count(
                            Query::sql_query("SET CLIENT_ENCODING TO 'UTF8'"),
                        );
                        Step::Pending(SetConfigOptions::SettingClientEncoding { execution })
                    },
                }
            },
            SetConfigOptions::SettingClientEncoding { execution } => {
                match execution.resume(conn, reply) {
                    Step::Pending(execution) => Step::Pending(
                        SetConfigOptions::SettingClientEncoding { execution },
                    ),
                    Step::Done(Err(error)) => Step::Done(Err(error)),
                    Step::Done(Ok(_)) => {
                        conn.connection_and_transaction_manager.raw_connection.set_notice_processor(
                            NoticeProcessor::Noop,
                        );
                        Step::Done(Ok(()))
                    },
                }
            },
        }
    }
}

/// A connection that is being established, for [`PgConnection::establish`].
#[derive(Debug)]
pub struct Establish {
    pub url: String,
    /// Where the attempt is reported to, and later on the connection.
    pub instrumentation: DynInstrumentation,
    pub phase: EstablishPhase,
}

/// How far the attempt has come.
#[derive(Debug)]
pub enum EstablishPhase {
    /// The server is asked for a connection.
    Connecting,
    /// The options of the session are being set. Nobody is told of that.
    Configuring { conn: PgConnection, options: SetConfigOptions },
}

/// What the attempt asks of the driver.
#[derive(Debug, PartialEq, Eq)]
pub enum EstablishRequest<'a> {
    /// Connect to the server.
    Connect { database_url: &'a String },
    /// Do what a query takes.
    Query(Request<'a>),
}

/// What a request of the attempt came to.
#[derive(Debug, PartialEq, Eq)]
pub enum EstablishReply {
    /// To [`EstablishRequest::Connect`].
    Connected { result: ConnectionResult<()>, transaction_status: PgTransactionStatus },
    /// To [`EstablishRequest::Query`].
    Query(Reply),
}

/// Why there is no connection, and who was told of that.
#[derive(Debug)]
pub struct EstablishFailure {
    pub error: ConnectionError,
    pub instrumentation: DynInstrumentation,
}

/// A connection that nothing has happened on, and that nobody listens to.
pub open spec fn is_fresh(conn: ConnectionModel, transaction_status: PgTransactionStatus) -> bool {
    &&& conn.manager.raw_connection.transaction_status == transaction_status
    &&& conn.manager.raw_connection.notice_processor == NoticeProcessor::Stderr
    &&& conn.manager.raw_connection.notifications@.len() == 0
    &&& conn.manager.status == TransactionManagerStatus::idle()
    &&& conn.manager.events is None
    &&& conn.statements.size == CacheSize::Unbounded
    &&& conn.statements.statements.len() == 0
    &&& conn.types.len() == 0
}

impl Establish {
    /// The record of a connection that is there already is well formed.
    pub open spec fn wf(self) -> bool {
        self.phase matches EstablishPhase::Configuring { conn, .. } ==> conn@.wf()
    }

    /// What the driver has to do.
    pub fn request(&self) -> (request: EstablishRequest<'_>)
        ensures
            match self.phase {
                EstablishPhase::Connecting => request == (EstablishRequest::Connect {
                    database_url: &self.url,
                }),
                EstablishPhase::Configuring { options, .. } => request == EstablishRequest::Query(
                    options.execution().awaited(),
                ),
            },
    {
        match &self.phase {
            EstablishPhase::Connecting => EstablishRequest::Connect { database_url: &self.url },
            EstablishPhase::Configuring { options, .. } => EstablishRequest::Query(
                options.request(),
            ),
        }
    }

    /// The attempt has failed with `error`, and that was reported.
    pub open spec fn fails_with(
        self,
        error: ConnectionError,
        step: Step<Establish, Result<PgConnection, EstablishFailure>>,
    ) -> bool {
        &&& step matches Step::Done(Err(failure))
        &&& failure.error == error
        &&& failure.instrumentation@ == reported(
            self.instrumentation@,
            EventModel::FinishEstablishConnection { url: self.url@, error: Some(error) },
        )
    }

    /// The attempt has led to a connection like `configured`. Its success was reported to whom
    /// the connection will report from now on.
    pub open spec fn succeeds_with(
        self,
        configured: ConnectionModel,
        step: Step<Establish, Result<PgConnection, EstablishFailure>>,
    ) -> bool {
        &&& step matches Step::Done(Ok(conn))
        &&& conn@ == configured.with_manager(
            ManagerModel {
                events: reported(
                    self.instrumentation@,
                    EventModel::FinishEstablishConnection { url: self.url@, error: None },
                ),
                ..configured.manager
            },
        )
    }

    /// The attempt goes on with another connection and other options to be set.
    pub open spec fn goes_on_with(
        self,
        after: ConnectionModel,
        options: SetConfigOptions,
        step: Step<Establish, Result<PgConnection, EstablishFailure>>,
    ) -> bool {
        &&& step matches Step::Pending(next)
        &&& next.url == self.url
        &&& next.instrumentation == self.instrumentation
        &&& next.phase matches EstablishPhase::Configuring { conn, options: next_options }
        &&& conn@ == after
        &&& next_options == options
    }

    /// How things may stand after the reply.
    pub open spec fn advances(
        self,
        reply: EstablishReply,
        step: Step<Establish, Result<PgConnection, EstablishFailure>>,
    ) -> bool {
        match (self.phase, reply) {
            (
                EstablishPhase::Connecting,
                EstablishReply::Connected { result, transaction_status },
            ) => match result {
                Err(error) => self.fails_with(error, step),
                Ok(_) => exists|after: ConnectionModel, options: SetConfigOptions|
                    {
                        &&& #[trigger] self.goes_on_with(after, options, step)
                        &&& is_fresh(after, transaction_status)
                        &&& options matches SetConfigOptions::SettingTimeZone { execution }
                        &&& sql_started(after, time_zone_sql(), execution, after)
                    },
            },
            (EstablishPhase::Configuring { conn, options }, EstablishReply::Query(reply)) => {
                exists|
                    option_step: Step<SetConfigOptions, QueryResult<()>>,
                    after: ConnectionModel,
                |
                    {
                        &&& #[trigger] options.advances(conn@, reply, option_step, after)
                        &&& match option_step {
                            Step::Pending(options) => self.goes_on_with(after, options, step),
                            Step::Done(Ok(_)) => self.succeeds_with(after, step),
                            Step::Done(Err(error)) => self.fails_with(
                                ConnectionError::CouldntSetupConfiguration(error),
                                step,
                            ),
                        }
                    }
            },
            _ => step == Step::<Establish, Result<PgConnection, EstablishFailure>>::Pending(self),
        }
    }

    /// Takes the reply to the request. One to another kind of request changes nothing.
    pub fn resume(self, reply: EstablishReply) -> (step: Step<
        Establish,
        Result<PgConnection, EstablishFailure>,
    >)
        ensures
            self.advances(reply, step),
            self.wf() ==> match step {
                Step::Pending(next) => next.wf(),
                Step::Done(Ok(conn)) => conn@.wf(),
                Step::Done(Err(_)) => true,
            },
    {
        match (self.phase, reply) {
            (
                EstablishPhase::Connecting,
                EstablishReply::Connected { result, transaction_status },
            ) => match result {
                Err(error) => Step::Done(
                    Err(fail_to_establish(self.url, self.instrumentation, error)),
                ),
                Ok(()) => {
                    let mut conn = PgConnection {
                        statement_cache: StatementCache::new(),
                        metadata_cache: PgMetadataCache::new(),
                        connection_and_transaction_manager: ConnectionAndTransactionManager {
                            raw_connection: RawConnection::new(transaction_status),
                            transaction_state: AnsiTransactionManager::default(),
                            instrumentation: DynInstrumentation::none(),
                        },
                    };
                    let options = conn.set_config_options();
                    let step = Step::Pending(
                        Establish {
                            url: self.url,
                            instrumentation: self.instrumentation,
                            phase: EstablishPhase::Configuring { conn, options },
                        },
                    );
                    proof {
                        assert(self.goes_on_with(conn@, options, step));
                    }
                    step
                },
            },
            (EstablishPhase::Configuring { conn, options }, EstablishReply::Query(reply)) => {
                let mut conn = conn;
                let option_step = options.resume(&mut conn, reply);
                let ghost after = conn@;
                proof {
                    assert(options.advances(self.phase->conn@, reply, option_step, after));
                }
                match option_step {
                    Step::Pending(options) => Step::Pending(
                        Establish {
                            url: self.url,
                            instrumentation: self.instrumentation,
                            phase: EstablishPhase::Configuring { conn, options },
                        },
                    ),
                    Step::Done(Ok(())) => {
                        let mut instrumentation = self.instrumentation;
                        instrumentation.on_connection_event(
                            InstrumentationEvent::FinishEstablishConnection {
                                url: self.url,
                                error: None,
                            },
                        );
                        conn.connection_and_transaction_manager.instrumentation = instrumentation;
                        Step::Done(Ok(conn))
                    },
                    Step::Done(Err(error)) => Step::Done(
                        Err(
                            fail_to_establish(
                                self.url,
                                self.instrumentation,
                                ConnectionError::CouldntSetupConfiguration(error),
                            ),
                        ),
                    ),
                }
            },
            (phase, _) => Step::Pending(
                Establish { url: self.url, instrumentation: self.instrumentation, phase },
            ),
        }
    }
}

fn fail_to_establish(
    url: String,
    instrumentation: DynInstrumentation,
    error: ConnectionError,
) -> (failure: EstablishFailure)
    ensures
        failure.error == error,
        failure.instrumentation@ == reported(
            instrumentation@,
            EventModel::FinishEstablishConnection { url: url@, error: Some(error) },
        ),
{
    let mut instrumentation = instrumentation;
    instrumentation.on_connection_event(
        InstrumentationEvent::FinishEstablishConnection { url, error: Some(error.clone()) },
    );
    EstablishFailure { error, instrumentation }
}

impl PgConnection {
    /// Starts to establish a connection.
    ///
    /// The connection string is one as the PostgreSQL documentation describes it for libpq. The
    /// start of the attempt is reported to `instrumentation`, which will be told of its end too,
    /// and of what happens on the connection from then on.
    pub fn establish(database_url: &str, instrumentation: DynInstrumentation) -> (pending:
        Establish)
        ensures
            pending.url@ == database_url@,
            pending.instrumentation@ == reported(
                instrumentation@,
                EventModel::StartEstablishConnection { url: database_url@ },
            ),
            pending.phase is Connecting,
            pending.wf(),
    {
        let mut instrumentation = instrumentation;
        instrumentation.on_connection_event(
            InstrumentationEvent::StartEstablishConnection { url: database_url.to_owned() },
        );
        Establish {
            url: database_url.to_owned(),
            instrumentation,
            phase: EstablishPhase::Connecting,
        }
    }

    /// Starts to set the options of the session that the rest of the library relies on.
    pub fn set_config_options(&mut self) -> (pending: SetConfigOptions)
        ensures
            pending matches SetConfigOptions::SettingTimeZone { execution } && sql_started(
                old(self)@,
                time_zone_sql(),
                execution,
                final(self)@,
            ),
    {
        let execution = self.execute_returning_count(Query::sql_query("SET TIME ZONE 'UTC'"));
        SetConfigOptions::SettingTimeZone { execution }
    }
}

} // verus!
