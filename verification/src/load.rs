//! Executing a query for the rows that it returns.
use crate::connection::{
    update_transaction_manager_status, ConnectionAndTransactionManager, ConnectionModel,
    PgConnection,
};
use crate::error::QueryResult;
use crate::instrumentation::EventModel;
use crate::prepared_query::PrepareQuery;
use crate::query::{Answer, PreparedQuery, Query, Reply, Request, Step};
use crate::raw::PgResult;
use vstd::prelude::*;

verus! {

/// All rows are received before the first one is looked at.
///
/// This is faster as a rule, and leaves the connection free: more than one result can be walked
/// through at once.
#[derive(Debug, Clone, Copy, PartialEq, Eq, Structural)]
pub struct DefaultLoadingMode;

/// Rows are received one by one, which suits huge results.
///
/// The connection stays busy until the last row is received. Whoever receives the rows keeps the
/// connection borrowed until then, so that no second result can be walked through at the same
/// time.
#[derive(Debug, Clone, Copy, PartialEq, Eq, Structural)]
pub struct PgRowByRowLoadingMode;

/// The rows of a result that was received as a whole.
#[derive(Debug, PartialEq, Eq)]
pub struct Cursor {
    /// The row that comes next.
    pub current_row: usize,
    pub db_result: PgResult,
}

/// The rows of a result that is received row by row.
#[derive(Debug, PartialEq, Eq)]
pub struct RowByRowCursor {
    /// The result that holds the first row.
    pub first_row: PgResult,
    /// The query as events show it: its end is reported with the last row.
    pub source: String,
}

/// A cursor that has to wait until libpq was asked for the next result, which there should not be.
#[derive(Debug, PartialEq, Eq)]
pub struct GetCursor {
    pub result: PgResult,
    pub source: String,
}

/// How a connection loads rows in the mode `B`.
pub trait PgLoadingMode<B> {
    /// Whether libpq is asked for one row at a time.
    const USE_ROW_BY_ROW_MODE: bool;

    /// What the rows are walked through with.
    type Cursor;

    /// The cursor over the rows of `result`.
    spec fn spec_cursor(result: PgResult, source: String) -> Self::Cursor;

    /// The cursor over the rows of `result`.
    fn new_cursor(result: PgResult, source: String) -> (cursor: Self::Cursor)
        ensures
            cursor == Self::spec_cursor(result, source),
    ;

    /// A row by row cursor is there at once. For any other libpq has to be asked for the next
    /// result first, which there should not be.
    fn get_cursor(
        conn: &mut ConnectionAndTransactionManager,
        result: PgResult,
        source: String,
    ) -> (step: Step<GetCursor, QueryResult<Self::Cursor>>)
        ensures
            final(conn)@ == old(conn)@,
            step == if Self::USE_ROW_BY_ROW_MODE {
                Step::<GetCursor, QueryResult<Self::Cursor>>::Done(
                    Ok(Self::spec_cursor(result, source)),
                )
            } else {
                Step::<GetCursor, QueryResult<Self::Cursor>>::Pending(GetCursor { result, source })
            },
    ;
}

impl PgLoadingMode<DefaultLoadingMode> for PgConnection {
    const USE_ROW_BY_ROW_MODE: bool = false;

    type Cursor = Cursor;

    open spec fn spec_cursor(result: PgResult, source: String) -> Cursor {
        Cursor { current_row: 0, db_result: result }
    }

    fn new_cursor(result: PgResult, source: String) -> (cursor: Cursor) {
        Cursor { current_row: 0, db_result: result }
    }

    fn get_cursor(
        conn: &mut ConnectionAndTransactionManager,
        result: PgResult,
        source: String,
    ) -> (step: Step<GetCursor, QueryResult<Cursor>>) {
        Step::Pending(GetCursor { result, source })
    }
}

impl PgLoadingMode<PgRowByRowLoadingMode> for PgConnection {
    const USE_ROW_BY_ROW_MODE: bool = true;

    type Cursor = RowByRowCursor;

    open spec fn spec_cursor(result: PgResult, source: String) -> RowByRowCursor {
        RowByRowCursor { first_row: result, source }
    }

    fn new_cursor(result: PgResult, source: String) -> (cursor: RowByRowCursor) {
        RowByRowCursor { first_row: result, source }
    }

    fn get_cursor(
        conn: &mut ConnectionAndTransactionManager,
        result: PgResult,
        source: String,
    ) -> (step: Step<GetCursor, QueryResult<RowByRowCursor>>) {
        Step::Done(Ok(RowByRowCursor { first_row: result, source }))
    }
}

/// Only the row by row mode has libpq asked for one row at a time.
pub proof fn law_loading_modes()
    ensures
        !<PgConnection as PgLoadingMode<DefaultLoadingMode>>::USE_ROW_BY_ROW_MODE,
        <PgConnection as PgLoadingMode<PgRowByRowLoadingMode>>::USE_ROW_BY_ROW_MODE,
{
}

impl Cursor {
    /// The row that comes next in a result of `num_rows` rows.
    pub open spec fn row(self, num_rows: usize) -> Option<usize> {
        if self.current_row < num_rows {
            Some(self.current_row)
        } else {
            None
        }
    }

    /// The cursor once that row is taken.
    pub open spec fn walked(self, num_rows: usize) -> Cursor {
        if self.current_row < num_rows {
            Cursor { current_row: (self.current_row + 1) as usize, ..self }
        } else {
            self
        }
    }

    /// Takes the next row of the result, which has `num_rows` rows.
    pub fn next_row(&mut self, num_rows: usize) -> (row: Option<usize>)
        ensures
            row == old(self).row(num_rows),
            *final(self) == old(self).walked(num_rows),
    {
        if self.current_row < num_rows {
            let row: usize = self.current_row;
            self.current_row = row + 1;
            Some(row)
        } else {
            None
        }
    }
}

/// A query that is executed for its rows, for [`PgConnection::load`].
#[derive(Debug, PartialEq, Eq)]
pub struct Load<B> {
    pub state: LoadState,
    /// How the rows are loaded.
    pub mode: B,
}

/// How far the query has come.
#[derive(Debug, PartialEq, Eq)]
pub enum LoadState {
    /// The query is on its way to a prepared statement.
    Preparing { prepare: PrepareQuery },
    /// The statement was sent.
    Executing { prepared: PreparedQuery },
    /// The result is there, the cursor over it is not.
    GettingCursor { cursor: GetCursor },
}

impl<B> Load<B> where PgConnection: PgLoadingMode<B> {
    /// What the driver is asked for.
    pub open spec fn awaited(self) -> Request<'static> {
        match self.state {
            LoadState::Preparing { prepare } => prepare.awaited(),
            LoadState::Executing { prepared } => Request::Execute {
                statement: prepared.statement,
                binds: &prepared.binds,
                row_by_row: <PgConnection as PgLoadingMode<B>>::USE_ROW_BY_ROW_MODE,
            },
            LoadState::GettingCursor { .. } => Request::NextResult,
        }
    }

    /// What the driver has to do.
    pub fn request(&self) -> (request: Request<'_>)
        ensures
            request == self.awaited(),
    {
        match &self.state {
            LoadState::Preparing { prepare } => prepare.request(),
            LoadState::Executing { prepared } => Request::Execute {
                statement: prepared.statement,
                binds: &prepared.binds,
                row_by_row: <PgConnection as PgLoadingMode<B>>::USE_ROW_BY_ROW_MODE,
            },
            LoadState::GettingCursor { .. } => Request::NextResult,
        }
    }

    /// How things stand after the reply.
    ///
    /// With the result of the execution the record of the open transaction is brought up to date.
    /// The end of a query that has succeeded is reported with the cursor; in row by row mode,
    /// the cursor is left to report it.
    pub open spec fn step(self, conn: ConnectionModel, reply: Reply) -> (
        Step<Load<B>, QueryResult<<PgConnection as PgLoadingMode<B>>::Cursor>>,
        ConnectionModel,
    ) {
        let observed = conn.observed(reply.transaction_status);
        match (self.state, reply.answer) {
            (LoadState::Preparing { prepare }, _) => {
                let (step, after) = prepare.step(conn, reply);
                match step {
                    Step::Pending(prepare) => (
                        Step::Pending(
                            Load { state: LoadState::Preparing { prepare }, mode: self.mode },
                        ),
                        after,
                    ),
                    Step::Done(Ok(prepared)) => (
                        Step::Pending(
                            Load { state: LoadState::Executing { prepared }, mode: self.mode },
                        ),
                        after,
                    ),
                    Step::Done(Err(error)) => (Step::Done(Err(error)), after),
                }
            },
            (LoadState::Executing { prepared }, Answer::Executed(result)) => {
                let source = prepared.source;
                let settled = observed.settled(result, source@, false);
                match result {
                    Err(error) => (Step::Done(Err(error)), settled),
                    Ok(result) => (
                        if <PgConnection as PgLoadingMode<B>>::USE_ROW_BY_ROW_MODE {
                            Step::Done(
                                Ok(<PgConnection as PgLoadingMode<B>>::spec_cursor(result, source)),
                            )
                        } else {
                            Step::Pending(
                                Load {
                                    state: LoadState::GettingCursor {
                                        cursor: GetCursor { result, source },
                                    },
                                    mode: self.mode,
                                },
                            )
                        },
                        settled,
                    ),
                }
            },
            (LoadState::GettingCursor { cursor }, Answer::NextResult(next)) => {
                let result = match next {
                    Ok(_) => Ok(
                        <PgConnection as PgLoadingMode<B>>::spec_cursor(
                            cursor.result,
                            cursor.source,
                        ),
                    ),
                    Err(error) => Err(error),
                };
                (Step::Done(result), observed.settled(result, cursor.source@, true))
            },
            _ => (Step::Pending(self), observed),
        }
    }

    /// Takes the reply to the request. One that answers something else changes nothing but the
    /// known transaction status.
    pub fn resume(self, conn: &mut PgConnection, reply: Reply) -> (step: Step<
        Load<B>,
        QueryResult<<PgConnection as PgLoadingMode<B>>::Cursor>,
    >)
        ensures
            (step, final(conn)@) == self.step(old(conn)@, reply),
            old(conn)@.wf() ==> final(conn)@.wf(),
    {
        match self.state {
            LoadState::Preparing { prepare } => {
                match prepare.resume(conn, reply) {
                    Step::Pending(prepare) => Step::Pending(
                        Load { state: LoadState::Preparing { prepare }, mode: self.mode },
                    ),
                    Step::Done(Ok(prepared)) => Step::Pending(
                        Load { state: LoadState::Executing { prepared }, mode: self.mode },
                    ),
                    Step::Done(Err(error)) => Step::Done(Err(error)),
                }
            },
            LoadState::Executing { prepared } => {
                let manager = &mut conn.connection_and_transaction_manager;
                manager.observe(reply.transaction_status);
                match reply.answer {
                    Answer::Executed(result) => {
                        match update_transaction_manager_status(
                            result,
                            manager,
                            prepared.source.as_str(),
                            false,
                        ) {
                            Err(error) => Step::Done(Err(error)),
                            Ok(result) => {
                                match <PgConnection as PgLoadingMode<B>>::get_cursor(
                                    manager,
                                    result,
                                    prepared.source,
                                ) {
                                    Step::Done(cursor) => Step::Done(cursor),
                                    Step::Pending(cursor) => Step::Pending(
                                        Load {
                                            state: LoadState::GettingCursor { cursor },
                                            mode: self.mode,
                                        },
                                    ),
                                }
                            },
                        }
                    },
                    _ => Step::Pending(
                        Load { state: LoadState::Executing { prepared }, mode: self.mode },
                    ),
                }
            },
            LoadState::GettingCursor { cursor } => {
                let manager = &mut conn.connection_and_transaction_manager;
                manager.observe(reply.transaction_status);
                match reply.answer {
                    Answer::NextResult(next) => {
                        let source: String = cursor.source.clone();
                        let result = match next {
                            Ok(_) => Ok(
                                <PgConnection as PgLoadingMode<B>>::new_cursor(
                                    cursor.result,
                                    cursor.source,
                                ),
                            ),
                            Err(error) => Err(error),
                        };
                        Step::Done(
                            update_transaction_manager_status(
                                result,
                                manager,
                                source.as_str(),
                                true,
                            ),
                        )
                    },
                    _ => Step::Pending(
                        Load { state: LoadState::GettingCursor { cursor }, mode: self.mode },
                    ),
                }
            },
        }
    }
}

/// The loading of a query before the first reply.
pub open spec fn load_of<B>(source: Query, mode: B) -> Load<B> {
    Load {
        state: LoadState::Preparing {
            prepare: PrepareQuery::CollectingBinds { source, execute_returning_count: false },
        },
        mode,
    }
}

impl PgConnection {
    /// Starts to execute a query for its rows.
    pub fn load<B>(&mut self, source: Query, mode: B) -> (pending: Load<B>) where
        PgConnection: PgLoadingMode<B>,

        ensures
            pending == load_of(source, mode),
            final(self)@ == old(self)@.reporting(
                EventModel::StartQuery { query: source.debug@ },
            ),
    {
        let prepare: PrepareQuery = self.with_prepared_query(source, false);
        Load { state: LoadState::Preparing { prepare }, mode }
    }
}

} // verus!
