//! Queries, and the calls into libpq that running one takes.
//!
//! An operation on a connection runs in steps. Between two steps it waits for the driver, which
//! performs the [`Request`] of the operation and hands the [`Reply`] to the next step.
use crate::error::QueryResult;
use crate::raw::{PgResult, PgTransactionStatus};
use crate::statement_cache::{MaybeCached, PgTypeMetadata, RenderedQuery, Statement};
use vstd::prelude::*;

verus! {

/// A query as the connection sees it.
#[derive(Debug, PartialEq, Eq)]
pub struct Query {
    /// The query as events show it: its SQL and its binds.
    pub debug: String,
    /// The query as SQL, or why it cannot be written as SQL.
    pub rendered: QueryResult<RenderedQuery>,
}

/// The values that are bound to a query.
#[derive(Debug, PartialEq, Eq)]
pub struct CollectedBinds {
    /// The bytes of each value; nothing for `NULL`.
    pub binds: Vec<Option<Vec<u8>>>,
    /// The type of each value.
    pub metadata: Vec<PgTypeMetadata>,
}

/// A query that is ready to be executed.
#[derive(Debug, PartialEq, Eq)]
pub struct PreparedQuery {
    /// The query as events show it.
    pub source: String,
    pub statement: MaybeCached,
    pub binds: Vec<Option<Vec<u8>>>,
}

/// What an operation asks of the driver.
#[derive(Debug, PartialEq, Eq)]
pub enum Request<'a> {
    /// Have the query turn its bind values into bytes.
    CollectBinds,
    /// Have the server prepare a statement.
    Prepare { sql: &'a String, bind_types: &'a Vec<PgTypeMetadata>, for_cache: bool },
    /// Send a statement with its binds, and receive the first result.
    Execute { statement: MaybeCached, binds: &'a Vec<Option<Vec<u8>>>, row_by_row: bool },
    /// Receive the next result of the statement that was sent last.
    NextResult,
}

/// What a request came to.
#[derive(Debug, PartialEq, Eq)]
pub enum Answer {
    /// To [`Request::CollectBinds`].
    Binds(QueryResult<CollectedBinds>),
    /// To [`Request::Prepare`].
    Prepared(QueryResult<Statement>),
    /// To [`Request::Execute`].
    Executed(QueryResult<PgResult>),
    /// To [`Request::NextResult`]; `None` says that there are no more results.
    NextResult(QueryResult<Option<PgResult>>),
}

/// What a request came to, and the transaction status from then on.
#[derive(Debug, PartialEq, Eq)]
pub struct Reply {
    pub answer: Answer,
    pub transaction_status: PgTransactionStatus,
}

/// Where an operation stands after a step.
#[derive(Debug, PartialEq, Eq)]
pub enum Step<Operation, Outcome> {
    /// It waits for the reply to its request.
    Pending(Operation),
    /// It has ended.
    Done(Outcome),
}

impl<'a> Request<'a> {
    /// The answer is one to this request.
    pub open spec fn accepts(self, answer: Answer) -> bool {
        match self {
            Request::CollectBinds => answer is Binds,
            Request::Prepare { .. } => answer is Prepared,
            Request::Execute { .. } => answer is Executed,
            Request::NextResult => answer is NextResult,
        }
    }

    /// Whether the answer is one to this request.
    pub fn is_answered_by(&self, answer: &Answer) -> (yes: bool)
        ensures
            yes == self.accepts(*answer),
    {
        match (self, answer) {
            (Request::CollectBinds, Answer::Binds(_)) => true,
            (Request::Prepare { .. }, Answer::Prepared(_)) => true,
            (Request::Execute { .. }, Answer::Executed(_)) => true,
            (Request::NextResult, Answer::NextResult(_)) => true,
            _ => false,
        }
    }
}

impl Query {
    /// The query consists of `sql` alone: it has no binds, and its statement is not kept.
    pub open spec fn is_sql_query(self, sql: Seq<char>) -> bool {
        &&& self.debug@ == sql + " -- binds: []"@
        &&& self.rendered matches Ok(rendered)
        &&& rendered.sql@ == sql
        &&& rendered.query_id is None
        &&& !rendered.is_safe_to_cache_prepared
    }

    /// A query that consists of `sql` alone.
    pub fn sql_query(sql: &str) -> (query: Query)
        ensures
            query.is_sql_query(sql@),
    {
        let mut debug: String = sql.to_owned();
        debug.append(" -- binds: []");
        Query {
            debug,
            rendered: Ok(
                RenderedQuery {
                    sql: sql.to_owned(),
                    query_id: None,
                    is_safe_to_cache_prepared: false,
                },
            ),
        }
    }
}

} // verus!
