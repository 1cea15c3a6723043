//! The client side of a connection to a PostgreSQL server.
//!
//! The library decides what is sent to the server, what its replies mean, which transaction is
//! open, and what is reported about all that. It does no input and output of its own. Whoever
//! drives a [`PgConnection`] performs the requests of its operations with libpq, and hands the
//! replies back; between two requests it passes the reported events on to whoever listens.
//!
//! - [`connection`]: the connection, batches of SQL commands, and what the outcome of a query
//!   means for the open transaction.
//! - [`prepared_query`], [`execute`], [`load`], [`copy`]: prepared queries, and what they are
//!   executed for.
//! - [`transaction_status`], [`transaction_manager`], [`transaction_builder`]: transactions and
//!   savepoints.
//! - [`establish`]: the way to a connection.
//! - [`notifications`]: messages of other sessions.
//! - [`laws`], [`runs`], [`outcomes`], [`transaction_runs`]: what holds of the whole.
//! - [`record_laws`], [`connection_laws`], [`command_laws`], [`cache_laws`], [`request_laws`],
//!   [`establish_laws`]: what holds of single operations.
//! - [`endings`], [`load_endings`], [`copy_endings`]: what queries come to, by the replies that
//!   they are given.

pub mod cache_laws;
pub mod command_laws;
pub mod connection;
pub mod connection_laws;
pub mod copy;
pub mod copy_endings;
pub mod endings;
pub mod error;
pub mod establish;
pub mod establish_laws;
pub mod execute;
pub mod instrumentation;
pub mod laws;
pub mod load;
pub mod load_endings;
pub mod notifications;
pub mod outcomes;
pub mod prepared_query;
pub mod query;
pub mod raw;
pub mod record_laws;
pub mod request_laws;
pub mod runs;
pub mod statement_cache;
pub mod text;
pub mod transaction_builder;
pub mod transaction_manager;
pub mod transaction_runs;
pub mod transaction_status;

pub use connection::{AnsiTransactionManager, ConnectionAndTransactionManager, PgConnection};
pub use error::{ConnectionError, Error, QueryResult};
pub use load::{DefaultLoadingMode, PgLoadingMode, PgRowByRowLoadingMode};
pub use transaction_builder::TransactionBuilder;
