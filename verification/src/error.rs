//! Errors of queries and of connection attempts.
use vstd::prelude::*;

verus! {

/// The kinds of error that the server's condition codes are sorted into.
#[derive(Debug, Clone, Copy, PartialEq, Eq, Structural)]
#[non_exhaustive]
pub enum DatabaseErrorKind {
    UniqueViolation,
    ForeignKeyViolation,
    UnableToSendCommand,
    SerializationFailure,
    ReadOnlyTransaction,
    RestrictViolation,
    NotNullViolation,
    CheckViolation,
    ExclusionViolation,
    ClosedConnection,
    Unknown,
}

/// What the server said about an error.
#[derive(Debug, PartialEq, Eq)]
pub struct DatabaseErrorInformation {
    pub message: String,
    pub details: Option<String>,
    pub hint: Option<String>,
    pub table_name: Option<String>,
    pub column_name: Option<String>,
    pub constraint_name: Option<String>,
    /// One-based character index into the statement at which the error was found.
    pub statement_position: Option<i32>,
}

/// A text that cannot be handed to libpq, because a NUL byte inside it would end it early.
#[derive(Debug, PartialEq, Eq)]
pub struct NulError {
    /// Byte index of the first NUL byte.
    pub position: usize,
    /// The refused text.
    pub data: String,
}

/// Everything that can go wrong while a query or a transaction command runs.
#[derive(Debug, PartialEq, Eq)]
#[non_exhaustive]
pub enum Error {
    /// The query holds a NUL byte.
    InvalidCString(NulError),
    /// The server, or libpq, reported an error.
    DatabaseError(DatabaseErrorKind, DatabaseErrorInformation),
    /// No row was returned by a query that has to return one.
    NotFound,
    /// The query could not be turned into SQL.
    QueryBuilderError(String),
    /// A reply of the server could not be understood.
    DeserializationError(String),
    /// A bind value could not be turned into bytes.
    SerializationError(String),
    /// A commit failed, and so did the rollback that was attempted after it.
    RollbackErrorOnCommit { rollback_error: Box<Error>, commit_error: Box<Error> },
    /// Asks for the enclosing transaction to be rolled back.
    RollbackTransaction,
    /// A top level transaction was to be opened inside another one.
    AlreadyInTransaction,
    /// A transaction was to be closed while none is open.
    NotInTransaction,
    /// The transaction manager no longer knows the state of the transaction.
    BrokenTransactionManager,
}

/// The outcome of a query.
pub type QueryResult<T> = Result<T, Error>;

/// Everything that can go wrong while a connection is established.
#[derive(Debug, PartialEq, Eq)]
#[non_exhaustive]
pub enum ConnectionError {
    /// The connection string holds a NUL byte.
    InvalidCString(NulError),
    /// The server refused the connection, or could not be reached.
    BadConnection(String),
    /// The connection string is malformed.
    InvalidConnectionUrl(String),
    /// The connection was made, but its session options could not be set.
    CouldntSetupConfiguration(Error),
}

/// The outcome of a connection attempt.
pub type ConnectionResult<T> = Result<T, ConnectionError>;

fn copy_text(text: &Option<String>) -> (copy: Option<String>)
    ensures
        copy == *text,
{
    match text {
        Some(text) => Some(text.clone()),
        None => None,
    }
}

impl DatabaseErrorInformation {
    /// Information that consists of a message alone.
    pub open spec fn of_message(message: String) -> DatabaseErrorInformation {
        DatabaseErrorInformation {
            message,
            details: None,
            hint: None,
            table_name: None,
            column_name: None,
            constraint_name: None,
            statement_position: None,
        }
    }

    /// Information that consists of a message alone.
    pub fn from_message(message: String) -> (information: DatabaseErrorInformation)
        ensures
            information == DatabaseErrorInformation::of_message(message),
    {
        DatabaseErrorInformation {
            message,
            details: None,
            hint: None,
            table_name: None,
            column_name: None,
            constraint_name: None,
            statement_position: None,
        }
    }
}

impl Clone for DatabaseErrorInformation {
    fn clone(&self) -> (copy: DatabaseErrorInformation)
        ensures
            copy == *self,
    {
        DatabaseErrorInformation {
            message: self.message.clone(),
            details: copy_text(&self.details),
            hint: copy_text(&self.hint),
            table_name: copy_text(&self.table_name),
            column_name: copy_text(&self.column_name),
            constraint_name: copy_text(&self.constraint_name),
            statement_position: self.statement_position,
        }
    }
}

impl Clone for NulError {
    fn clone(&self) -> (copy: NulError)
        ensures
            copy == *self,
    {
        NulError { position: self.position, data: self.data.clone() }
    }
}

impl Clone for Error {
    fn clone(&self) -> (copy: Error)
        ensures
            copy == *self,
        decreases self,
    {
        match self {
            Error::InvalidCString(nul) => Error::InvalidCString(nul.clone()),
            Error::DatabaseError(kind, information) => Error::DatabaseError(
                *kind,
                information.clone(),
            ),
            Error::NotFound => Error::NotFound,
            Error::QueryBuilderError(message) => Error::QueryBuilderError(message.clone()),
            Error::DeserializationError(message) => Error::DeserializationError(message.clone()),
            Error::SerializationError(message) => Error::SerializationError(message.clone()),
            Error::RollbackErrorOnCommit { rollback_error, commit_error } => {
                Error::RollbackErrorOnCommit {
                    rollback_error: Box::new((&**rollback_error).clone()),
                    commit_error: Box::new((&**commit_error).clone()),
                }
            },
            Error::RollbackTransaction => Error::RollbackTransaction,
            Error::AlreadyInTransaction => Error::AlreadyInTransaction,
            Error::NotInTransaction => Error::NotInTransaction,
            Error::BrokenTransactionManager => Error::BrokenTransactionManager,
        }
    }
}

impl Clone for ConnectionError {
    fn clone(&self) -> (copy: ConnectionError)
        ensures
            copy == *self,
    {
        match self {
            ConnectionError::InvalidCString(nul) => ConnectionError::InvalidCString(nul.clone()),
            ConnectionError::BadConnection(message) => ConnectionError::BadConnection(
                message.clone(),
            ),
            ConnectionError::InvalidConnectionUrl(message) => {
                ConnectionError::InvalidConnectionUrl(message.clone())
            },
            ConnectionError::CouldntSetupConfiguration(error) => {
                ConnectionError::CouldntSetupConfiguration(error.clone())
            },
        }
    }
}

/// The error of a failed query; nothing for one that succeeded.
pub open spec fn error_of<T>(result: QueryResult<T>) -> Option<Error> {
    match result {
        Ok(_) => None,
        Err(error) => Some(error),
    }
}

/// A copy of the error of a failed query; nothing for one that succeeded.
pub fn copy_error<T>(result: &QueryResult<T>) -> (copy: Option<Error>)
    ensures
        copy == error_of(*result),
{
    match result {
        Ok(_) => None,
        Err(error) => Some(error.clone()),
    }
}

} // verus!
