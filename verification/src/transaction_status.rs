//! The client's record of the open transaction and its savepoints.
use crate::error::{Error, QueryResult};
use crate::raw::PgTransactionStatus;
use vstd::prelude::*;

verus! {

/// The client's record of the transaction of one connection.
#[derive(Debug, Clone, Copy, PartialEq, Eq, Structural)]
pub enum TransactionManagerStatus {
    /// The record can be relied on.
    Valid(ValidTransactionManagerStatus),
    /// What state the transaction is in is no longer known. No transaction command is run.
    InError,
}

/// A record that can be relied on.
#[derive(Debug, Clone, Copy, PartialEq, Eq, Structural)]
pub struct ValidTransactionManagerStatus {
    /// The open transaction, if there is one.
    pub in_transaction: Option<InTransactionStatus>,
}

/// The record of an open transaction.
#[derive(Debug, Clone, Copy, PartialEq, Eq, Structural)]
pub struct InTransactionStatus {
    /// One for a transaction without savepoints, one more for each savepoint.
    pub transaction_depth: u32,
    /// The connection may be unusable until the top level transaction is rolled back.
    pub requires_rollback_maybe_up_to_top_level: bool,
    /// The transaction was opened for a test, and is meant to stay open.
    pub test_transaction: bool,
}

/// A step up or down in the nesting of transactions.
#[derive(Debug, Clone, Copy, PartialEq, Eq, Structural)]
pub enum TransactionDepthChange {
    /// A transaction or a savepoint was opened.
    IncreaseDepth,
    /// A transaction or a savepoint was closed.
    DecreaseDepth,
}

impl ValidTransactionManagerStatus {
    /// No transaction is open.
    pub open spec fn idle() -> ValidTransactionManagerStatus {
        ValidTransactionManagerStatus { in_transaction: None }
    }

    /// An open transaction has a depth of at least one.
    pub open spec fn wf(self) -> bool {
        self.in_transaction matches Some(transaction) ==> transaction.transaction_depth >= 1
    }

    /// The depth of the open transaction.
    pub open spec fn spec_transaction_depth(self) -> Option<u32> {
        match self.in_transaction {
            Some(transaction) => Some(transaction.transaction_depth),
            None => None,
        }
    }

    /// The depth of the open transaction.
    pub fn transaction_depth(&self) -> (depth: Option<u32>)
        ensures
            depth == self.spec_transaction_depth(),
    {
        match &self.in_transaction {
            Some(transaction) => Some(transaction.transaction_depth),
            None => None,
        }
    }

    /// The record after a step up or down, where there is one.
    ///
    /// A depth that cannot grow any more stays as it is. There is no step down from no
    /// transaction.
    pub open spec fn after_change(
        self,
        change: TransactionDepthChange,
    ) -> QueryResult<ValidTransactionManagerStatus> {
        match (self.in_transaction, change) {
            (Some(transaction), TransactionDepthChange::IncreaseDepth) => Ok(
                ValidTransactionManagerStatus {
                    in_transaction: Some(
                        InTransactionStatus {
                            transaction_depth: if transaction.transaction_depth < u32::MAX {
                                (transaction.transaction_depth + 1) as u32
                            } else {
                                u32::MAX
                            },
                            ..transaction
                        },
                    ),
                },
            ),
            (Some(transaction), TransactionDepthChange::DecreaseDepth) => Ok(
                ValidTransactionManagerStatus {
                    in_transaction: if transaction.transaction_depth > 1 {
                        Some(
                            InTransactionStatus {
                                transaction_depth: (transaction.transaction_depth - 1) as u32,
                                ..transaction
                            },
                        )
                    } else {
                        None
                    },
                },
            ),
            (None, TransactionDepthChange::IncreaseDepth) => Ok(
                ValidTransactionManagerStatus {
                    in_transaction: Some(
                        InTransactionStatus {
                            transaction_depth: 1,
                            requires_rollback_maybe_up_to_top_level: false,
                            test_transaction: false,
                        },
                    ),
                },
            ),
            (None, TransactionDepthChange::DecreaseDepth) => Err(Error::NotInTransaction),
        }
    }

    /// Records a step up or down in the nesting of transactions.
    pub fn change_transaction_depth(&mut self, change: TransactionDepthChange) -> (result:
        QueryResult<()>)
        ensures
            old(self).wf() ==> final(self).wf(),
            match old(self).after_change(change) {
                Ok(after) => result == QueryResult::<()>::Ok(()) && *final(self) == after,
                Err(error) => result == QueryResult::<()>::Err(error) && *final(self) == *old(
                    self,
                ),
            },
    {
        match (self.in_transaction, change) {
            (Some(transaction), TransactionDepthChange::IncreaseDepth) => {
                self.in_transaction = Some(
                    InTransactionStatus {
                        transaction_depth: transaction.transaction_depth.saturating_add(1),
                        ..transaction
                    },
                );
                Ok(())
            },
            (Some(transaction), TransactionDepthChange::DecreaseDepth) => {
                self.in_transaction = if transaction.transaction_depth > 1 {
                    Some(
                        InTransactionStatus {
                            transaction_depth: transaction.transaction_depth - 1,
                            ..transaction
                        },
                    )
                } else {
                    None
                };
                Ok(())
            },
            (None, TransactionDepthChange::IncreaseDepth) => {
                self.in_transaction = Some(
                    InTransactionStatus {
                        transaction_depth: 1,
                        requires_rollback_maybe_up_to_top_level: false,
                        test_transaction: false,
                    },
                );
                Ok(())
            },
            (None, TransactionDepthChange::DecreaseDepth) => Err(Error::NotInTransaction),
        }
    }
}

impl Default for TransactionManagerStatus {
    /// No transaction is open.
    fn default() -> (status: TransactionManagerStatus)
        ensures
            status == TransactionManagerStatus::idle(),
    {
        TransactionManagerStatus::Valid(ValidTransactionManagerStatus { in_transaction: None })
    }
}

impl TransactionManagerStatus {
    /// No transaction is open.
    pub open spec fn idle() -> TransactionManagerStatus {
        TransactionManagerStatus::Valid(ValidTransactionManagerStatus::idle())
    }

    /// An open transaction has a depth of at least one.
    pub open spec fn wf(self) -> bool {
        self matches TransactionManagerStatus::Valid(valid) ==> valid.wf()
    }

    /// A transaction is known to be open.
    pub open spec fn in_transaction(self) -> bool {
        self matches TransactionManagerStatus::Valid(valid) && valid.in_transaction is Some
    }

    /// The depth that is told to callers.
    pub open spec fn spec_transaction_depth(self) -> QueryResult<Option<u32>> {
        match self {
            TransactionManagerStatus::Valid(valid) => Ok(valid.spec_transaction_depth()),
            TransactionManagerStatus::InError => Err(Error::BrokenTransactionManager),
        }
    }

    /// The depth of the open transaction; fails where that is no longer known.
    pub fn transaction_depth(&self) -> (depth: QueryResult<Option<u32>>)
        ensures
            depth == self.spec_transaction_depth(),
    {
        match self {
            TransactionManagerStatus::Valid(valid) => Ok(valid.transaction_depth()),
            TransactionManagerStatus::InError => Err(Error::BrokenTransactionManager),
        }
    }

    /// The record with the rollback requirement of the open transaction set to `to`.
    pub open spec fn with_rollback_requirement(self, to: bool) -> TransactionManagerStatus {
        match self {
            TransactionManagerStatus::Valid(
                ValidTransactionManagerStatus { in_transaction: Some(transaction) },
            ) => TransactionManagerStatus::Valid(
                ValidTransactionManagerStatus {
                    in_transaction: Some(
                        InTransactionStatus {
                            requires_rollback_maybe_up_to_top_level: to,
                            ..transaction
                        },
                    ),
                },
            ),
            _ => self,
        }
    }

    /// Records whether the connection may be unusable until the top level transaction is rolled
    /// back. Where no transaction is known to be open, nothing is recorded.
    pub fn set_requires_rollback_maybe_up_to_top_level(&mut self, to: bool)
        ensures
            *final(self) == old(self).with_rollback_requirement(to),
            old(self).wf() ==> final(self).wf(),
    {
        if let TransactionManagerStatus::Valid(valid) = *self {
            if let Some(transaction) = valid.in_transaction {
                *self = TransactionManagerStatus::Valid(
                    ValidTransactionManagerStatus {
                        in_transaction: Some(
                            InTransactionStatus {
                                requires_rollback_maybe_up_to_top_level: to,
                                ..transaction
                            },
                        ),
                    },
                );
            }
        }
    }

    /// Records that the state of the transaction is no longer known.
    pub fn set_in_error(&mut self)
        ensures
            *final(self) == TransactionManagerStatus::InError,
    {
        *self = TransactionManagerStatus::InError;
    }

    /// The record after a query, by what libpq says of the session and by whether the query
    /// failed.
    ///
    /// - A failed transaction block may have to be rolled back up to its top level.
    /// - Nothing can be relied on once the connection is bad.
    /// - Without a transaction block nothing is open, whatever was recorded before.
    /// - Inside a sound transaction block, a query that succeeded shows that nothing has to be
    ///   rolled back. One that failed cannot have opened the block, so that a record without an
    ///   open transaction is wrong.
    /// - While a command is in progress nothing can be concluded.
    pub open spec fn after_query(
        self,
        server: PgTransactionStatus,
        is_err: bool,
    ) -> TransactionManagerStatus {
        match server {
            PgTransactionStatus::InError => self.with_rollback_requirement(true),
            PgTransactionStatus::Unknown => TransactionManagerStatus::InError,
            PgTransactionStatus::Idle => TransactionManagerStatus::idle(),
            PgTransactionStatus::InTransaction => if !is_err {
                self.with_rollback_requirement(false)
            } else if self.in_transaction() {
                self
            } else {
                TransactionManagerStatus::InError
            },
            PgTransactionStatus::Active => self,
        }
    }

    /// Brings the record in line with what libpq says of the session after a query.
    pub fn update(&mut self, server: PgTransactionStatus, is_err: bool)
        ensures
            *final(self) == old(self).after_query(server, is_err),
            old(self).wf() ==> final(self).wf(),
    {
        match server {
            PgTransactionStatus::InError => {
                self.set_requires_rollback_maybe_up_to_top_level(true);
            },
            PgTransactionStatus::Unknown => self.set_in_error(),
            PgTransactionStatus::Idle => {
                // In particular after an attempt to commit: even a `COMMIT` that fails leaves
                // the transaction. This may repair the record.
                *self = TransactionManagerStatus::default();
            },
            PgTransactionStatus::InTransaction => {
                if is_err {
                    // An error does not open a transaction, so one was open before.
                    let known: bool = match self {
                        TransactionManagerStatus::Valid(valid) => {
                            valid.transaction_depth().is_some()
                        },
                        TransactionManagerStatus::InError => false,
                    };
                    if !known {
                        self.set_in_error();
                    }
                } else {
                    // The query may have opened the transaction. If the block had failed before
                    // and is sound now, a rollback was attempted; should that not have
                    // sufficed, the server will tell again.
                    self.set_requires_rollback_maybe_up_to_top_level(false);
                }
            },
            PgTransactionStatus::Active => {},
        }
    }

    /// Whether a pooled connection in this state must not be handed out again: the record is
    /// broken, or holds an open transaction that is no test transaction.
    pub open spec fn is_broken(self) -> bool {
        match self {
            TransactionManagerStatus::InError => true,
            TransactionManagerStatus::Valid(valid) => {
                valid.in_transaction matches Some(transaction) && !transaction.test_transaction
            },
        }
    }

    /// Marks the open transaction as one that is opened for a test, and meant to stay open.
    pub fn set_test_transaction_flag(&mut self)
        ensures
            match *old(self) {
                TransactionManagerStatus::Valid(
                    ValidTransactionManagerStatus { in_transaction: Some(transaction) },
                ) => *final(self) == TransactionManagerStatus::Valid(
                    ValidTransactionManagerStatus {
                        in_transaction: Some(
                            InTransactionStatus { test_transaction: true, ..transaction },
                        ),
                    },
                ),
                _ => *final(self) == *old(self),
            },
            old(self).wf() ==> final(self).wf(),
    {
        if let TransactionManagerStatus::Valid(valid) = *self {
            if let Some(transaction) = valid.in_transaction {
                *self = TransactionManagerStatus::Valid(
                    ValidTransactionManagerStatus {
                        in_transaction: Some(
                            InTransactionStatus { test_transaction: true, ..transaction },
                        ),
                    },
                );
            }
        }
    }
}

} // verus!
