//! What the connection knows of the libpq session behind it.
//!
//! The session itself lives with whoever drives the connection. After each call into libpq the
//! driver hands back what the call returned, together with the transaction status that libpq
//! reports from then on; a [`RawConnection`] keeps the part of it that decisions are made on.
use crate::error::QueryResult;
use vstd::prelude::*;

verus! {

/// The transaction status that libpq tracks for a session.
#[derive(Debug, Clone, Copy, PartialEq, Eq, Structural)]
pub enum PgTransactionStatus {
    /// No transaction is open.
    Idle,
    /// A command is in progress.
    Active,
    /// A transaction block is open.
    InTransaction,
    /// A transaction block is open and has failed.
    InError,
    /// The connection is bad.
    Unknown,
}

/// What becomes of the notices that the server sends.
#[derive(Debug, Clone, Copy, PartialEq, Eq, Structural)]
pub enum NoticeProcessor {
    /// libpq prints them to stderr.
    Stderr,
    /// They are dropped.
    Noop,
}

/// A result set that the driver holds for the connection.
#[derive(Debug, Clone, Copy, PartialEq, Eq, Structural)]
pub struct PgResult {
    /// By this number the driver finds the result set again.
    pub handle: u64,
    /// The number of rows that the command affected.
    pub rows_affected: usize,
}

/// A message that some session sent with `NOTIFY`.
#[derive(Debug, PartialEq, Eq)]
pub struct PgNotification {
    /// Process ID of the notifying server process.
    pub process_id: i32,
    /// The channel that the message was sent to.
    pub channel: String,
    /// The message, empty if none was given.
    pub payload: String,
}

/// The known part of a libpq session.
#[derive(Debug, PartialEq, Eq)]
pub struct RawConnection {
    /// The transaction status after the last call into libpq.
    pub transaction_status: PgTransactionStatus,
    /// What becomes of notices.
    pub notice_processor: NoticeProcessor,
    /// Received notifications, and failures to receive one, that nobody has taken yet; the
    /// oldest comes first.
    pub notifications: Vec<QueryResult<PgNotification>>,
}

/// What sending a query text to the server came to.
#[derive(Debug, PartialEq, Eq)]
pub struct ExecReply {
    /// The result set, or the error that the server or libpq reported.
    pub result: QueryResult<PgResult>,
    /// The transaction status from then on.
    pub transaction_status: PgTransactionStatus,
}

impl RawConnection {
    /// A fresh session: nothing was received, and notices go to stderr.
    pub fn new(transaction_status: PgTransactionStatus) -> (raw: RawConnection)
        ensures
            raw.transaction_status == transaction_status,
            raw.notice_processor == NoticeProcessor::Stderr,
            raw.notifications@ == Seq::<QueryResult<PgNotification>>::empty(),
    {
        RawConnection {
            transaction_status,
            notice_processor: NoticeProcessor::Stderr,
            notifications: Vec::new(),
        }
    }

    /// The session after libpq has reported `transaction_status`.
    pub open spec fn observed(self, transaction_status: PgTransactionStatus) -> RawConnection {
        RawConnection { transaction_status, ..self }
    }

    /// The transaction status after the last call into libpq.
    pub fn transaction_status(&self) -> (transaction_status: PgTransactionStatus)
        ensures
            transaction_status == self.transaction_status,
    {
        self.transaction_status
    }

    /// Notes the transaction status that libpq reports after a call.
    pub fn observe(&mut self, transaction_status: PgTransactionStatus)
        ensures
            *final(self) == old(self).observed(transaction_status),
    {
        self.transaction_status = transaction_status;
    }

    /// Decides what becomes of notices from now on.
    pub fn set_notice_processor(&mut self, notice_processor: NoticeProcessor)
        ensures
            *final(self) == (RawConnection { notice_processor, ..*old(self) }),
    {
        self.notice_processor = notice_processor;
    }

    /// Notes a notification, or a failure to receive one, behind those that wait already.
    pub fn receive(&mut self, received: QueryResult<PgNotification>)
        ensures
            final(self).notifications@ == old(self).notifications@.push(received),
            final(self).transaction_status == old(self).transaction_status,
            final(self).notice_processor == old(self).notice_processor,
    {
        self.notifications.push(received);
    }

    /// Takes the oldest waiting notification, or failure to receive one. `Ok(None)` says that
    /// nothing waits.
    pub fn pq_notifies(&mut self) -> (received: QueryResult<Option<PgNotification>>)
        ensures
            old(self).notifications@.len() == 0 ==> {
                &&& received == QueryResult::<Option<PgNotification>>::Ok(None)
                &&& *final(self) == *old(self)
            },
            old(self).notifications@.len() > 0 ==> {
                &&& received == match old(self).notifications@[0] {
                    Ok(notification) => Ok(Some(notification)),
                    Err(error) => Err(error),
                }
                &&& final(self).notifications@ == old(self).notifications@.drop_first()
            },
            final(self).transaction_status == old(self).transaction_status,
            final(self).notice_processor == old(self).notice_processor,
    {
        if self.notifications.len() == 0 {
            Ok(None)
        } else {
            let oldest = self.notifications.remove(0);
            proof {
                assert(self.notifications@ =~= old(self).notifications@.drop_first());
            }
            match oldest {
                Ok(notification) => Ok(Some(notification)),
                Err(error) => Err(error),
            }
        }
    }
}

} // verus!
