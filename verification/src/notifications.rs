//! Notifications that other sessions have sent.
use crate::connection::PgConnection;
use crate::error::QueryResult;
use crate::raw::{PgNotification, RawConnection};
use vstd::prelude::*;

verus! {

/// The notifications that a connection has received and that nobody has taken yet.
///
/// There may be more of them after none was left: [`NotificationsIter::next`] can be called again
/// at any time, and so can [`PgConnection::notifications_iter`].
#[derive(Debug)]
pub struct NotificationsIter<'a> {
    pub raw_connection: &'a mut RawConnection,
}

/// What is left after the oldest waiting notification was taken.
pub open spec fn without_oldest(waiting: Seq<QueryResult<PgNotification>>) -> Seq<
    QueryResult<PgNotification>,
> {
    if waiting.len() == 0 {
        waiting
    } else {
        waiting.drop_first()
    }
}

/// The oldest waiting notification.
pub open spec fn oldest(waiting: Seq<QueryResult<PgNotification>>) -> Option<
    QueryResult<PgNotification>,
> {
    if waiting.len() == 0 {
        None
    } else {
        Some(waiting[0])
    }
}

impl<'a> NotificationsIter<'a> {
    /// Takes the oldest waiting notification, or failure to receive one.
    pub fn next(&mut self) -> (item: Option<QueryResult<PgNotification>>)
        ensures
            item == oldest(old(self).raw_connection.notifications@),
            final(self).raw_connection.notifications@ == without_oldest(
                old(self).raw_connection.notifications@,
            ),
            final(self).raw_connection.transaction_status == old(
                self,
            ).raw_connection.transaction_status,
            final(self).raw_connection.notice_processor == old(
                self,
            ).raw_connection.notice_processor,
            *final(final(self).raw_connection) == *final(old(self).raw_connection),
    {
        match self.raw_connection.pq_notifies() {
            Ok(Some(notification)) => Some(Ok(notification)),
            Ok(None) => None,
            Err(error) => Some(Err(error)),
        }
    }

    /// Takes everything that waits, oldest first.
    pub fn collect(self) -> (items: Vec<QueryResult<PgNotification>>)
        ensures
            items@ == old(self.raw_connection).notifications@,
            final(self.raw_connection).notifications@.len() == 0,
            final(self.raw_connection).transaction_status == old(
                self.raw_connection,
            ).transaction_status,
            final(self.raw_connection).notice_processor == old(
                self.raw_connection,
            ).notice_processor,
    {
        let mut items: Vec<QueryResult<PgNotification>> = Vec::new();
        items.append(&mut self.raw_connection.notifications);
        items
    }
}

impl PgConnection {
    /// The notifications that wait on this connection.
    ///
    /// See the PostgreSQL documentation for the SQL commands `NOTIFY` and `LISTEN`.
    pub fn notifications_iter(&mut self) -> (iter: NotificationsIter<'_>)
        ensures
            *iter.raw_connection == old(self)@.manager.raw_connection,
            final(self)@.manager.raw_connection == *final(iter.raw_connection),
            final(self)@.manager.status == old(self)@.manager.status,
            final(self)@.manager.events == old(self)@.manager.events,
            final(self)@.statements == old(self)@.statements,
            final(self)@.types == old(self)@.types,
    {
        NotificationsIter {
            raw_connection: &mut self.connection_and_transaction_manager.raw_connection,
        }
    }
}

} // verus!
