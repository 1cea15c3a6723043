//! What becomes of the record of the open transaction.
use crate::connection::{AnsiTransactionManager, PgConnection};
use crate::error::{Error, QueryResult};
use crate::raw::PgTransactionStatus;
use crate::transaction_status::{
    InTransactionStatus, TransactionDepthChange, TransactionManagerStatus,
    ValidTransactionManagerStatus,
};
use vstd::prelude::*;

verus! {

/// The record of an open transaction.
pub open spec fn open_at(
    transaction_depth: u32,
    requires_rollback_maybe_up_to_top_level: bool,
    test_transaction: bool,
) -> TransactionManagerStatus {
    TransactionManagerStatus::Valid(
        ValidTransactionManagerStatus {
            in_transaction: Some(
                InTransactionStatus {
                    transaction_depth,
                    requires_rollback_maybe_up_to_top_level,
                    test_transaction,
                },
            ),
        },
    )
}

/// The record without an open transaction.
pub open spec fn nothing_open() -> TransactionManagerStatus {
    TransactionManagerStatus::Valid(ValidTransactionManagerStatus { in_transaction: None })
}

/// The open transaction of a record.
pub open spec fn open_transaction(record: TransactionManagerStatus) -> Option<InTransactionStatus> {
    match record {
        TransactionManagerStatus::Valid(valid) => valid.in_transaction,
        TransactionManagerStatus::InError => None,
    }
}

/// What a record is once it has followed the server.
pub open spec fn followed(
    record: TransactionManagerStatus,
    server: PgTransactionStatus,
    failed: bool,
) -> TransactionManagerStatus {
    let transaction = open_transaction(record);
    match server {
        PgTransactionStatus::Idle => nothing_open(),
        PgTransactionStatus::Unknown => TransactionManagerStatus::InError,
        PgTransactionStatus::Active => record,
        PgTransactionStatus::InError => match transaction {
            Some(t) => open_at(t.transaction_depth, true, t.test_transaction),
            None => record,
        },
        PgTransactionStatus::InTransaction => match transaction {
            Some(t) => if failed {
                record
            } else {
                open_at(t.transaction_depth, false, t.test_transaction)
            },
            None => if failed {
                TransactionManagerStatus::InError
            } else {
                record
            },
        },
    }
}

/// The record follows the server after each query.
///
/// A failed block requires a rollback, and nothing else about the transaction changes. A lost
/// connection breaks the record. A server without a block means that nothing is open. In a sound
/// block a success takes the requirement away, and a failure leaves an open transaction as it is,
/// but breaks a record that knows of none.
pub proof fn law_the_record_follows_the_server(
    record: &mut TransactionManagerStatus,
    server: PgTransactionStatus,
    failed: bool,
    done: (),
)
    requires
        call_ensures(TransactionManagerStatus::update, (record, server, failed), done),
    ensures
        *final(record) == followed(*old(record), server, failed),
{
}

/// The same holds of what contracts say of it.
pub proof fn law_after_query_is_following(
    record: TransactionManagerStatus,
    server: PgTransactionStatus,
    failed: bool,
)
    ensures
        record.after_query(server, failed) == followed(record, server, failed),
{
}

/// The requirement of a rollback is set on an open transaction alone, and nothing else about it
/// changes.
pub proof fn law_a_rollback_requirement_is_set(
    record: &mut TransactionManagerStatus,
    to: bool,
    done: (),
)
    requires
        call_ensures(
            TransactionManagerStatus::set_requires_rollback_maybe_up_to_top_level,
            (record, to),
            done,
        ),
    ensures
        *final(record) == match open_transaction(*old(record)) {
            Some(t) => open_at(t.transaction_depth, to, t.test_transaction),
            None => *old(record),
        },
{
}

/// A record can be declared broken.
pub proof fn law_a_record_is_broken(record: &mut TransactionManagerStatus, done: ())
    requires
        call_ensures(TransactionManagerStatus::set_in_error, (record,), done),
    ensures
        *final(record) == TransactionManagerStatus::InError,
{
}

/// An open transaction can be marked as a test transaction, and nothing else about it changes.
pub proof fn law_a_test_transaction_is_marked(record: &mut TransactionManagerStatus, done: ())
    requires
        call_ensures(TransactionManagerStatus::set_test_transaction_flag, (record,), done),
    ensures
        *final(record) == match open_transaction(*old(record)) {
            Some(t) => open_at(
                t.transaction_depth,
                t.requires_rollback_maybe_up_to_top_level,
                true,
            ),
            None => *old(record),
        },
{
}

/// The depth that is told is the one of the open transaction; nothing if none is open, and an
/// error if the record is broken.
pub proof fn law_the_depth_is_told(
    record: &TransactionManagerStatus,
    depth: QueryResult<Option<u32>>,
)
    requires
        call_ensures(TransactionManagerStatus::transaction_depth, (record,), depth),
    ensures
        depth == match *record {
            TransactionManagerStatus::InError => QueryResult::<Option<u32>>::Err(
                Error::BrokenTransactionManager,
            ),
            TransactionManagerStatus::Valid(valid) => match valid.in_transaction {
                Some(t) => Ok(Some(t.transaction_depth)),
                None => Ok(None),
            },
        },
{
}

/// The depth that is told of a record that can be relied on.
pub proof fn law_the_valid_depth_is_told(
    record: &ValidTransactionManagerStatus,
    depth: Option<u32>,
)
    requires
        call_ensures(ValidTransactionManagerStatus::transaction_depth, (record,), depth),
    ensures
        depth == match record.in_transaction {
            Some(t) => Some(t.transaction_depth),
            None => None,
        },
{
}

/// A step up opens a transaction, or adds one to its depth, which stays where it cannot grow. A
/// step down takes one away from the depth, or closes the transaction, and is refused where none
/// is open. Nothing else about the transaction changes.
pub proof fn law_a_level_is_one_step(
    record: &mut ValidTransactionManagerStatus,
    change: TransactionDepthChange,
    result: QueryResult<()>,
)
    requires
        call_ensures(
            ValidTransactionManagerStatus::change_transaction_depth,
            (record, change),
            result,
        ),
    ensures
        result == if change == TransactionDepthChange::DecreaseDepth && old(record).in_transaction
            is None {
            QueryResult::<()>::Err(Error::NotInTransaction)
        } else {
            Ok(())
        },
        match (old(record).in_transaction, change) {
            (None, TransactionDepthChange::IncreaseDepth) => final(record).in_transaction == Some(
                InTransactionStatus {
                    transaction_depth: 1,
                    requires_rollback_maybe_up_to_top_level: false,
                    test_transaction: false,
                },
            ),
            (None, TransactionDepthChange::DecreaseDepth) => final(record).in_transaction is None,
            (Some(before), TransactionDepthChange::IncreaseDepth) => {
                &&& final(record).in_transaction matches Some(after)
                &&& after.transaction_depth == if before.transaction_depth == u32::MAX {
                    u32::MAX as int
                } else {
                    before.transaction_depth + 1
                }
                &&& after.requires_rollback_maybe_up_to_top_level
                    == before.requires_rollback_maybe_up_to_top_level
                &&& after.test_transaction == before.test_transaction
            },
            (Some(before), TransactionDepthChange::DecreaseDepth) => if before.transaction_depth
                <= 1 {
                final(record).in_transaction is None
            } else {
                &&& final(record).in_transaction matches Some(after)
                &&& after.transaction_depth == before.transaction_depth - 1
                &&& after.requires_rollback_maybe_up_to_top_level
                    == before.requires_rollback_maybe_up_to_top_level
                &&& after.test_transaction == before.test_transaction
            },
        },
{
}

/// A record begins without an open transaction.
pub proof fn law_a_record_begins_idle(
    record: TransactionManagerStatus,
    manager: AnsiTransactionManager,
)
    requires
        call_ensures(TransactionManagerStatus::default, (), record),
        call_ensures(AnsiTransactionManager::default, (), manager),
    ensures
        record == nothing_open(),
        manager.status == nothing_open(),
{
}

/// A connection must not be handed out again if its record is broken, or an open transaction is no
/// test transaction. Asking changes nothing.
pub proof fn law_a_pool_is_told_of_open_transactions(
    conn: &mut PgConnection,
    broken: bool,
    other: &mut PgConnection,
    manager_broken: bool,
)
    requires
        call_ensures(PgConnection::is_broken, (conn,), broken),
        call_ensures(
            AnsiTransactionManager::is_broken_transaction_manager,
            (other,),
            manager_broken,
        ),
    ensures
        broken == match old(conn).connection_and_transaction_manager.transaction_state.status {
            TransactionManagerStatus::InError => true,
            TransactionManagerStatus::Valid(valid) => match valid.in_transaction {
                Some(t) => !t.test_transaction,
                None => false,
            },
        },
        final(conn)@ == old(conn)@,
        manager_broken == match old(
            other,
        ).connection_and_transaction_manager.transaction_state.status {
            TransactionManagerStatus::InError => true,
            TransactionManagerStatus::Valid(valid) => match valid.in_transaction {
                Some(t) => !t.test_transaction,
                None => false,
            },
        },
        final(other)@ == old(other)@,
{
}

/// A record is well formed just if an open transaction has a depth of at least one.
pub proof fn law_well_formed_records(record: TransactionManagerStatus)
    ensures
        record.wf() <==> (open_transaction(record) matches Some(t) ==> t.transaction_depth >= 1),
{
}

} // verus!
