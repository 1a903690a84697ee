//! Core data types of the escrow controller and the per-record decision
//! rules: who may resolve a pending escrow, and into which terminal state.

use vstd::prelude::*;

verus! {

/// A principal on the ledger, identified by an opaque numeric handle. The
/// controller never inspects an address beyond comparing it for identity.
#[derive(Clone, Copy, PartialEq, Eq, Structural, Debug)]
pub struct Address {
    pub id: u64,
}

/// The lifecycle of an escrow record: `Pending` on creation, then exactly one
/// move to a terminal state, `Completed` (funds released to the merchant) or
/// `Refunded` (funds returned to the customer).
#[derive(Clone, Copy, PartialEq, Eq, Structural, Debug)]
pub enum EscrowStatus {
    Pending,
    Completed,
    Refunded,
}

/// The closed error taxonomy of the controller.
#[derive(Clone, Copy, PartialEq, Eq, Structural, Debug)]
pub enum Error {
    NotFound,
    AlreadyCompleted,
    TimeoutNotReached,
    Unauthorized,
    InvalidStatus,
    AlreadyInitialized,
}

/// One unit of custody: the two counterparties, the amount held, the current
/// status, and the timing data that governs the customer's refund window.
/// Every field but `status` is immutable after creation.
#[derive(Clone, Copy, PartialEq, Eq, Structural, Debug)]
pub struct EscrowData {
    pub customer: Address,
    pub merchant: Address,
    pub amount: i128,
    pub status: EscrowStatus,
    pub created_at: u64,
    pub timeout_seconds: u64,
}

/// The record written for a fresh escrow: `Pending`, stamped with the
/// creation-time clock reading.
pub open spec fn new_escrow(
    customer: Address,
    merchant: Address,
    amount: i128,
    timeout_seconds: u64,
    now: u64,
) -> EscrowData {
    EscrowData {
        customer,
        merchant,
        amount,
        status: EscrowStatus::Pending,
        created_at: now,
        timeout_seconds,
    }
}

/// The customer's refund window has elapsed: the clock reads at least
/// `created_at + timeout_seconds` (exact arithmetic, no wrap-around).
pub open spec fn timeout_reached(rec: EscrowData, now: u64) -> bool {
    now >= rec.created_at + rec.timeout_seconds
}

/// Whether a creation request is admitted: the caller must prove identity as
/// the customer whose funds are deposited, and the session identifier must be
/// fresh (`exists` says whether a record is already stored under it); a
/// session is never silently overwritten.
pub open spec fn create_decision(exists: bool, caller: Address, customer: Address) -> Result<
    (),
    Error,
> {
    if caller != customer {
        Err(Error::Unauthorized)
    } else if exists {
        Err(Error::InvalidStatus)
    } else {
        Ok(())
    }
}

/// Decides a creation request, given whether a record already sits under the
/// requested session identifier. A host shim deposits the amount into custody
/// and stores the record built by [`make_escrow`] exactly when this returns
/// `Ok`.
pub fn decide_create(exists: bool, caller: Address, customer: Address) -> (r: Result<(), Error>)
    ensures
        r == create_decision(exists, caller, customer),
{
    if caller != customer {
        return Err(Error::Unauthorized);
    }
    if exists {
        return Err(Error::InvalidStatus);
    }
    Ok(())
}

/// Builds the record a fresh escrow stores: `Pending`, stamped with the
/// trusted clock reading `now`. The amount deposited must be positive.
pub fn make_escrow(
    customer: Address,
    merchant: Address,
    amount: i128,
    timeout_seconds: u64,
    now: u64,
) -> (r: EscrowData)
    requires
        amount > 0,
    ensures
        r == new_escrow(customer, merchant, amount, timeout_seconds, now),
{
    EscrowData {
        customer,
        merchant,
        amount,
        status: EscrowStatus::Pending,
        created_at: now,
        timeout_seconds,
    }
}

/// How a release request resolves a record: only the record's merchant may
/// release, and only while the record is still `Pending`; a record already in
/// a terminal state reports `AlreadyCompleted` whichever terminal state it is
/// in.
pub open spec fn release_decision(rec: EscrowData, caller: Address) -> Result<EscrowData, Error> {
    if caller != rec.merchant {
        Err(Error::Unauthorized)
    } else if rec.status != EscrowStatus::Pending {
        Err(Error::AlreadyCompleted)
    } else {
        Ok(EscrowData { status: EscrowStatus::Completed, ..rec })
    }
}

/// How a customer refund request resolves a record: only the record's
/// customer may refund, only while `Pending`, and only once the timeout
/// window has elapsed; the timeout is checked after the status, so a settled
/// record reports `InvalidStatus` even when it is also past its timeout.
pub open spec fn refund_decision(rec: EscrowData, caller: Address, now: u64) -> Result<
    EscrowData,
    Error,
> {
    if caller != rec.customer {
        Err(Error::Unauthorized)
    } else if rec.status != EscrowStatus::Pending {
        Err(Error::InvalidStatus)
    } else if !timeout_reached(rec, now) {
        Err(Error::TimeoutNotReached)
    } else {
        Ok(EscrowData { status: EscrowStatus::Refunded, ..rec })
    }
}

/// How an administrator-forced refund resolves a record: the caller must be
/// the configured admin (no admin configured rejects everyone), the record
/// must still be `Pending`, and the timeout window is bypassed entirely.
pub open spec fn admin_refund_decision(
    admin: Option<Address>,
    rec: EscrowData,
    caller: Address,
) -> Result<EscrowData, Error> {
    match admin {
        None => Err(Error::Unauthorized),
        Some(a) => {
            if caller != a {
                Err(Error::Unauthorized)
            } else if rec.status != EscrowStatus::Pending {
                Err(Error::InvalidStatus)
            } else {
                Ok(EscrowData { status: EscrowStatus::Refunded, ..rec })
            }
        },
    }
}

/// Decides a release request against one record. A host shim performs the
/// movement of funds (custody to merchant, `rec.amount`) exactly when this
/// returns `Ok`, and stores the returned record.
pub fn decide_release(rec: &EscrowData, caller: Address) -> (r: Result<EscrowData, Error>)
    ensures
        r == release_decision(*rec, caller),
{
    if caller != rec.merchant {
        return Err(Error::Unauthorized);
    }
    if rec.status != EscrowStatus::Pending {
        return Err(Error::AlreadyCompleted);
    }
    Ok(EscrowData { status: EscrowStatus::Completed, ..*rec })
}

/// Decides a customer refund request against one record, given the trusted
/// clock reading `now`. A host shim moves `rec.amount` from custody back to
/// the customer exactly when this returns `Ok`.
pub fn decide_refund(rec: &EscrowData, caller: Address, now: u64) -> (r: Result<EscrowData, Error>)
    ensures
        r == refund_decision(*rec, caller, now),
{
    if caller != rec.customer {
        return Err(Error::Unauthorized);
    }
    if rec.status != EscrowStatus::Pending {
        return Err(Error::InvalidStatus);
    }
    if (now as u128) < (rec.created_at as u128) + (rec.timeout_seconds as u128) {
        return Err(Error::TimeoutNotReached);
    }
    Ok(EscrowData { status: EscrowStatus::Refunded, ..*rec })
}

/// Decides an administrator-forced refund against one record. A host shim
/// moves `rec.amount` from custody back to the customer exactly when this
/// returns `Ok`.
pub fn decide_admin_refund(admin: Option<Address>, rec: &EscrowData, caller: Address) -> (r: Result<
    EscrowData,
    Error,
>)
    ensures
        r == admin_refund_decision(admin, *rec, caller),
{
    match admin {
        None => Err(Error::Unauthorized),
        Some(a) => {
            if caller != a {
                Err(Error::Unauthorized)
            } else if rec.status != EscrowStatus::Pending {
                Err(Error::InvalidStatus)
            } else {
                Ok(EscrowData { status: EscrowStatus::Refunded, ..*rec })
            }
        },
    }
}

} // verus!
