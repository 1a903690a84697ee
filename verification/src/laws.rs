//! The guarantees of the escrow state machine, stated over the spec-level
//! transition functions that the registry's contracts are written in, and
//! proved for every state and every input the statement admits.

use vstd::prelude::*;
use crate::types::Address;
use crate::types::EscrowData;
use crate::types::EscrowStatus;
use crate::types::Error;
use crate::types::new_escrow;
use crate::registry::StateV;
use crate::registry::initialize_result;
use crate::registry::initialize_state;
use crate::registry::create_result;
use crate::registry::create_state;
use crate::registry::release_result;
use crate::registry::release_state;
use crate::registry::release_delta;
use crate::registry::refund_result;
use crate::registry::refund_state;
use crate::registry::refund_delta;
use crate::registry::admin_refund_result;
use crate::registry::admin_refund_state;
use crate::registry::admin_refund_delta;
use crate::registry::get_result;

verus! {

/// Creating an escrow and immediately reading it back yields exactly the
/// record that was written: status `Pending`, the deposited amount unchanged,
/// and `created_at` equal to the creation-time clock reading.
pub proof fn lemma_create_then_get(
    s: StateV,
    caller: Address,
    customer: Address,
    merchant: Address,
    amount: i128,
    sid: Seq<char>,
    timeout_seconds: u64,
    now: u64,
)
    requires
        amount > 0,
        create_result(s, caller, customer, sid) is Ok,
    ensures
        ({
            let s1 = create_state(s, caller, customer, merchant, amount, sid, timeout_seconds, now);
            let rec = new_escrow(customer, merchant, amount, timeout_seconds, now);
            get_result(s1, sid) == Ok::<EscrowData, Error>(rec) && rec.status
                == EscrowStatus::Pending && rec.amount == amount && rec.created_at == now
        }),
{
}

/// Once a record has left `Pending`, it is settled for good: every further
/// `release_payment`, `refund_payment` or `admin_refund` against its session
/// fails, moves no funds, and leaves the whole registry state as it was,
/// whoever calls and whatever the clock reads.
pub proof fn lemma_settled_record_is_final(s: StateV, sid: Seq<char>)
    requires
        s.records.dom().contains(sid),
        s.records[sid].status != EscrowStatus::Pending,
    ensures
        forall|c: Address| #[trigger] release_result(s, c, sid) is Err,
        forall|c: Address| #[trigger] release_state(s, c, sid) == s,
        forall|c: Address, a: Address| #[trigger] release_delta(s, c, sid, a) == 0,
        forall|c: Address, now: u64| #[trigger] refund_result(s, c, sid, now) is Err,
        forall|c: Address, now: u64| #[trigger] refund_state(s, c, sid, now) == s,
        forall|c: Address, now: u64, a: Address| #[trigger] refund_delta(s, c, sid, now, a) == 0,
        forall|c: Address| #[trigger] admin_refund_result(s, c, sid) is Err,
        forall|c: Address| #[trigger] admin_refund_state(s, c, sid) == s,
        forall|c: Address, a: Address| #[trigger] admin_refund_delta(s, c, sid, a) == 0,
{
}

/// Releasing a pending escrow as its merchant succeeds, moves the record to
/// `Completed`, and increases the merchant's balance by exactly the amount
/// held; afterwards the record is settled, so no further resolving operation
/// can touch it or move funds again. The merchant is assumed distinct from
/// the registry's own custody address.
pub proof fn lemma_release_completes_and_pays(s: StateV, caller: Address, sid: Seq<char>)
    requires
        s.records.dom().contains(sid),
        s.records[sid].status == EscrowStatus::Pending,
        caller == s.records[sid].merchant,
        s.records[sid].merchant != s.custody,
    ensures
        release_result(s, caller, sid) == Ok::<(), Error>(()),
        ({
            let s1 = release_state(s, caller, sid);
            s1.records.dom().contains(sid) && s1.records[sid].status == EscrowStatus::Completed
                && s1.records[sid].amount == s.records[sid].amount && release_delta(
                s,
                caller,
                sid,
                s.records[sid].merchant,
            ) == s.records[sid].amount as int && release_delta(s, caller, sid, s.custody) == -(
            s.records[sid].amount as int) && (forall|c: Address|
                #[trigger] release_result(s1, c, sid) is Err) && (forall|c: Address, now: u64|
                #[trigger] refund_result(s1, c, sid, now) is Err) && (forall|c: Address|
                #[trigger] admin_refund_result(s1, c, sid) is Err) && (forall|c: Address|
                #[trigger] release_state(s1, c, sid) == s1) && (forall|c: Address, now: u64|
                #[trigger] refund_state(s1, c, sid, now) == s1) && (forall|c: Address|
                #[trigger] admin_refund_state(s1, c, sid) == s1) && (forall|c: Address, a: Address|
                #[trigger] release_delta(s1, c, sid, a) == 0) && (forall|
                c: Address,
                now: u64,
                a: Address,
            |
                #[trigger] refund_delta(s1, c, sid, now, a) == 0) && (forall|
                c: Address,
                a: Address,
            |
                #[trigger] admin_refund_delta(s1, c, sid, a) == 0)
        }),
{
    let s1 = release_state(s, caller, sid);
    lemma_settled_record_is_final(s1, sid);
}

/// While the timeout window has not elapsed, a customer refund of a pending
/// escrow fails with `TimeoutNotReached`, moves no funds, and leaves the
/// registry state as it was.
pub proof fn lemma_early_refund_rejected(s: StateV, caller: Address, sid: Seq<char>, now: u64)
    requires
        s.records.dom().contains(sid),
        s.records[sid].status == EscrowStatus::Pending,
        caller == s.records[sid].customer,
        now < s.records[sid].created_at + s.records[sid].timeout_seconds,
    ensures
        refund_result(s, caller, sid, now) == Err::<(), Error>(Error::TimeoutNotReached),
        refund_state(s, caller, sid, now) == s,
        forall|a: Address| #[trigger] refund_delta(s, caller, sid, now, a) == 0,
{
}

/// Once the timeout window has elapsed, a customer refund of a pending escrow
/// succeeds, moves the record to `Refunded`, and restores the customer's
/// balance by exactly the amount held. The customer is assumed distinct from
/// the registry's own custody address.
pub proof fn lemma_timeout_refund_succeeds(s: StateV, caller: Address, sid: Seq<char>, now: u64)
    requires
        s.records.dom().contains(sid),
        s.records[sid].status == EscrowStatus::Pending,
        caller == s.records[sid].customer,
        now >= s.records[sid].created_at + s.records[sid].timeout_seconds,
        s.records[sid].customer != s.custody,
    ensures
        refund_result(s, caller, sid, now) == Ok::<(), Error>(()),
        ({
            let s1 = refund_state(s, caller, sid, now);
            s1.records.dom().contains(sid) && s1.records[sid].status == EscrowStatus::Refunded
                && s1.records[sid].amount == s.records[sid].amount
        }),
        refund_delta(s, caller, sid, now, s.records[sid].customer) == s.records[sid].amount as int,
        refund_delta(s, caller, sid, now, s.custody) == -(s.records[sid].amount as int),
{
}

/// The configured admin can force a refund of a pending escrow at any point:
/// the transition takes no clock reading, so elapsed time plays no part. The
/// record moves to `Refunded` and the customer's balance is restored by
/// exactly the amount held. The customer is assumed distinct from the
/// registry's own custody address.
pub proof fn lemma_admin_refund_bypasses_timeout(s: StateV, caller: Address, sid: Seq<char>)
    requires
        s.admin == Some(caller),
        s.records.dom().contains(sid),
        s.records[sid].status == EscrowStatus::Pending,
        s.records[sid].customer != s.custody,
    ensures
        admin_refund_result(s, caller, sid) == Ok::<(), Error>(()),
        ({
            let s1 = admin_refund_state(s, caller, sid);
            s1.records.dom().contains(sid) && s1.records[sid].status == EscrowStatus::Refunded
                && s1.records[sid].amount == s.records[sid].amount
        }),
        admin_refund_delta(s, caller, sid, s.records[sid].customer) == s.records[sid].amount as int,
        admin_refund_delta(s, caller, sid, s.custody) == -(s.records[sid].amount as int),
{
}

/// Anyone but the configured admin is rejected with `Unauthorized`, and so is
/// everyone while no admin has been configured at all; nothing changes and no
/// funds move, whatever record the session holds.
pub proof fn lemma_admin_refund_requires_admin(s: StateV, caller: Address, sid: Seq<char>)
    requires
        s.admin != Some(caller),
    ensures
        admin_refund_result(s, caller, sid) == Err::<(), Error>(Error::Unauthorized),
        admin_refund_state(s, caller, sid) == s,
        forall|a: Address| #[trigger] admin_refund_delta(s, caller, sid, a) == 0,
{
}

/// `create_escrow` touches nothing but the one fresh record it writes: the
/// configuration and every existing record are untouched, and a session that
/// is already in use is never overwritten.
pub proof fn lemma_create_frame(
    s: StateV,
    caller: Address,
    customer: Address,
    merchant: Address,
    amount: i128,
    sid: Seq<char>,
    timeout_seconds: u64,
    now: u64,
)
    ensures
        ({
            let s1 = create_state(s, caller, customer, merchant, amount, sid, timeout_seconds, now);
            s1.admin == s.admin && s1.custody == s.custody && (forall|k: Seq<char>|
                k != sid ==> (#[trigger] s1.records.dom().contains(k) <==> s.records.dom().contains(
                    k,
                ))) && (forall|k: Seq<char>|
                k != sid && s.records.dom().contains(k) ==> #[trigger] s1.records[k]
                    == s.records[k]) && (s.records.dom().contains(sid) ==> s1 == s)
        }),
{
}

/// A record, once created, keeps its counterparties, its amount and its
/// timing data for good, and its status only ever moves out of `Pending`:
/// whatever a resolving operation does, it changes at most the status of the
/// one record it names, and every other record and the configuration stay as
/// they were.
pub proof fn lemma_resolve_frame(s: StateV, caller: Address, sid: Seq<char>, now: u64)
    ensures
        ({
            let s1 = release_state(s, caller, sid);
            frame_holds(s, s1, sid, EscrowStatus::Completed)
        }),
        ({
            let s1 = refund_state(s, caller, sid, now);
            frame_holds(s, s1, sid, EscrowStatus::Refunded)
        }),
        ({
            let s1 = admin_refund_state(s, caller, sid);
            frame_holds(s, s1, sid, EscrowStatus::Refunded)
        }),
{
}

/// What a resolving operation may do to a state, at most: leave the
/// configuration and every other record alone, and move the named record's
/// status from `Pending` to `target` while keeping every other field.
pub open spec fn frame_holds(s: StateV, s1: StateV, sid: Seq<char>, target: EscrowStatus) -> bool {
    s1.admin == s.admin && s1.custody == s.custody && (forall|k: Seq<char>|
        #[trigger] s1.records.dom().contains(k) <==> s.records.dom().contains(k)) && (forall|
        k: Seq<char>,
    |
        k != sid && s.records.dom().contains(k) ==> #[trigger] s1.records[k] == s.records[k]) && (
    s.records.dom().contains(sid) ==> ({
        let before = s.records[sid];
        let after = s1.records[sid];
        after.customer == before.customer && after.merchant == before.merchant && after.amount
            == before.amount && after.created_at == before.created_at && after.timeout_seconds
            == before.timeout_seconds && (after.status == before.status || (before.status
            == EscrowStatus::Pending && after.status == target))
    }))
}

/// Initialization succeeds exactly once: the first call stores the admin, and
/// a second call, whatever address it carries, fails with
/// `AlreadyInitialized` and leaves the stored admin untouched.
pub proof fn lemma_initialize_only_once(s: StateV, first_admin: Address, second_admin: Address)
    requires
        s.admin is None,
    ensures
        initialize_result(s, first_admin) == Ok::<(), Error>(()),
        ({
            let s1 = initialize_state(s, first_admin);
            s1.admin == Some(first_admin) && s1.records == s.records && initialize_result(
                s1,
                second_admin,
            ) == Err::<(), Error>(Error::AlreadyInitialized) && initialize_state(s1, second_admin)
                == s1
        }),
{
}

} // verus!
