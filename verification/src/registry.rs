//! The escrow registry: all escrow records keyed by session identifier, the
//! one-time admin configuration, and the five operations that drive the state
//! machine. Each operation's effect on the registry and on the ledger is
//! given exactly by a spec-level transition function.

use vstd::prelude::*;
use vstd::hash_map::StringHashMap;
use crate::types::Address;
use crate::types::EscrowData;
use crate::types::Error;
use crate::types::new_escrow;
use crate::types::create_decision;
use crate::types::decide_create;
use crate::types::make_escrow;
use crate::types::release_decision;
use crate::types::refund_decision;
use crate::types::admin_refund_decision;
use crate::types::decide_release;
use crate::types::decide_refund;
use crate::types::decide_admin_refund;
use crate::ledger::Ledger;
use crate::ledger::transfer_delta;

verus! {

/// The abstract state of a registry: the configured admin (if any), the
/// registry's own custody address, and the record stored under each session
/// identifier.
pub struct StateV {
    pub admin: Option<Address>,
    pub custody: Address,
    pub records: Map<Seq<char>, EscrowData>,
}

/// Well-formedness of a registry state: every stored record holds a strictly
/// positive amount.
pub open spec fn wf_state(s: StateV) -> bool {
    forall|sid: Seq<char>| #[trigger] s.records.dom().contains(sid) ==> s.records[sid].amount > 0
}

/// The result of `initialize`: succeeds exactly once.
pub open spec fn initialize_result(s: StateV, chainpe_admin: Address) -> Result<(), Error> {
    if s.admin is Some {
        Err(Error::AlreadyInitialized)
    } else {
        Ok(())
    }
}

/// The state after `initialize`: stores the admin on first call, and is
/// untouched by any later call.
pub open spec fn initialize_state(s: StateV, chainpe_admin: Address) -> StateV {
    if s.admin is Some {
        s
    } else {
        StateV { admin: Some(chainpe_admin), ..s }
    }
}

/// The result of `create_escrow`: the caller must prove identity as the
/// customer, and the session identifier must be fresh (a session is never
/// silently overwritten).
pub open spec fn create_result(
    s: StateV,
    caller: Address,
    customer: Address,
    sid: Seq<char>,
) -> Result<(), Error> {
    create_decision(s.records.dom().contains(sid), caller, customer)
}

/// The state after `create_escrow`: on success a fresh `Pending` record,
/// stamped with the clock reading `now`, appears under `sid`; on failure
/// nothing changes.
pub open spec fn create_state(
    s: StateV,
    caller: Address,
    customer: Address,
    merchant: Address,
    amount: i128,
    sid: Seq<char>,
    timeout_seconds: u64,
    now: u64,
) -> StateV {
    if create_result(s, caller, customer, sid) is Ok {
        StateV {
            records: s.records.insert(sid, new_escrow(customer, merchant, amount, timeout_seconds, now)),
            ..s
        }
    } else {
        s
    }
}

/// The balance change `create_escrow` makes at address `a`: on success the
/// deposit moves from the customer into registry custody; on failure nothing
/// moves.
pub open spec fn create_delta(
    s: StateV,
    caller: Address,
    customer: Address,
    amount: i128,
    sid: Seq<char>,
    a: Address,
) -> int {
    if create_result(s, caller, customer, sid) is Ok {
        transfer_delta(customer, s.custody, amount, a)
    } else {
        0
    }
}

/// The result of `release_payment`: `NotFound` for an unknown session,
/// otherwise the per-record release decision.
pub open spec fn release_result(s: StateV, caller: Address, sid: Seq<char>) -> Result<(), Error> {
    if !s.records.dom().contains(sid) {
        Err(Error::NotFound)
    } else {
        match release_decision(s.records[sid], caller) {
            Ok(updated) => Ok(()),
            Err(e) => Err(e),
        }
    }
}

/// The state after `release_payment`: on success the record under `sid` moves
/// to `Completed`; on failure nothing changes.
pub open spec fn release_state(s: StateV, caller: Address, sid: Seq<char>) -> StateV {
    if s.records.dom().contains(sid) {
        match release_decision(s.records[sid], caller) {
            Ok(updated) => StateV { records: s.records.insert(sid, updated), ..s },
            Err(e) => s,
        }
    } else {
        s
    }
}

/// The balance change `release_payment` makes at address `a`: on success the
/// full amount moves from registry custody to the merchant.
pub open spec fn release_delta(s: StateV, caller: Address, sid: Seq<char>, a: Address) -> int {
    if release_result(s, caller, sid) is Ok {
        transfer_delta(s.custody, s.records[sid].merchant, s.records[sid].amount, a)
    } else {
        0
    }
}

/// The result of `refund_payment`: `NotFound` for an unknown session,
/// otherwise the per-record refund decision under the clock reading `now`.
pub open spec fn refund_result(
    s: StateV,
    caller: Address,
    sid: Seq<char>,
    now: u64,
) -> Result<(), Error> {
    if !s.records.dom().contains(sid) {
        Err(Error::NotFound)
    } else {
        match refund_decision(s.records[sid], caller, now) {
            Ok(updated) => Ok(()),
            Err(e) => Err(e),
        }
    }
}

/// The state after `refund_payment`: on success the record under `sid` moves
/// to `Refunded`; on failure nothing changes.
pub open spec fn refund_state(s: StateV, caller: Address, sid: Seq<char>, now: u64) -> StateV {
    if s.records.dom().contains(sid) {
        match refund_decision(s.records[sid], caller, now) {
            Ok(updated) => StateV { records: s.records.insert(sid, updated), ..s },
            Err(e) => s,
        }
    } else {
        s
    }
}

/// The balance change `refund_payment` makes at address `a`: on success the
/// full amount moves from registry custody back to the customer.
pub open spec fn refund_delta(
    s: StateV,
    caller: Address,
    sid: Seq<char>,
    now: u64,
    a: Address,
) -> int {
    if refund_result(s, caller, sid, now) is Ok {
        transfer_delta(s.custody, s.records[sid].customer, s.records[sid].amount, a)
    } else {
        0
    }
}

/// The result of `admin_refund`: the caller must be the configured admin (a
/// registry that was never initialized rejects everyone), the session must
/// exist, and the record must still be `Pending`; the timeout window plays no
/// part.
pub open spec fn admin_refund_result(s: StateV, caller: Address, sid: Seq<char>) -> Result<
    (),
    Error,
> {
    match s.admin {
        None => Err(Error::Unauthorized),
        Some(a) => {
            if caller != a {
                Err(Error::Unauthorized)
            } else if !s.records.dom().contains(sid) {
                Err(Error::NotFound)
            } else {
                match admin_refund_decision(s.admin, s.records[sid], caller) {
                    Ok(updated) => Ok(()),
                    Err(e) => Err(e),
                }
            }
        },
    }
}

/// The state after `admin_refund`: on success the record under `sid` moves to
/// `Refunded`; on failure nothing changes.
pub open spec fn admin_refund_state(s: StateV, caller: Address, sid: Seq<char>) -> StateV {
    if admin_refund_result(s, caller, sid) is Ok {
        match admin_refund_decision(s.admin, s.records[sid], caller) {
            Ok(updated) => StateV { records: s.records.insert(sid, updated), ..s },
            Err(e) => s,
        }
    } else {
        s
    }
}

/// The balance change `admin_refund` makes at address `a`: on success the
/// full amount moves from registry custody back to the customer.
pub open spec fn admin_refund_delta(s: StateV, caller: Address, sid: Seq<char>, a: Address) -> int {
    if admin_refund_result(s, caller, sid) is Ok {
        transfer_delta(s.custody, s.records[sid].customer, s.records[sid].amount, a)
    } else {
        0
    }
}

/// The result of `get_escrow`: the record stored under `sid`, or `NotFound`.
pub open spec fn get_result(s: StateV, sid: Seq<char>) -> Result<EscrowData, Error> {
    if s.records.dom().contains(sid) {
        Ok(s.records[sid])
    } else {
        Err(Error::NotFound)
    }
}

/// The escrow registry. It owns every escrow record, keyed by session
/// identifier, holds the one-time admin configuration, and custodies deposits
/// at its own address until a resolving operation releases or refunds them.
pub struct ChainPeEscrow {
    admin: Option<Address>,
    custody: Address,
    escrows: StringHashMap<EscrowData>,
}

impl View for ChainPeEscrow {
    type V = StateV;

    closed spec fn view(&self) -> StateV {
        StateV { admin: self.admin, custody: self.custody, records: self.escrows@ }
    }
}

/// Inserting a record with a positive amount keeps a registry state
/// well-formed.
proof fn lemma_wf_insert(s: StateV, sid: Seq<char>, rec: EscrowData)
    requires
        wf_state(s),
        rec.amount > 0,
    ensures
        wf_state(StateV { records: s.records.insert(sid, rec), ..s }),
{
    let s1 = StateV { records: s.records.insert(sid, rec), ..s };
    assert forall|k: Seq<char>| #[trigger] s1.records.dom().contains(k) implies s1.records[k].amount
        > 0 by {
        if k != sid {
            assert(s.records.dom().contains(k));
        }
    }
}

impl ChainPeEscrow {
    /// A fresh registry custodying funds at `custody`: no admin configured,
    /// no records stored.
    pub fn new(custody: Address) -> (s: Self)
        ensures
            s@.admin is None,
            s@.custody == custody,
            s@.records == Map::<Seq<char>, EscrowData>::empty(),
            wf_state(s@),
    {
        ChainPeEscrow { admin: None, custody, escrows: StringHashMap::new() }
    }

    /// Stores `chainpe_admin` as the sole admin. Succeeds exactly once: a
    /// second call fails with `AlreadyInitialized` and leaves the stored
    /// admin, and everything else, untouched.
    pub fn initialize(&mut self, chainpe_admin: Address) -> (r: Result<(), Error>)
        ensures
            r == initialize_result(old(self)@, chainpe_admin),
            final(self)@ == initialize_state(old(self)@, chainpe_admin),
            wf_state(old(self)@) ==> wf_state(final(self)@),
    {
        if self.admin.is_some() {
            return Err(Error::AlreadyInitialized);
        }
        self.admin = Some(chainpe_admin);
        Ok(())
    }

    /// Creates a new escrow: the caller must prove identity as `customer`,
    /// the amount must be positive, and the session identifier must be fresh.
    /// On success the deposit moves from the customer into registry custody
    /// and a `Pending` record, stamped with the clock reading `now`, is
    /// stored under `session_id`; on failure neither the registry nor the
    /// ledger changes.
    pub fn create_escrow(
        &mut self,
        ledger: &mut Ledger,
        caller: Address,
        customer: Address,
        merchant: Address,
        amount: i128,
        session_id: String,
        timeout_seconds: u64,
        now: u64,
    ) -> (r: Result<(), Error>)
        requires
            wf_state(old(self)@),
            old(ledger).wf(),
            amount > 0,
            create_result(old(self)@, caller, customer, session_id@) is Ok ==> (old(
                ledger,
            ).balance(customer) >= amount && (customer != old(self)@.custody ==> old(
                ledger,
            ).balance(old(self)@.custody) + amount <= i128::MAX)),
        ensures
            r == create_result(old(self)@, caller, customer, session_id@),
            final(self)@ == create_state(
                old(self)@,
                caller,
                customer,
                merchant,
                amount,
                session_id@,
                timeout_seconds,
                now,
            ),
            forall|a: Address|
                #[trigger] final(ledger).balance(a) == old(ledger).balance(a) + create_delta(
                    old(self)@,
                    caller,
                    customer,
                    amount,
                    session_id@,
                    a,
                ),
            wf_state(final(self)@),
            final(ledger).wf(),
    {
        let exists = self.escrows.contains_key(session_id.as_str());
        match decide_create(exists, caller, customer) {
            Err(e) => {
                return Err(e);
            },
            Ok(()) => {},
        }
        ledger.transfer(customer, self.custody, amount);
        let rec = make_escrow(customer, merchant, amount, timeout_seconds, now);
        proof {
            lemma_wf_insert(old(self)@, session_id@, rec);
        }
        self.escrows.insert(session_id, rec);
        Ok(())
    }

    /// Releases a pending escrow to its merchant: the caller must prove
    /// identity as the record's merchant and the record must still be
    /// `Pending`. On success the full amount moves from registry custody to
    /// the merchant and the record moves to `Completed`; on failure neither
    /// the registry nor the ledger changes.
    pub fn release_payment(&mut self, ledger: &mut Ledger, caller: Address, session_id: String) -> (r:
        Result<(), Error>)
        requires
            wf_state(old(self)@),
            old(ledger).wf(),
            release_result(old(self)@, caller, session_id@) is Ok ==> (old(ledger).balance(
                old(self)@.custody,
            ) >= old(self)@.records[session_id@].amount && (old(
                self,
            )@.records[session_id@].merchant != old(self)@.custody ==> old(ledger).balance(
                old(self)@.records[session_id@].merchant,
            ) + old(self)@.records[session_id@].amount <= i128::MAX)),
        ensures
            r == release_result(old(self)@, caller, session_id@),
            final(self)@ == release_state(old(self)@, caller, session_id@),
            forall|a: Address|
                #[trigger] final(ledger).balance(a) == old(ledger).balance(a) + release_delta(
                    old(self)@,
                    caller,
                    session_id@,
                    a,
                ),
            wf_state(final(self)@),
            final(ledger).wf(),
    {
        let rec = match self.escrows.get(session_id.as_str()) {
            Some(found) => *found,
            None => {
                return Err(Error::NotFound);
            },
        };
        match decide_release(&rec, caller) {
            Err(e) => Err(e),
            Ok(updated) => {
                ledger.transfer(self.custody, rec.merchant, rec.amount);
                proof {
                    lemma_wf_insert(old(self)@, session_id@, updated);
                }
                self.escrows.insert(session_id, updated);
                Ok(())
            },
        }
    }

    /// Refunds a pending escrow to its customer after the timeout window has
    /// elapsed: the caller must prove identity as the record's customer, the
    /// record must still be `Pending`, and the clock reading `now` must be at
    /// least `created_at + timeout_seconds`. On success the full amount moves
    /// from registry custody back to the customer and the record moves to
    /// `Refunded`; on failure neither the registry nor the ledger changes.
    pub fn refund_payment(
        &mut self,
        ledger: &mut Ledger,
        caller: Address,
        session_id: String,
        now: u64,
    ) -> (r: Result<(), Error>)
        requires
            wf_state(old(self)@),
            old(ledger).wf(),
            refund_result(old(self)@, caller, session_id@, now) is Ok ==> (old(ledger).balance(
                old(self)@.custody,
            ) >= old(self)@.records[session_id@].amount && (old(
                self,
            )@.records[session_id@].customer != old(self)@.custody ==> old(ledger).balance(
                old(self)@.records[session_id@].customer,
            ) + old(self)@.records[session_id@].amount <= i128::MAX)),
        ensures
            r == refund_result(old(self)@, caller, session_id@, now),
            final(self)@ == refund_state(old(self)@, caller, session_id@, now),
            forall|a: Address|
                #[trigger] final(ledger).balance(a) == old(ledger).balance(a) + refund_delta(
                    old(self)@,
                    caller,
                    session_id@,
                    now,
                    a,
                ),
            wf_state(final(self)@),
            final(ledger).wf(),
    {
        let rec = match self.escrows.get(session_id.as_str()) {
            Some(found) => *found,
            None => {
                return Err(Error::NotFound);
            },
        };
        match decide_refund(&rec, caller, now) {
            Err(e) => Err(e),
            Ok(updated) => {
                ledger.transfer(self.custody, rec.customer, rec.amount);
                proof {
                    lemma_wf_insert(old(self)@, session_id@, updated);
                }
                self.escrows.insert(session_id, updated);
                Ok(())
            },
        }
    }

    /// Forces a refund of a pending escrow, bypassing the timeout window: the
    /// caller must prove identity as the configured admin, and a registry
    /// that was never initialized rejects everyone. On success the full
    /// amount moves from registry custody back to the customer and the record
    /// moves to `Refunded`; on failure neither the registry nor the ledger
    /// changes.
    pub fn admin_refund(&mut self, ledger: &mut Ledger, caller: Address, session_id: String) -> (r:
        Result<(), Error>)
        requires
            wf_state(old(self)@),
            old(ledger).wf(),
            admin_refund_result(old(self)@, caller, session_id@) is Ok ==> (old(ledger).balance(
                old(self)@.custody,
            ) >= old(self)@.records[session_id@].amount && (old(
                self,
            )@.records[session_id@].customer != old(self)@.custody ==> old(ledger).balance(
                old(self)@.records[session_id@].customer,
            ) + old(self)@.records[session_id@].amount <= i128::MAX)),
        ensures
            r == admin_refund_result(old(self)@, caller, session_id@),
            final(self)@ == admin_refund_state(old(self)@, caller, session_id@),
            forall|a: Address|
                #[trigger] final(ledger).balance(a) == old(ledger).balance(a) + admin_refund_delta(
                    old(self)@,
                    caller,
                    session_id@,
                    a,
                ),
            wf_state(final(self)@),
            final(ledger).wf(),
    {
        let admin = match self.admin {
            Some(a) => a,
            None => {
                return Err(Error::Unauthorized);
            },
        };
        if caller != admin {
            return Err(Error::Unauthorized);
        }
        let rec = match self.escrows.get(session_id.as_str()) {
            Some(found) => *found,
            None => {
                return Err(Error::NotFound);
            },
        };
        match decide_admin_refund(self.admin, &rec, caller) {
            Err(e) => Err(e),
            Ok(updated) => {
                ledger.transfer(self.custody, rec.customer, rec.amount);
                proof {
                    lemma_wf_insert(old(self)@, session_id@, updated);
                }
                self.escrows.insert(session_id, updated);
                Ok(())
            },
        }
    }

    /// Reads the record stored under `session_id`. A pure read: no side
    /// effects, no authorization required.
    pub fn get_escrow(&self, session_id: String) -> (r: Result<EscrowData, Error>)
        ensures
            r == get_result(self@, session_id@),
    {
        match self.escrows.get(session_id.as_str()) {
            Some(found) => Ok(*found),
            None => Err(Error::NotFound),
        }
    }
}

} // verus!
