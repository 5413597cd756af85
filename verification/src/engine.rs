//! The escrow engine: fund lifecycle combined with its risk-control layers.
//!
//! One value of [`EscrowContract`] holds the whole mutable state the host
//! persists: the escrow records, pending claims, amount policy, claim-window
//! configuration, and the three risk-control components.  Every mutating
//! entry point takes the authenticated caller id and the current ledger time
//! as plain values; operations that move value also take the token-ledger
//! model.  An operation either commits all its effects or returns an error
//! and changes nothing.

use vstd::prelude::*;
use std::collections::HashMap;
use crate::admission;
use crate::admission::AdmissionController;
use crate::admission::AntiAbuseConfig;
use crate::breaker;
use crate::breaker::CircuitBreaker;
use crate::breaker::CircuitBreakerConfig;
use crate::breaker::CircuitBreakerStatus;
use crate::breaker::ErrorEntry;
use crate::compliance::ComplianceGate;
use crate::errors::Error;
use crate::escrow::Escrow;
use crate::escrow::EscrowStatus;
use crate::escrow::AmountPolicy;
use crate::escrow::PendingClaim;
use crate::escrow::LockFundsItem;
use crate::escrow::ReleaseFundsItem;
use crate::escrow::RefundMode;
use crate::ledger::TokenLedger;

verus! {

broadcast use vstd::std_specs::hash::group_hash_axioms;

/// Claim-window length used while the administrator has not configured one.
pub const DEFAULT_CLAIM_WINDOW: u64 = 86400;

/// The escrow engine.  The host owns one value of this type, authenticates
/// callers, and hands every entry point the caller id and the ledger time.
pub struct EscrowContract {
    contract_address: u64,
    admin: Option<u64>,
    token: u64,
    escrows: HashMap<u64, Escrow>,
    claims: HashMap<u64, PendingClaim>,
    claim_window: Option<u64>,
    policy: Option<AmountPolicy>,
    admission: AdmissionController,
    breaker: CircuitBreaker,
    compliance: ComplianceGate,
}

impl EscrowContract {
    /// The engine's own account on the token ledger.
    pub closed spec fn spec_contract_address(self) -> u64 {
        self.contract_address
    }

    /// The registered administrative authority, once initialized.
    pub closed spec fn spec_admin(self) -> Option<u64> {
        self.admin
    }

    /// `init` has run.
    pub open spec fn spec_initialized(self) -> bool {
        self.spec_admin() is Some
    }

    /// The token address recorded at initialization.
    pub closed spec fn spec_token(self) -> u64 {
        self.token
    }

    /// The escrow records by bounty id.
    pub closed spec fn spec_escrows(self) -> Map<u64, Escrow> {
        self.escrows@
    }

    /// The claim records by bounty id.
    pub closed spec fn spec_claims(self) -> Map<u64, PendingClaim> {
        self.claims@
    }

    /// The configured claim window, if any.
    pub closed spec fn spec_claim_window(self) -> Option<u64> {
        self.claim_window
    }

    /// The configured amount policy, if any.
    pub closed spec fn spec_policy(self) -> Option<AmountPolicy> {
        self.policy
    }

    /// The admission controller component.
    pub closed spec fn spec_admission(self) -> AdmissionController {
        self.admission
    }

    /// The circuit breaker component.
    pub closed spec fn spec_breaker(self) -> CircuitBreaker {
        self.breaker
    }

    /// The compliance gate component.
    pub closed spec fn spec_compliance(self) -> ComplianceGate {
        self.compliance
    }

    /// Structural invariant of the records: every escrow holds a positive
    /// locked amount, its remainder stays between zero and that amount and
    /// is positive exactly while the escrow is `Locked`, and every claim is
    /// attached to an existing escrow.
    pub open spec fn wf(self) -> bool {
        &&& forall|id: u64|
            #[trigger] self.spec_escrows().contains_key(id) ==> {
                let e = self.spec_escrows()[id];
                &&& 0 < e.amount
                &&& 0 <= e.remaining_amount <= e.amount
                &&& (e.status == EscrowStatus::Locked <==> e.remaining_amount > 0)
            }
        &&& forall|id: u64|
            #[trigger] self.spec_claims().contains_key(id) ==> self.spec_escrows().contains_key(id)
    }

    /// An address may take part in a transfer: the compliance gate admits it
    /// and it is not the engine's own account.
    pub open spec fn spec_participant_ok(self, a: u64) -> bool {
        &&& self.spec_compliance().spec_allowed(a)
        &&& a != self.spec_contract_address()
    }

    /// The administrative gate: initialized, and `caller` is the admin.
    pub open spec fn spec_admin_gate(self, caller: u64) -> Result<(), Error> {
        if !self.spec_initialized() {
            Err(Error::NotInitialized)
        } else if self.spec_admin() != Some(caller) {
            Err(Error::Unauthorized)
        } else {
            Ok(())
        }
    }

    /// A fresh, uninitialized engine owning the ledger account
    /// `contract_address`.
    pub fn new(contract_address: u64) -> (r: EscrowContract)
        ensures
            r.wf(),
            r.spec_contract_address() == contract_address,
            !r.spec_initialized(),
            r.spec_escrows() == Map::<u64, Escrow>::empty(),
            r.spec_claims() == Map::<u64, PendingClaim>::empty(),
            r.spec_claim_window() is None,
            r.spec_policy() is None,
            r.spec_admission().spec_config() == (AntiAbuseConfig {
                window_size: 0,
                max_operations: u32::MAX,
                cooldown_period: 0,
            }),
            forall|a: u64| !r.spec_admission().spec_whitelisted(a),
            forall|a: u64| r.spec_admission().spec_history(a) == Seq::<u64>::empty(),
            r.spec_breaker().spec_state() == breaker::CircuitState::Closed,
            r.spec_breaker().spec_failures() == 0,
            r.spec_breaker().spec_successes() == 0,
            r.spec_breaker().spec_log() == Seq::<ErrorEntry>::empty(),
            forall|a: u64| !r.spec_compliance().spec_blacklisted(a),
            forall|a: u64| !r.spec_compliance().spec_whitelisted(a),
            !r.spec_compliance().spec_whitelist_mode(),
    {
        EscrowContract {
            contract_address,
            admin: None,
            token: 0,
            escrows: HashMap::new(),
            claims: HashMap::new(),
            claim_window: None,
            policy: None,
            admission: AdmissionController::new(),
            breaker: CircuitBreaker::new(),
            compliance: ComplianceGate::new(),
        }
    }

    /// What `init` decides for a fresh call.
    pub open spec fn spec_init_result(self, admin: u64, now: u64) -> Result<(), Error> {
        if self.spec_initialized() {
            Err(Error::AlreadyInitialized)
        } else if self.spec_admission().spec_decision(admin, now) is Err {
            self.spec_admission().spec_decision(admin, now)
        } else {
            Ok(())
        }
    }

    /// Registers the administrative authority and the token address.  Runs
    /// once: a second call fails with `AlreadyInitialized` and changes
    /// nothing.
    pub fn init(&mut self, admin: u64, token: u64, now: u64) -> (r: Result<(), Error>)
        requires
            old(self).wf(),
        ensures
            final(self).wf(),
            r == old(self).spec_init_result(admin, now),
            r is Err ==> *final(self) == *old(self),
            r is Ok ==> {
                &&& final(self).spec_admin() == Some(admin)
                &&& final(self).spec_token() == token
                &&& final(self).spec_contract_address() == old(self).spec_contract_address()
                &&& final(self).spec_escrows() == old(self).spec_escrows()
                &&& final(self).spec_claims() == old(self).spec_claims()
                &&& final(self).spec_claim_window() == old(self).spec_claim_window()
                &&& final(self).spec_policy() == old(self).spec_policy()
                &&& final(self).spec_breaker() == old(self).spec_breaker()
                &&& final(self).spec_compliance() == old(self).spec_compliance()
                &&& final(self).admission_moved(old(self), admin, now)
            },
    {
        if self.admin.is_some() {
            return Err(Error::AlreadyInitialized);
        }
        match self.admission.check(admin, now) {
            Err(e) => Err(e),
            Ok(()) => {
                if !self.admission.is_whitelisted(admin) {
                    self.admission.record(admin, now);
                }
                self.admin = Some(admin);
                self.token = token;
                proof {
                    assert(self.spec_escrows() == old(self).spec_escrows());
                    assert(self.spec_claims() == old(self).spec_claims());
                    assert(self.wf());
                }
                Ok(())
            },
        }
    }

    /// How the admission controller moves on a committed operation of
    /// `caller`: untouched for whitelisted callers, otherwise the caller's
    /// timestamp is recorded.
    pub open spec fn admission_moved(self, pre: &EscrowContract, caller: u64, now: u64) -> bool {
        if pre.spec_admission().spec_whitelisted(caller) {
            self.spec_admission() == pre.spec_admission()
        } else {
            admission::spec_recorded(pre.spec_admission(), self.spec_admission(), caller, now)
        }
    }

    /// What `lock_funds` decides: the order of the checks fixes which error
    /// is reported when several conditions fail at once.
    pub open spec fn spec_lock_result(
        self,
        led: TokenLedger,
        depositor: u64,
        id: u64,
        amount: i128,
        deadline: u64,
        now: u64,
    ) -> Result<(), Error> {
        if !self.spec_initialized() {
            Err(Error::NotInitialized)
        } else if !self.spec_participant_ok(depositor) {
            Err(Error::Unauthorized)
        } else if self.spec_admission().spec_decision(depositor, now) is Err {
            self.spec_admission().spec_decision(depositor, now)
        } else if amount <= 0 {
            Err(Error::InvalidAmount)
        } else if self.spec_policy() is Some && amount < self.spec_policy()->Some_0.min {
            Err(Error::AmountBelowMinimum)
        } else if self.spec_policy() is Some && amount > self.spec_policy()->Some_0.max {
            Err(Error::AmountAboveMaximum)
        } else if deadline <= now {
            Err(Error::InvalidDeadline)
        } else if self.spec_escrows().contains_key(id) {
            Err(Error::BountyExists)
        } else if led.bal(depositor) < amount {
            Err(Error::InsufficientBalance)
        } else if led.bal(self.spec_contract_address()) + amount > i128::MAX {
            Err(Error::InvalidAmount)
        } else {
            Ok(())
        }
    }

    /// The record `lock_funds` creates on success.
    pub open spec fn spec_locked_escrow(depositor: u64, amount: i128, deadline: u64) -> Escrow {
        Escrow {
            depositor,
            amount,
            remaining_amount: amount,
            status: EscrowStatus::Locked,
            deadline,
        }
    }

    /// Locks `amount` for bounty `id`: debits the depositor into the engine
    /// account and creates the `Locked` record.  On any error, neither the
    /// engine nor the ledger changes.
    pub fn lock_funds(
        &mut self,
        ledger: &mut TokenLedger,
        depositor: u64,
        id: u64,
        amount: i128,
        deadline: u64,
        now: u64,
    ) -> (r: Result<(), Error>)
        requires
            old(self).wf(),
            old(ledger).wf(),
        ensures
            final(self).wf(),
            final(ledger).wf(),
            r == old(self).spec_lock_result(*old(ledger), depositor, id, amount, deadline, now),
            r is Err ==> *final(self) == *old(self) && *final(ledger) == *old(ledger),
            r is Ok ==> {
                &&& final(self).spec_escrows() == old(self).spec_escrows().insert(
                    id,
                    Self::spec_locked_escrow(depositor, amount, deadline),
                )
                &&& final(ledger).bal(depositor) == old(ledger).bal(depositor) - amount
                &&& final(ledger).bal(old(self).spec_contract_address()) == old(ledger).bal(
                    old(self).spec_contract_address(),
                ) + amount
                &&& forall|a: u64|
                    a != depositor && a != old(self).spec_contract_address()
                        ==> final(ledger).bal(a) == old(ledger).bal(a)
                &&& final(self).admission_moved(old(self), depositor, now)
                &&& final(self).spec_claims() == old(self).spec_claims()
                &&& final(self).spec_admin() == old(self).spec_admin()
                &&& final(self).spec_token() == old(self).spec_token()
                &&& final(self).spec_contract_address() == old(self).spec_contract_address()
                &&& final(self).spec_claim_window() == old(self).spec_claim_window()
                &&& final(self).spec_policy() == old(self).spec_policy()
                &&& final(self).spec_breaker() == old(self).spec_breaker()
                &&& final(self).spec_compliance() == old(self).spec_compliance()
            },
    {
        if self.admin.is_none() {
            return Err(Error::NotInitialized);
        }
        if !self.compliance.is_participant_allowed(depositor) || depositor
            == self.contract_address {
            return Err(Error::Unauthorized);
        }
        if let Err(e) = self.admission.check(depositor, now) {
            return Err(e);
        }
        if amount <= 0 {
            return Err(Error::InvalidAmount);
        }
        if let Some(p) = self.policy {
            if amount < p.min {
                return Err(Error::AmountBelowMinimum);
            }
            if amount > p.max {
                return Err(Error::AmountAboveMaximum);
            }
        }
        if deadline <= now {
            return Err(Error::InvalidDeadline);
        }
        if self.escrows.contains_key(&id) {
            return Err(Error::BountyExists);
        }
        if let Err(e) = ledger.transfer(depositor, self.contract_address, amount) {
            return Err(e);
        }
        if !self.admission.is_whitelisted(depositor) {
            self.admission.record(depositor, now);
        }
        self.escrows.insert(
            id,
            Escrow {
                depositor,
                amount,
                remaining_amount: amount,
                status: EscrowStatus::Locked,
                deadline,
            },
        );
        proof {
            assert(self.spec_claims() == old(self).spec_claims());
        }
        Ok(())
    }

    /// What `release_funds` decides.
    pub open spec fn spec_release_result(
        self,
        led: TokenLedger,
        caller: u64,
        id: u64,
        recipient: u64,
        now: u64,
    ) -> Result<(), Error> {
        if self.spec_admin_gate(caller) is Err {
            self.spec_admin_gate(caller)
        } else if !self.spec_participant_ok(recipient) {
            Err(Error::Unauthorized)
        } else if self.spec_admission().spec_decision(caller, now) is Err {
            self.spec_admission().spec_decision(caller, now)
        } else if !self.spec_breaker().spec_allows() {
            Err(Error::CircuitOpen)
        } else if !self.spec_escrows().contains_key(id) {
            Err(Error::BountyNotFound)
        } else if self.spec_escrows()[id].status != EscrowStatus::Locked {
            Err(Error::FundsNotLocked)
        } else if led.bal(self.spec_contract_address()) < self.spec_escrows()[id].remaining_amount {
            Err(Error::InsufficientBalance)
        } else if led.bal(recipient) + self.spec_escrows()[id].remaining_amount > i128::MAX {
            Err(Error::InvalidAmount)
        } else {
            Ok(())
        }
    }

    /// `e` after a full payout: nothing remains and the record is terminal.
    pub open spec fn spec_paid_out_escrow(e: Escrow) -> Escrow {
        Escrow {
            depositor: e.depositor,
            amount: e.amount,
            remaining_amount: 0,
            status: EscrowStatus::Released,
            deadline: e.deadline,
        }
    }

    /// Releases everything the escrow still holds to `recipient`.  Only the
    /// administrative authority may call this; the payout passes the circuit
    /// breaker and feeds a success back to it.  On any error, neither the
    /// engine nor the ledger changes.
    pub fn release_funds(
        &mut self,
        ledger: &mut TokenLedger,
        caller: u64,
        id: u64,
        recipient: u64,
        now: u64,
    ) -> (r: Result<(), Error>)
        requires
            old(self).wf(),
            old(ledger).wf(),
        ensures
            final(self).wf(),
            final(ledger).wf(),
            r == old(self).spec_release_result(*old(ledger), caller, id, recipient, now),
            r is Err ==> *final(self) == *old(self) && *final(ledger) == *old(ledger),
            r is Ok ==> {
                let amt = old(self).spec_escrows()[id].remaining_amount;
                &&& final(self).spec_escrows() == old(self).spec_escrows().insert(
                    id,
                    Self::spec_paid_out_escrow(old(self).spec_escrows()[id]),
                )
                &&& final(ledger).bal(old(self).spec_contract_address()) == old(ledger).bal(
                    old(self).spec_contract_address(),
                ) - amt
                &&& final(ledger).bal(recipient) == old(ledger).bal(recipient) + amt
                &&& forall|a: u64|
                    a != recipient && a != old(self).spec_contract_address()
                        ==> final(ledger).bal(a) == old(ledger).bal(a)
                &&& final(self).admission_moved(old(self), caller, now)
                &&& breaker::spec_success_recorded(
                    old(self).spec_breaker(),
                    final(self).spec_breaker(),
                )
                &&& final(self).spec_claims() == old(self).spec_claims()
                &&& final(self).spec_admin() == old(self).spec_admin()
                &&& final(self).spec_token() == old(self).spec_token()
                &&& final(self).spec_contract_address() == old(self).spec_contract_address()
                &&& final(self).spec_claim_window() == old(self).spec_claim_window()
                &&& final(self).spec_policy() == old(self).spec_policy()
                &&& final(self).spec_compliance() == old(self).spec_compliance()
            },
    {
        match self.admin {
            None => {
                return Err(Error::NotInitialized);
            },
            Some(a) => {
                if a != caller {
                    return Err(Error::Unauthorized);
                }
            },
        }
        if !self.compliance.is_participant_allowed(recipient) || recipient
            == self.contract_address {
            return Err(Error::Unauthorized);
        }
        if let Err(e) = self.admission.check(caller, now) {
            return Err(e);
        }
        if let Err(e) = self.breaker.check_and_allow() {
            return Err(e);
        }
        let esc = match self.escrows.get(&id) {
            None => {
                return Err(Error::BountyNotFound);
            },
            Some(x) => *x,
        };
        if esc.status != EscrowStatus::Locked {
            return Err(Error::FundsNotLocked);
        }
        let amt = esc.remaining_amount;
        if let Err(e) = ledger.transfer(self.contract_address, recipient, amt) {
            return Err(e);
        }
        if !self.admission.is_whitelisted(caller) {
            self.admission.record(caller, now);
        }
        self.escrows.insert(
            id,
            Escrow {
                depositor: esc.depositor,
                amount: esc.amount,
                remaining_amount: 0,
                status: EscrowStatus::Released,
                deadline: esc.deadline,
            },
        );
        self.breaker.record_success();
        proof {
            assert(self.spec_claims() == old(self).spec_claims());
        }
        Ok(())
    }

    /// The amount a refund pays out: everything that remains in `Full` mode,
    /// the requested part in `Partial` mode.
    pub open spec fn spec_refund_amount(e: Escrow, partial: Option<i128>, mode: RefundMode) -> int {
        match mode {
            RefundMode::Full => e.remaining_amount as int,
            RefundMode::Partial => match partial {
                Some(p) => p as int,
                None => 0,
            },
        }
    }

    /// What `refund` decides.
    pub open spec fn spec_refund_result(
        self,
        led: TokenLedger,
        caller: u64,
        id: u64,
        partial: Option<i128>,
        recipient_override: Option<u64>,
        mode: RefundMode,
        now: u64,
    ) -> Result<(), Error> {
        if !self.spec_initialized() {
            Err(Error::NotInitialized)
        } else if self.spec_admission().spec_decision(caller, now) is Err {
            self.spec_admission().spec_decision(caller, now)
        } else if !self.spec_escrows().contains_key(id) {
            Err(Error::BountyNotFound)
        } else if self.spec_escrows()[id].status != EscrowStatus::Locked {
            Err(Error::FundsNotLocked)
        } else if now < self.spec_escrows()[id].deadline {
            Err(Error::DeadlineNotPassed)
        } else if mode == RefundMode::Partial && !(partial is Some && 0 < partial->0
            && partial->0 <= self.spec_escrows()[id].remaining_amount) {
            Err(Error::InvalidAmount)
        } else if !self.spec_participant_ok(
            match recipient_override {
                Some(r) => r,
                None => self.spec_escrows()[id].depositor,
            },
        ) {
            Err(Error::Unauthorized)
        } else if led.bal(self.spec_contract_address()) < Self::spec_refund_amount(
            self.spec_escrows()[id],
            partial,
            mode,
        ) {
            Err(Error::InsufficientBalance)
        } else if led.bal(
            match recipient_override {
                Some(r) => r,
                None => self.spec_escrows()[id].depositor,
            },
        ) + Self::spec_refund_amount(self.spec_escrows()[id], partial, mode) > i128::MAX {
            Err(Error::InvalidAmount)
        } else {
            Ok(())
        }
    }

    /// `e` after a refund of `amt`: the remainder shrinks, and the record
    /// turns `Refunded` exactly when nothing remains.
    pub open spec fn spec_refunded_escrow(e: Escrow, amt: int) -> Escrow {
        Escrow {
            depositor: e.depositor,
            amount: e.amount,
            remaining_amount: (e.remaining_amount - amt) as i128,
            status: if e.remaining_amount - amt == 0 {
                EscrowStatus::Refunded
            } else {
                EscrowStatus::Locked
            },
            deadline: e.deadline,
        }
    }

    /// Refunds a locked escrow once its deadline has been reached (a refund
    /// exactly at the deadline is allowed).  `Full` mode returns everything
    /// that remains to the depositor or the override recipient and closes
    /// the record; `Partial` mode returns the requested part and keeps the
    /// record locked unless nothing remains.  On any error, neither the
    /// engine nor the ledger changes.
    pub fn refund_with(
        &mut self,
        ledger: &mut TokenLedger,
        caller: u64,
        id: u64,
        partial_amount: Option<i128>,
        recipient_override: Option<u64>,
        mode: RefundMode,
        now: u64,
    ) -> (r: Result<(), Error>)
        requires
            old(self).wf(),
            old(ledger).wf(),
        ensures
            final(self).wf(),
            final(ledger).wf(),
            r == old(self).spec_refund_result(
                *old(ledger),
                caller,
                id,
                partial_amount,
                recipient_override,
                mode,
                now,
            ),
            r is Err ==> *final(self) == *old(self) && *final(ledger) == *old(ledger),
            r is Ok ==> {
                let e = old(self).spec_escrows()[id];
                let amt = Self::spec_refund_amount(e, partial_amount, mode);
                let to = match recipient_override {
                    Some(r) => r,
                    None => e.depositor,
                };
                &&& final(self).spec_escrows() == old(self).spec_escrows().insert(
                    id,
                    Self::spec_refunded_escrow(e, amt),
                )
                &&& final(ledger).bal(old(self).spec_contract_address()) == old(ledger).bal(
                    old(self).spec_contract_address(),
                ) - amt
                &&& final(ledger).bal(to) == old(ledger).bal(to) + amt
                &&& forall|a: u64|
                    a != to && a != old(self).spec_contract_address() ==> final(ledger).bal(a)
                        == old(ledger).bal(a)
                &&& final(self).admission_moved(old(self), caller, now)
                &&& final(self).spec_claims() == old(self).spec_claims()
                &&& final(self).spec_admin() == old(self).spec_admin()
                &&& final(self).spec_token() == old(self).spec_token()
                &&& final(self).spec_contract_address() == old(self).spec_contract_address()
                &&& final(self).spec_claim_window() == old(self).spec_claim_window()
                &&& final(self).spec_policy() == old(self).spec_policy()
                &&& final(self).spec_breaker() == old(self).spec_breaker()
                &&& final(self).spec_compliance() == old(self).spec_compliance()
            },
    {
        if self.admin.is_none() {
            return Err(Error::NotInitialized);
        }
        if let Err(e) = self.admission.check(caller, now) {
            return Err(e);
        }
        let esc = match self.escrows.get(&id) {
            None => {
                return Err(Error::BountyNotFound);
            },
            Some(x) => *x,
        };
        if esc.status != EscrowStatus::Locked {
            return Err(Error::FundsNotLocked);
        }
        if now < esc.deadline {
            return Err(Error::DeadlineNotPassed);
        }
        let amt: i128 = match mode {
            RefundMode::Full => esc.remaining_amount,
            RefundMode::Partial => {
                match partial_amount {
                    Some(p) => {
                        if p <= 0 || p > esc.remaining_amount {
                            return Err(Error::InvalidAmount);
                        }
                        p
                    },
                    None => {
                        return Err(Error::InvalidAmount);
                    },
                }
            },
        };
        let to: u64 = match recipient_override {
            Some(r) => r,
            None => esc.depositor,
        };
        if !self.compliance.is_participant_allowed(to) || to == self.contract_address {
            return Err(Error::Unauthorized);
        }
        if let Err(e) = ledger.transfer(self.contract_address, to, amt) {
            return Err(e);
        }
        if !self.admission.is_whitelisted(caller) {
            self.admission.record(caller, now);
        }
        self.escrows.insert(
            id,
            Escrow {
                depositor: esc.depositor,
                amount: esc.amount,
                remaining_amount: esc.remaining_amount - amt,
                status: if esc.remaining_amount - amt == 0 {
                    EscrowStatus::Refunded
                } else {
                    EscrowStatus::Locked
                },
                deadline: esc.deadline,
            },
        );
        proof {
            assert(self.spec_claims() == old(self).spec_claims());
        }
        Ok(())
    }

    /// Refunds everything that remains in a locked escrow to its depositor
    /// once the deadline has been reached.
    pub fn refund(&mut self, ledger: &mut TokenLedger, caller: u64, id: u64, now: u64) -> (r:
        Result<(), Error>)
        requires
            old(self).wf(),
            old(ledger).wf(),
        ensures
            final(self).wf(),
            final(ledger).wf(),
            r == old(self).spec_refund_result(
                *old(ledger),
                caller,
                id,
                None,
                None,
                RefundMode::Full,
                now,
            ),
            r is Err ==> *final(self) == *old(self) && *final(ledger) == *old(ledger),
            r is Ok ==> {
                let e = old(self).spec_escrows()[id];
                let amt = e.remaining_amount as int;
                &&& final(self).spec_escrows() == old(self).spec_escrows().insert(
                    id,
                    Self::spec_refunded_escrow(e, amt),
                )
                &&& final(ledger).bal(old(self).spec_contract_address()) == old(ledger).bal(
                    old(self).spec_contract_address(),
                ) - amt
                &&& final(ledger).bal(e.depositor) == old(ledger).bal(e.depositor) + amt
                &&& forall|a: u64|
                    a != e.depositor && a != old(self).spec_contract_address()
                        ==> final(ledger).bal(a) == old(ledger).bal(a)
                &&& final(self).admission_moved(old(self), caller, now)
                &&& final(self).spec_claims() == old(self).spec_claims()
                &&& final(self).spec_admin() == old(self).spec_admin()
                &&& final(self).spec_token() == old(self).spec_token()
                &&& final(self).spec_contract_address() == old(self).spec_contract_address()
                &&& final(self).spec_claim_window() == old(self).spec_claim_window()
                &&& final(self).spec_policy() == old(self).spec_policy()
                &&& final(self).spec_breaker() == old(self).spec_breaker()
                &&& final(self).spec_compliance() == old(self).spec_compliance()
            },
    {
        self.refund_with(ledger, caller, id, None, None, RefundMode::Full, now)
    }

    /// Sets the claim window the administrator grants to future
    /// authorizations.  A window of zero is legal and produces immediately
    /// expired claims.
    pub fn set_claim_window(&mut self, caller: u64, seconds: u64) -> (r: Result<(), Error>)
        requires
            old(self).wf(),
        ensures
            final(self).wf(),
            r == old(self).spec_admin_gate(caller),
            r is Err ==> *final(self) == *old(self),
            r is Ok ==> {
                &&& final(self).spec_claim_window() == Some(seconds)
                &&& final(self).spec_escrows() == old(self).spec_escrows()
                &&& final(self).spec_claims() == old(self).spec_claims()
                &&& final(self).spec_admin() == old(self).spec_admin()
                &&& final(self).spec_token() == old(self).spec_token()
                &&& final(self).spec_contract_address() == old(self).spec_contract_address()
                &&& final(self).spec_policy() == old(self).spec_policy()
                &&& final(self).spec_admission() == old(self).spec_admission()
                &&& final(self).spec_breaker() == old(self).spec_breaker()
                &&& final(self).spec_compliance() == old(self).spec_compliance()
            },
    {
        match self.admin {
            None => {
                return Err(Error::NotInitialized);
            },
            Some(a) => {
                if a != caller {
                    return Err(Error::Unauthorized);
                }
            },
        }
        self.claim_window = Some(seconds);
        proof {
            assert(self.spec_escrows() == old(self).spec_escrows());
            assert(self.spec_claims() == old(self).spec_claims());
        }
        Ok(())
    }

    /// When a claim authorized at `now` expires, given the granted window;
    /// saturates at the end of representable time.
    pub open spec fn spec_expiry(now: u64, window: u64) -> u64 {
        if now + window > u64::MAX {
            u64::MAX
        } else {
            (now + window) as u64
        }
    }

    /// The window granted to a new claim: the configured one, or the default.
    pub open spec fn spec_granted_window(self) -> u64 {
        match self.spec_claim_window() {
            Some(w) => w,
            None => DEFAULT_CLAIM_WINDOW,
        }
    }

    /// What `authorize_claim` decides.
    pub open spec fn spec_authorize_result(self, caller: u64, id: u64, recipient: u64) -> Result<
        (),
        Error,
    > {
        if self.spec_admin_gate(caller) is Err {
            self.spec_admin_gate(caller)
        } else if !self.spec_escrows().contains_key(id) {
            Err(Error::BountyNotFound)
        } else if self.spec_escrows()[id].status != EscrowStatus::Locked {
            Err(Error::FundsNotLocked)
        } else if self.spec_claims().contains_key(id) {
            Err(Error::BountyExists)
        } else if !self.spec_participant_ok(recipient) {
            Err(Error::Unauthorized)
        } else {
            Ok(())
        }
    }

    /// Authorizes `recipient` to claim the locked escrow `id` within the
    /// granted window.  Only legal while the escrow is `Locked` and no claim
    /// is attached; an expired but uncancelled claim still blocks a new
    /// authorization.
    pub fn authorize_claim(&mut self, caller: u64, id: u64, recipient: u64, now: u64) -> (r:
        Result<(), Error>)
        requires
            old(self).wf(),
        ensures
            final(self).wf(),
            r == old(self).spec_authorize_result(caller, id, recipient),
            r is Err ==> *final(self) == *old(self),
            r is Ok ==> {
                &&& final(self).spec_claims() == old(self).spec_claims().insert(
                    id,
                    PendingClaim {
                        recipient,
                        amount: old(self).spec_escrows()[id].remaining_amount,
                        created_at: now,
                        expires_at: Self::spec_expiry(now, old(self).spec_granted_window()),
                        claimed: false,
                    },
                )
                &&& final(self).spec_escrows() == old(self).spec_escrows()
                &&& final(self).spec_admin() == old(self).spec_admin()
                &&& final(self).spec_token() == old(self).spec_token()
                &&& final(self).spec_contract_address() == old(self).spec_contract_address()
                &&& final(self).spec_claim_window() == old(self).spec_claim_window()
                &&& final(self).spec_policy() == old(self).spec_policy()
                &&& final(self).spec_admission() == old(self).spec_admission()
                &&& final(self).spec_breaker() == old(self).spec_breaker()
                &&& final(self).spec_compliance() == old(self).spec_compliance()
            },
    {
        match self.admin {
            None => {
                return Err(Error::NotInitialized);
            },
            Some(a) => {
                if a != caller {
                    return Err(Error::Unauthorized);
                }
            },
        }
        let esc = match self.escrows.get(&id) {
            None => {
                return Err(Error::BountyNotFound);
            },
            Some(x) => *x,
        };
        if esc.status != EscrowStatus::Locked {
            return Err(Error::FundsNotLocked);
        }
        if self.claims.contains_key(&id) {
            return Err(Error::BountyExists);
        }
        if !self.compliance.is_participant_allowed(recipient) || recipient
            == self.contract_address {
            return Err(Error::Unauthorized);
        }
        let window = match self.claim_window {
            Some(w) => w,
            None => DEFAULT_CLAIM_WINDOW,
        };
        let expires_at = match now.checked_add(window) {
            Some(t) => t,
            None => u64::MAX,
        };
        self.claims.insert(
            id,
            PendingClaim { recipient, amount: esc.remaining_amount, created_at: now, expires_at, claimed: false },
        );
        proof {
            assert(self.spec_escrows() == old(self).spec_escrows());
        }
        Ok(())
    }

    /// Authorizes `recipient` to claim the locked escrow `id` within an
    /// explicitly granted window, overriding the configured one for this
    /// claim alone.
    pub fn authorize_claim_with_window(
        &mut self,
        caller: u64,
        id: u64,
        recipient: u64,
        window: u64,
        now: u64,
    ) -> (r: Result<(), Error>)
        requires
            old(self).wf(),
        ensures
            final(self).wf(),
            r == old(self).spec_authorize_result(caller, id, recipient),
            r is Err ==> *final(self) == *old(self),
            r is Ok ==> {
                &&& final(self).spec_claims() == old(self).spec_claims().insert(
                    id,
                    PendingClaim {
                        recipient,
                        amount: old(self).spec_escrows()[id].remaining_amount,
                        created_at: now,
                        expires_at: Self::spec_expiry(now, window),
                        claimed: false,
                    },
                )
                &&& final(self).spec_escrows() == old(self).spec_escrows()
                &&& final(self).spec_admin() == old(self).spec_admin()
                &&& final(self).spec_token() == old(self).spec_token()
                &&& final(self).spec_contract_address() == old(self).spec_contract_address()
                &&& final(self).spec_claim_window() == old(self).spec_claim_window()
                &&& final(self).spec_policy() == old(self).spec_policy()
                &&& final(self).spec_admission() == old(self).spec_admission()
                &&& final(self).spec_breaker() == old(self).spec_breaker()
                &&& final(self).spec_compliance() == old(self).spec_compliance()
            },
    {
        match self.admin {
            None => {
                return Err(Error::NotInitialized);
            },
            Some(a) => {
                if a != caller {
                    return Err(Error::Unauthorized);
                }
            },
        }
        let esc = match self.escrows.get(&id) {
            None => {
                return Err(Error::BountyNotFound);
            },
            Some(x) => *x,
        };
        if esc.status != EscrowStatus::Locked {
            return Err(Error::FundsNotLocked);
        }
        if self.claims.contains_key(&id) {
            return Err(Error::BountyExists);
        }
        if !self.compliance.is_participant_allowed(recipient) || recipient
            == self.contract_address {
            return Err(Error::Unauthorized);
        }
        let expires_at = match now.checked_add(window) {
            Some(t) => t,
            None => u64::MAX,
        };
        self.claims.insert(
            id,
            PendingClaim { recipient, amount: esc.remaining_amount, created_at: now, expires_at, claimed: false },
        );
        proof {
            assert(self.spec_escrows() == old(self).spec_escrows());
        }
        Ok(())
    }

    /// What `claim` decides.
    pub open spec fn spec_claim_result(
        self,
        led: TokenLedger,
        caller: u64,
        id: u64,
        now: u64,
    ) -> Result<(), Error> {
        if !self.spec_initialized() {
            Err(Error::NotInitialized)
        } else if !self.spec_breaker().spec_allows() {
            Err(Error::CircuitOpen)
        } else if !self.spec_claims().contains_key(id) {
            Err(Error::ClaimNotFound)
        } else if self.spec_escrows()[id].status != EscrowStatus::Locked {
            Err(Error::FundsNotLocked)
        } else if self.spec_claims()[id].claimed {
            Err(Error::ClaimNotFound)
        } else if caller != self.spec_claims()[id].recipient {
            Err(Error::Unauthorized)
        } else if now > self.spec_claims()[id].expires_at {
            Err(Error::ClaimExpired)
        } else if !self.spec_participant_ok(self.spec_claims()[id].recipient) {
            Err(Error::Unauthorized)
        } else if led.bal(self.spec_contract_address()) < self.spec_escrows()[id].remaining_amount {
            Err(Error::InsufficientBalance)
        } else if led.bal(self.spec_claims()[id].recipient) + self.spec_escrows()[id].remaining_amount
            > i128::MAX {
            Err(Error::InvalidAmount)
        } else {
            Ok(())
        }
    }

    /// The recipient of an authorized claim collects the escrow's remainder.
    /// Allowed once, by the authorized recipient only, and no later than the
    /// expiry time (a claim exactly at expiry succeeds).  The payout passes
    /// the circuit breaker and feeds a success back to it.
    pub fn claim(&mut self, ledger: &mut TokenLedger, caller: u64, id: u64, now: u64) -> (r:
        Result<(), Error>)
        requires
            old(self).wf(),
            old(ledger).wf(),
        ensures
            final(self).wf(),
            final(ledger).wf(),
            r == old(self).spec_claim_result(*old(ledger), caller, id, now),
            r is Err ==> *final(self) == *old(self) && *final(ledger) == *old(ledger),
            r is Ok ==> {
                let c = old(self).spec_claims()[id];
                let amt = old(self).spec_escrows()[id].remaining_amount;
                &&& final(self).spec_escrows() == old(self).spec_escrows().insert(
                    id,
                    Self::spec_paid_out_escrow(old(self).spec_escrows()[id]),
                )
                &&& final(self).spec_claims() == old(self).spec_claims().insert(
                    id,
                    PendingClaim {
                        recipient: c.recipient,
                        amount: c.amount,
                        created_at: c.created_at,
                        expires_at: c.expires_at,
                        claimed: true,
                    },
                )
                &&& final(ledger).bal(old(self).spec_contract_address()) == old(ledger).bal(
                    old(self).spec_contract_address(),
                ) - amt
                &&& final(ledger).bal(c.recipient) == old(ledger).bal(c.recipient) + amt
                &&& forall|a: u64|
                    a != c.recipient && a != old(self).spec_contract_address()
                        ==> final(ledger).bal(a) == old(ledger).bal(a)
                &&& breaker::spec_success_recorded(
                    old(self).spec_breaker(),
                    final(self).spec_breaker(),
                )
                &&& final(self).spec_admin() == old(self).spec_admin()
                &&& final(self).spec_token() == old(self).spec_token()
                &&& final(self).spec_contract_address() == old(self).spec_contract_address()
                &&& final(self).spec_claim_window() == old(self).spec_claim_window()
                &&& final(self).spec_policy() == old(self).spec_policy()
                &&& final(self).spec_admission() == old(self).spec_admission()
                &&& final(self).spec_compliance() == old(self).spec_compliance()
            },
    {
        if self.admin.is_none() {
            return Err(Error::NotInitialized);
        }
        if let Err(e) = self.breaker.check_and_allow() {
            return Err(e);
        }
        let c = match self.claims.get(&id) {
            None => {
                return Err(Error::ClaimNotFound);
            },
            Some(x) => *x,
        };
        let esc = match self.escrows.get(&id) {
            None => {
                // A claim is always attached to an existing escrow.
                proof {
                    assert(false);
                }
                return Err(Error::FundsNotLocked);
            },
            Some(x) => *x,
        };
        if esc.status != EscrowStatus::Locked {
            return Err(Error::FundsNotLocked);
        }
        if c.claimed {
            return Err(Error::ClaimNotFound);
        }
        if caller != c.recipient {
            return Err(Error::Unauthorized);
        }
        if now > c.expires_at {
            return Err(Error::ClaimExpired);
        }
        if !self.compliance.is_participant_allowed(c.recipient) || c.recipient
            == self.contract_address {
            return Err(Error::Unauthorized);
        }
        let amt = esc.remaining_amount;
        if let Err(e) = ledger.transfer(self.contract_address, c.recipient, amt) {
            return Err(e);
        }
        self.escrows.insert(
            id,
            Escrow {
                depositor: esc.depositor,
                amount: esc.amount,
                remaining_amount: 0,
                status: EscrowStatus::Released,
                deadline: esc.deadline,
            },
        );
        self.claims.insert(
            id,
            PendingClaim {
                recipient: c.recipient,
                amount: c.amount,
                created_at: c.created_at,
                expires_at: c.expires_at,
                claimed: true,
            },
        );
        self.breaker.record_success();
        Ok(())
    }

    /// What `cancel_pending_claim` decides.
    pub open spec fn spec_cancel_claim_result(self, caller: u64, id: u64) -> Result<(), Error> {
        if self.spec_admin_gate(caller) is Err {
            self.spec_admin_gate(caller)
        } else if !self.spec_claims().contains_key(id) {
            Err(Error::ClaimNotFound)
        } else if self.spec_claims()[id].claimed {
            Err(Error::ClaimNotFound)
        } else {
            Ok(())
        }
    }

    /// The administrator withdraws a pending (possibly expired) claim.  The
    /// escrow itself is untouched: it stays `Locked` and can be released
    /// normally or re-authorized afterwards.
    pub fn cancel_pending_claim(&mut self, caller: u64, id: u64) -> (r: Result<(), Error>)
        requires
            old(self).wf(),
        ensures
            final(self).wf(),
            r == old(self).spec_cancel_claim_result(caller, id),
            r is Err ==> *final(self) == *old(self),
            r is Ok ==> {
                &&& final(self).spec_claims() == old(self).spec_claims().remove(id)
                &&& final(self).spec_escrows() == old(self).spec_escrows()
                &&& final(self).spec_admin() == old(self).spec_admin()
                &&& final(self).spec_token() == old(self).spec_token()
                &&& final(self).spec_contract_address() == old(self).spec_contract_address()
                &&& final(self).spec_claim_window() == old(self).spec_claim_window()
                &&& final(self).spec_policy() == old(self).spec_policy()
                &&& final(self).spec_admission() == old(self).spec_admission()
                &&& final(self).spec_breaker() == old(self).spec_breaker()
                &&& final(self).spec_compliance() == old(self).spec_compliance()
            },
    {
        match self.admin {
            None => {
                return Err(Error::NotInitialized);
            },
            Some(a) => {
                if a != caller {
                    return Err(Error::Unauthorized);
                }
            },
        }
        let c = match self.claims.get(&id) {
            None => {
                return Err(Error::ClaimNotFound);
            },
            Some(x) => *x,
        };
        if c.claimed {
            return Err(Error::ClaimNotFound);
        }
        self.claims.remove(&id);
        proof {
            assert(self.spec_escrows() == old(self).spec_escrows());
        }
        Ok(())
    }

    /// Everything the administrative configuration setters leave untouched.
    pub open spec fn spec_config_frame(self, pre: &EscrowContract) -> bool {
        &&& self.spec_escrows() == pre.spec_escrows()
        &&& self.spec_claims() == pre.spec_claims()
        &&& self.spec_admin() == pre.spec_admin()
        &&& self.spec_token() == pre.spec_token()
        &&& self.spec_contract_address() == pre.spec_contract_address()
    }

    /// What `set_amount_policy` decides.
    pub open spec fn spec_set_policy_result(self, caller: u64, min: i128, max: i128) -> Result<
        (),
        Error,
    > {
        if self.spec_admin_gate(caller) is Err {
            self.spec_admin_gate(caller)
        } else if min <= 0 || max < min {
            Err(Error::InvalidPolicy)
        } else {
            Ok(())
        }
    }

    /// Sets the inclusive bounds future lock amounts must respect.  Bounds
    /// must satisfy `0 < min <= max`.
    pub fn set_amount_policy(&mut self, caller: u64, min: i128, max: i128) -> (r: Result<
        (),
        Error,
    >)
        requires
            old(self).wf(),
        ensures
            final(self).wf(),
            r == old(self).spec_set_policy_result(caller, min, max),
            r is Err ==> *final(self) == *old(self),
            r is Ok ==> {
                &&& final(self).spec_policy() == Some(AmountPolicy { min, max })
                &&& final(self).spec_config_frame(old(self))
                &&& final(self).spec_claim_window() == old(self).spec_claim_window()
                &&& final(self).spec_admission() == old(self).spec_admission()
                &&& final(self).spec_breaker() == old(self).spec_breaker()
                &&& final(self).spec_compliance() == old(self).spec_compliance()
            },
    {
        match self.admin {
            None => {
                return Err(Error::NotInitialized);
            },
            Some(a) => {
                if a != caller {
                    return Err(Error::Unauthorized);
                }
            },
        }
        if min <= 0 || max < min {
            return Err(Error::InvalidPolicy);
        }
        self.policy = Some(AmountPolicy { min, max });
        proof {
            assert(self.spec_escrows() == old(self).spec_escrows());
            assert(self.spec_claims() == old(self).spec_claims());
        }
        Ok(())
    }

    /// Replaces the rate-limit configuration.  Administrative.
    pub fn update_rate_limit_config(
        &mut self,
        caller: u64,
        window_size: u64,
        max_operations: u32,
        cooldown_period: u64,
    ) -> (r: Result<(), Error>)
        requires
            old(self).wf(),
        ensures
            final(self).wf(),
            r == old(self).spec_admin_gate(caller),
            r is Err ==> *final(self) == *old(self),
            r is Ok ==> {
                &&& final(self).spec_admission().spec_config() == (AntiAbuseConfig {
                    window_size,
                    max_operations,
                    cooldown_period,
                })
                &&& forall|a: u64|
                    final(self).spec_admission().spec_whitelisted(a) == old(
                        self,
                    ).spec_admission().spec_whitelisted(a)
                &&& forall|a: u64|
                    final(self).spec_admission().spec_history(a) == old(
                        self,
                    ).spec_admission().spec_history(a)
                &&& final(self).spec_config_frame(old(self))
                &&& final(self).spec_claim_window() == old(self).spec_claim_window()
                &&& final(self).spec_policy() == old(self).spec_policy()
                &&& final(self).spec_breaker() == old(self).spec_breaker()
                &&& final(self).spec_compliance() == old(self).spec_compliance()
            },
    {
        match self.admin {
            None => {
                return Err(Error::NotInitialized);
            },
            Some(a) => {
                if a != caller {
                    return Err(Error::Unauthorized);
                }
            },
        }
        self.admission.set_config(
            AntiAbuseConfig { window_size, max_operations, cooldown_period },
        );
        proof {
            assert(self.spec_escrows() == old(self).spec_escrows());
            assert(self.spec_claims() == old(self).spec_claims());
        }
        Ok(())
    }

    /// Adds `address` to, or removes it from, the rate-limit whitelist.
    /// Administrative.
    pub fn set_whitelist(&mut self, caller: u64, address: u64, whitelisted: bool) -> (r: Result<
        (),
        Error,
    >)
        requires
            old(self).wf(),
        ensures
            final(self).wf(),
            r == old(self).spec_admin_gate(caller),
            r is Err ==> *final(self) == *old(self),
            r is Ok ==> {
                &&& final(self).spec_admission().spec_whitelisted(address) == whitelisted
                &&& forall|a: u64|
                    a != address ==> final(self).spec_admission().spec_whitelisted(a) == old(
                        self,
                    ).spec_admission().spec_whitelisted(a)
                &&& final(self).spec_admission().spec_config() == old(
                    self,
                ).spec_admission().spec_config()
                &&& forall|a: u64|
                    final(self).spec_admission().spec_history(a) == old(
                        self,
                    ).spec_admission().spec_history(a)
                &&& final(self).spec_config_frame(old(self))
                &&& final(self).spec_claim_window() == old(self).spec_claim_window()
                &&& final(self).spec_policy() == old(self).spec_policy()
                &&& final(self).spec_breaker() == old(self).spec_breaker()
                &&& final(self).spec_compliance() == old(self).spec_compliance()
            },
    {
        match self.admin {
            None => {
                return Err(Error::NotInitialized);
            },
            Some(a) => {
                if a != caller {
                    return Err(Error::Unauthorized);
                }
            },
        }
        self.admission.set_whitelist(address, whitelisted);
        proof {
            assert(self.spec_escrows() == old(self).spec_escrows());
            assert(self.spec_claims() == old(self).spec_claims());
        }
        Ok(())
    }

    /// What the compliance mutators keep unchanged outside the compliance component.
    pub open spec fn spec_compliance_setter_frame(self, pre: &EscrowContract) -> bool {
        &&& self.spec_config_frame(pre)
        &&& self.spec_claim_window() == pre.spec_claim_window()
        &&& self.spec_policy() == pre.spec_policy()
        &&& self.spec_admission() == pre.spec_admission()
        &&& self.spec_breaker() == pre.spec_breaker()
    }

    /// Blacklists `address` with an optional reason code.  Administrative.
    pub fn add_to_blacklist(
        &mut self,
        caller: u64,
        address: u64,
        reason: Option<u64>,
        now: u64,
    ) -> (r: Result<crate::compliance::AddressBlacklisted, Error>)
        requires
            old(self).wf(),
        ensures
            final(self).wf(),
            r is Ok <==> old(self).spec_admin_gate(caller) is Ok,
            r is Err ==> *final(self) == *old(self) && Err::<(), Error>(r->Err_0) == old(
                self,
            ).spec_admin_gate(caller),
            r is Ok ==> {
                &&& r->Ok_0 == (crate::compliance::AddressBlacklisted {
                    address,
                    reason,
                    timestamp: now,
                })
                &&& final(self).spec_compliance().spec_blacklisted(address)
                &&& final(self).spec_compliance().spec_reason(address) == reason
                &&& forall|a: u64|
                    a != address ==> final(self).spec_compliance().spec_blacklisted(a) == old(
                        self,
                    ).spec_compliance().spec_blacklisted(a)
                &&& forall|a: u64|
                    final(self).spec_compliance().spec_whitelisted(a) == old(
                        self,
                    ).spec_compliance().spec_whitelisted(a)
                &&& final(self).spec_compliance().spec_whitelist_mode() == old(
                    self,
                ).spec_compliance().spec_whitelist_mode()
                &&& final(self).spec_compliance_setter_frame(old(self))
            },
    {
        match self.admin {
            None => {
                return Err(Error::NotInitialized);
            },
            Some(a) => {
                if a != caller {
                    return Err(Error::Unauthorized);
                }
            },
        }
        let ev = self.compliance.add_to_blacklist(address, reason, now);
        proof {
            assert(self.spec_escrows() == old(self).spec_escrows());
            assert(self.spec_claims() == old(self).spec_claims());
        }
        Ok(ev)
    }

    /// Removes `address` from the blacklist.  Administrative.  The audit
    /// record is produced only when the address was listed.
    pub fn remove_from_blacklist(&mut self, caller: u64, address: u64, now: u64) -> (r: Result<
        Option<crate::compliance::AddressUnblacklisted>,
        Error,
    >)
        requires
            old(self).wf(),
        ensures
            final(self).wf(),
            r is Ok <==> old(self).spec_admin_gate(caller) is Ok,
            r is Err ==> *final(self) == *old(self) && Err::<(), Error>(r->Err_0) == old(
                self,
            ).spec_admin_gate(caller),
            r is Ok ==> {
                &&& (r->Ok_0 is Some <==> old(self).spec_compliance().spec_blacklisted(address))
                &&& !final(self).spec_compliance().spec_blacklisted(address)
                &&& forall|a: u64|
                    a != address ==> final(self).spec_compliance().spec_blacklisted(a) == old(
                        self,
                    ).spec_compliance().spec_blacklisted(a)
                &&& forall|a: u64|
                    final(self).spec_compliance().spec_whitelisted(a) == old(
                        self,
                    ).spec_compliance().spec_whitelisted(a)
                &&& final(self).spec_compliance().spec_whitelist_mode() == old(
                    self,
                ).spec_compliance().spec_whitelist_mode()
                &&& final(self).spec_compliance_setter_frame(old(self))
            },
    {
        match self.admin {
            None => {
                return Err(Error::NotInitialized);
            },
            Some(a) => {
                if a != caller {
                    return Err(Error::Unauthorized);
                }
            },
        }
        let ev = self.compliance.remove_from_blacklist(address, now);
        proof {
            assert(self.spec_escrows() == old(self).spec_escrows());
            assert(self.spec_claims() == old(self).spec_claims());
        }
        Ok(ev)
    }

    /// Whitelists `address` for compliance purposes.  Administrative.
    pub fn add_to_whitelist(&mut self, caller: u64, address: u64, now: u64) -> (r: Result<
        crate::compliance::AddressWhitelisted,
        Error,
    >)
        requires
            old(self).wf(),
        ensures
            final(self).wf(),
            r is Ok <==> old(self).spec_admin_gate(caller) is Ok,
            r is Err ==> *final(self) == *old(self) && Err::<(), Error>(r->Err_0) == old(
                self,
            ).spec_admin_gate(caller),
            r is Ok ==> {
                &&& final(self).spec_compliance().spec_whitelisted(address)
                &&& forall|a: u64|
                    a != address ==> final(self).spec_compliance().spec_whitelisted(a) == old(
                        self,
                    ).spec_compliance().spec_whitelisted(a)
                &&& forall|a: u64|
                    final(self).spec_compliance().spec_blacklisted(a) == old(
                        self,
                    ).spec_compliance().spec_blacklisted(a)
                &&& final(self).spec_compliance().spec_whitelist_mode() == old(
                    self,
                ).spec_compliance().spec_whitelist_mode()
                &&& final(self).spec_compliance_setter_frame(old(self))
            },
    {
        match self.admin {
            None => {
                return Err(Error::NotInitialized);
            },
            Some(a) => {
                if a != caller {
                    return Err(Error::Unauthorized);
                }
            },
        }
        let ev = self.compliance.add_to_whitelist(address, now);
        proof {
            assert(self.spec_escrows() == old(self).spec_escrows());
            assert(self.spec_claims() == old(self).spec_claims());
        }
        Ok(ev)
    }

    /// Removes `address` from the compliance whitelist.  Administrative.
    pub fn remove_from_whitelist(&mut self, caller: u64, address: u64, now: u64) -> (r: Result<
        Option<crate::compliance::AddressUnwhitelisted>,
        Error,
    >)
        requires
            old(self).wf(),
        ensures
            final(self).wf(),
            r is Ok <==> old(self).spec_admin_gate(caller) is Ok,
            r is Err ==> *final(self) == *old(self) && Err::<(), Error>(r->Err_0) == old(
                self,
            ).spec_admin_gate(caller),
            r is Ok ==> {
                &&& (r->Ok_0 is Some <==> old(self).spec_compliance().spec_whitelisted(address))
                &&& !final(self).spec_compliance().spec_whitelisted(address)
                &&& forall|a: u64|
                    a != address ==> final(self).spec_compliance().spec_whitelisted(a) == old(
                        self,
                    ).spec_compliance().spec_whitelisted(a)
                &&& forall|a: u64|
                    final(self).spec_compliance().spec_blacklisted(a) == old(
                        self,
                    ).spec_compliance().spec_blacklisted(a)
                &&& final(self).spec_compliance().spec_whitelist_mode() == old(
                    self,
                ).spec_compliance().spec_whitelist_mode()
                &&& final(self).spec_compliance_setter_frame(old(self))
            },
    {
        match self.admin {
            None => {
                return Err(Error::NotInitialized);
            },
            Some(a) => {
                if a != caller {
                    return Err(Error::Unauthorized);
                }
            },
        }
        let ev = self.compliance.remove_from_whitelist(address, now);
        proof {
            assert(self.spec_escrows() == old(self).spec_escrows());
            assert(self.spec_claims() == old(self).spec_claims());
        }
        Ok(ev)
    }

    /// Switches compliance whitelist mode on or off.  Administrative.
    pub fn set_whitelist_mode(&mut self, caller: u64, enabled: bool, now: u64) -> (r: Result<
        crate::compliance::WhitelistModeToggled,
        Error,
    >)
        requires
            old(self).wf(),
        ensures
            final(self).wf(),
            r is Ok <==> old(self).spec_admin_gate(caller) is Ok,
            r is Err ==> *final(self) == *old(self) && Err::<(), Error>(r->Err_0) == old(
                self,
            ).spec_admin_gate(caller),
            r is Ok ==> {
                &&& final(self).spec_compliance().spec_whitelist_mode() == enabled
                &&& forall|a: u64|
                    final(self).spec_compliance().spec_blacklisted(a) == old(
                        self,
                    ).spec_compliance().spec_blacklisted(a)
                &&& forall|a: u64|
                    final(self).spec_compliance().spec_whitelisted(a) == old(
                        self,
                    ).spec_compliance().spec_whitelisted(a)
                &&& final(self).spec_compliance_setter_frame(old(self))
            },
    {
        match self.admin {
            None => {
                return Err(Error::NotInitialized);
            },
            Some(a) => {
                if a != caller {
                    return Err(Error::Unauthorized);
                }
            },
        }
        let ev = self.compliance.set_whitelist_mode(enabled, now);
        proof {
            assert(self.spec_escrows() == old(self).spec_escrows());
            assert(self.spec_claims() == old(self).spec_claims());
        }
        Ok(ev)
    }

    /// Replaces the circuit-breaker thresholds and log bound.
    /// Administrative.
    pub fn configure_circuit_breaker(
        &mut self,
        caller: u64,
        failure_threshold: u32,
        success_threshold: u32,
        max_error_log: u32,
    ) -> (r: Result<(), Error>)
        requires
            old(self).wf(),
        ensures
            final(self).wf(),
            r == old(self).spec_admin_gate(caller),
            r is Err ==> *final(self) == *old(self),
            r is Ok ==> {
                &&& final(self).spec_breaker().spec_config() == (CircuitBreakerConfig {
                    failure_threshold,
                    success_threshold,
                    max_error_log,
                })
                &&& final(self).spec_breaker().spec_state() == old(self).spec_breaker().spec_state()
                &&& final(self).spec_breaker().spec_failures() == old(
                    self,
                ).spec_breaker().spec_failures()
                &&& final(self).spec_breaker().spec_successes() == old(
                    self,
                ).spec_breaker().spec_successes()
                &&& final(self).spec_breaker().spec_log() == old(self).spec_breaker().spec_log()
                &&& final(self).spec_config_frame(old(self))
                &&& final(self).spec_claim_window() == old(self).spec_claim_window()
                &&& final(self).spec_policy() == old(self).spec_policy()
                &&& final(self).spec_admission() == old(self).spec_admission()
                &&& final(self).spec_compliance() == old(self).spec_compliance()
            },
    {
        match self.admin {
            None => {
                return Err(Error::NotInitialized);
            },
            Some(a) => {
                if a != caller {
                    return Err(Error::Unauthorized);
                }
            },
        }
        self.breaker.set_config(
            CircuitBreakerConfig { failure_threshold, success_threshold, max_error_log },
        );
        proof {
            assert(self.spec_escrows() == old(self).spec_escrows());
            assert(self.spec_claims() == old(self).spec_claims());
        }
        Ok(())
    }

    /// Administrative reset of the circuit breaker: open moves to probe
    /// mode, probing closes, closed stays closed.
    pub fn reset_circuit_breaker(&mut self, caller: u64) -> (r: Result<(), Error>)
        requires
            old(self).wf(),
        ensures
            final(self).wf(),
            r == old(self).spec_admin_gate(caller),
            r is Err ==> *final(self) == *old(self),
            r is Ok ==> {
                &&& final(self).spec_breaker().spec_state() == match old(
                    self,
                ).spec_breaker().spec_state() {
                    breaker::CircuitState::Open => breaker::CircuitState::HalfOpen,
                    breaker::CircuitState::HalfOpen => breaker::CircuitState::Closed,
                    breaker::CircuitState::Closed => breaker::CircuitState::Closed,
                }
                &&& final(self).spec_breaker().spec_failures() == 0
                &&& final(self).spec_breaker().spec_successes() == 0
                &&& final(self).spec_breaker().spec_log() == old(self).spec_breaker().spec_log()
                &&& final(self).spec_breaker().spec_config() == old(
                    self,
                ).spec_breaker().spec_config()
                &&& final(self).spec_config_frame(old(self))
                &&& final(self).spec_claim_window() == old(self).spec_claim_window()
                &&& final(self).spec_policy() == old(self).spec_policy()
                &&& final(self).spec_admission() == old(self).spec_admission()
                &&& final(self).spec_compliance() == old(self).spec_compliance()
            },
    {
        match self.admin {
            None => {
                return Err(Error::NotInitialized);
            },
            Some(a) => {
                if a != caller {
                    return Err(Error::Unauthorized);
                }
            },
        }
        self.breaker.reset();
        proof {
            assert(self.spec_escrows() == old(self).spec_escrows());
            assert(self.spec_claims() == old(self).spec_claims());
        }
        Ok(())
    }

    /// Emergency lockout: opens the circuit immediately.  Administrative.
    pub fn emergency_open_circuit(&mut self, caller: u64) -> (r: Result<(), Error>)
        requires
            old(self).wf(),
        ensures
            final(self).wf(),
            r == old(self).spec_admin_gate(caller),
            r is Err ==> *final(self) == *old(self),
            r is Ok ==> {
                &&& final(self).spec_breaker().spec_state() == breaker::CircuitState::Open
                &&& final(self).spec_breaker().spec_failures() == old(
                    self,
                ).spec_breaker().spec_failures()
                &&& final(self).spec_breaker().spec_successes() == old(
                    self,
                ).spec_breaker().spec_successes()
                &&& final(self).spec_breaker().spec_log() == old(self).spec_breaker().spec_log()
                &&& final(self).spec_breaker().spec_config() == old(
                    self,
                ).spec_breaker().spec_config()
                &&& final(self).spec_config_frame(old(self))
                &&& final(self).spec_claim_window() == old(self).spec_claim_window()
                &&& final(self).spec_policy() == old(self).spec_policy()
                &&& final(self).spec_admission() == old(self).spec_admission()
                &&& final(self).spec_compliance() == old(self).spec_compliance()
            },
    {
        match self.admin {
            None => {
                return Err(Error::NotInitialized);
            },
            Some(a) => {
                if a != caller {
                    return Err(Error::Unauthorized);
                }
            },
        }
        self.breaker.emergency_open();
        proof {
            assert(self.spec_escrows() == old(self).spec_escrows());
            assert(self.spec_claims() == old(self).spec_claims());
        }
        Ok(())
    }

    /// The host feeds back a payout failure it observed downstream (the
    /// external transfer failed after the engine approved it).
    /// Administrative: only the registered authority reports outcomes.
    pub fn record_payout_failure(
        &mut self,
        caller: u64,
        program_id: u64,
        op: u32,
        error_code: u32,
        now: u64,
    ) -> (r: Result<(), Error>)
        requires
            old(self).wf(),
        ensures
            final(self).wf(),
            r == old(self).spec_admin_gate(caller),
            r is Err ==> *final(self) == *old(self),
            r is Ok ==> {
                &&& breaker::spec_failure_recorded(
                    old(self).spec_breaker(),
                    final(self).spec_breaker(),
                    program_id,
                    op,
                    error_code,
                    now,
                )
                &&& final(self).spec_config_frame(old(self))
                &&& final(self).spec_claim_window() == old(self).spec_claim_window()
                &&& final(self).spec_policy() == old(self).spec_policy()
                &&& final(self).spec_admission() == old(self).spec_admission()
                &&& final(self).spec_compliance() == old(self).spec_compliance()
            },
    {
        match self.admin {
            None => {
                return Err(Error::NotInitialized);
            },
            Some(a) => {
                if a != caller {
                    return Err(Error::Unauthorized);
                }
            },
        }
        self.breaker.record_failure(program_id, op, error_code, now);
        proof {
            assert(self.spec_escrows() == old(self).spec_escrows());
            assert(self.spec_claims() == old(self).spec_claims());
        }
        Ok(())
    }

    /// An earlier batch item names the same bounty id as item `i`.
    pub open spec fn spec_lock_item_dup(items: Seq<LockFundsItem>, i: int) -> bool {
        exists|j: int| 0 <= j < i && items[j].bounty_id == items[i].bounty_id
    }

    /// What the first `k` batch items debit from depositor `d`.
    pub open spec fn spec_debited(items: Seq<LockFundsItem>, k: int, d: u64) -> int
        decreases k,
    {
        if k <= 0 {
            0
        } else {
            Self::spec_debited(items, k - 1, d) + if items[k - 1].depositor == d {
                items[k - 1].amount as int
            } else {
                0int
            }
        }
    }

    /// What the first `k` batch items lock in total.
    pub open spec fn spec_batch_total(items: Seq<LockFundsItem>, k: int) -> int
        decreases k,
    {
        if k <= 0 {
            0
        } else {
            Self::spec_batch_total(items, k - 1) + items[k - 1].amount as int
        }
    }

    /// The validation verdict on batch item `i`, given that the items before
    /// it validated: the same per-item rule as a single lock, with the funds
    /// the earlier items would already consume taken into account.
    pub open spec fn spec_lock_item_result(
        self,
        led: TokenLedger,
        items: Seq<LockFundsItem>,
        i: int,
        now: u64,
    ) -> Result<(), Error> {
        let it = items[i];
        if Self::spec_lock_item_dup(items, i) {
            Err(Error::DuplicateBountyId)
        } else if self.spec_escrows().contains_key(it.bounty_id) {
            Err(Error::BountyExists)
        } else if it.amount <= 0 {
            Err(Error::InvalidAmount)
        } else if self.spec_policy() is Some && it.amount < self.spec_policy()->Some_0.min {
            Err(Error::AmountBelowMinimum)
        } else if self.spec_policy() is Some && it.amount > self.spec_policy()->Some_0.max {
            Err(Error::AmountAboveMaximum)
        } else if it.deadline <= now {
            Err(Error::InvalidDeadline)
        } else if !self.spec_participant_ok(it.depositor) {
            Err(Error::Unauthorized)
        } else if led.bal(it.depositor) - Self::spec_debited(items, i, it.depositor) < it.amount {
            Err(Error::InsufficientBalance)
        } else if led.bal(self.spec_contract_address()) + Self::spec_batch_total(items, i)
            + it.amount > i128::MAX {
            Err(Error::InvalidAmount)
        } else {
            Ok(())
        }
    }

    /// The first validation error among the first `k` batch items, if any.
    pub open spec fn spec_lock_items_result(
        self,
        led: TokenLedger,
        items: Seq<LockFundsItem>,
        k: int,
        now: u64,
    ) -> Result<(), Error>
        decreases k,
    {
        if k <= 0 {
            Ok(())
        } else if self.spec_lock_items_result(led, items, k - 1, now) is Err {
            self.spec_lock_items_result(led, items, k - 1, now)
        } else {
            self.spec_lock_item_result(led, items, k - 1, now)
        }
    }

    /// The escrow map after the first `k` batch items are inserted.
    pub open spec fn spec_lock_items_applied(
        m: Map<u64, Escrow>,
        items: Seq<LockFundsItem>,
        k: int,
    ) -> Map<u64, Escrow>
        decreases k,
    {
        if k <= 0 {
            m
        } else {
            Self::spec_lock_items_applied(m, items, k - 1).insert(
                items[k - 1].bounty_id,
                Self::spec_locked_escrow(
                    items[k - 1].depositor,
                    items[k - 1].amount,
                    items[k - 1].deadline,
                ),
            )
        }
    }

    /// What `batch_lock_funds` decides.
    pub open spec fn spec_batch_lock_result(
        self,
        led: TokenLedger,
        caller: u64,
        items: Seq<LockFundsItem>,
        now: u64,
    ) -> Result<u32, Error> {
        if !self.spec_initialized() {
            Err(Error::NotInitialized)
        } else if self.spec_admission().spec_decision(caller, now) is Err {
            Err(self.spec_admission().spec_decision(caller, now)->Err_0)
        } else if items.len() == 0 || items.len() > u32::MAX {
            Err(Error::InvalidBatchSize)
        } else if self.spec_lock_items_result(led, items, items.len() as int, now) is Err {
            Err(self.spec_lock_items_result(led, items, items.len() as int, now)->Err_0)
        } else {
            Ok(items.len() as u32)
        }
    }

    /// A clean prefix of batch items validates item by item.
    proof fn lemma_lock_items_ok_prefix(
        self,
        led: TokenLedger,
        items: Seq<LockFundsItem>,
        k: int,
        now: u64,
    )
        requires
            self.spec_lock_items_result(led, items, k, now) is Ok,
        ensures
            forall|i: int|
                0 <= i < k ==> #[trigger] self.spec_lock_item_result(led, items, i, now) is Ok,
        decreases k,
    {
        if k > 0 {
            self.lemma_lock_items_ok_prefix(led, items, k - 1, now);
        }
    }

    /// A validation error on a prefix persists over the whole list.
    proof fn lemma_lock_items_err_persists(
        self,
        led: TokenLedger,
        items: Seq<LockFundsItem>,
        k1: int,
        k2: int,
        now: u64,
    )
        requires
            0 <= k1 <= k2,
            self.spec_lock_items_result(led, items, k1, now) is Err,
        ensures
            self.spec_lock_items_result(led, items, k2, now) == self.spec_lock_items_result(
                led,
                items,
                k1,
                now,
            ),
        decreases k2 - k1,
    {
        if k1 < k2 {
            self.lemma_lock_items_err_persists(led, items, k1, k2 - 1, now);
        }
    }

    /// With positive amounts, the funds a prefix debits only grow.
    proof fn lemma_debited_monotone(
        self,
        led: TokenLedger,
        items: Seq<LockFundsItem>,
        k1: int,
        k2: int,
        d: u64,
        now: u64,
    )
        requires
            0 <= k1 <= k2,
            forall|i: int|
                0 <= i < k2 ==> #[trigger] self.spec_lock_item_result(led, items, i, now) is Ok,
        ensures
            Self::spec_debited(items, k1, d) <= Self::spec_debited(items, k2, d),
        decreases k2 - k1,
    {
        if k1 < k2 {
            self.lemma_debited_monotone(led, items, k1, k2 - 1, d, now);
            assert(self.spec_lock_item_result(led, items, k2 - 1, now) is Ok);
        }
    }

    /// Locks a list of items with all-or-nothing semantics: a two-phase
    /// validate-then-commit pass guarantees that any validation failure
    /// anywhere in the batch leaves no effect at all, and that a validated
    /// batch commits completely.  Returns the number of items locked.
    #[verifier::loop_isolation(false)]
    pub fn batch_lock_funds(
        &mut self,
        ledger: &mut TokenLedger,
        caller: u64,
        items: &Vec<LockFundsItem>,
        now: u64,
    ) -> (r: Result<u32, Error>)
        requires
            old(self).wf(),
            old(ledger).wf(),
        ensures
            final(self).wf(),
            final(ledger).wf(),
            r == old(self).spec_batch_lock_result(*old(ledger), caller, items@, now),
            r is Err ==> *final(self) == *old(self) && *final(ledger) == *old(ledger),
            r is Ok ==> {
                &&& final(self).spec_escrows() == Self::spec_lock_items_applied(
                    old(self).spec_escrows(),
                    items@,
                    items@.len() as int,
                )
                &&& final(ledger).bal(old(self).spec_contract_address()) == old(ledger).bal(
                    old(self).spec_contract_address(),
                ) + Self::spec_batch_total(items@, items@.len() as int)
                &&& forall|a: u64|
                    a != old(self).spec_contract_address() ==> final(ledger).bal(a) == old(
                        ledger,
                    ).bal(a) - Self::spec_debited(items@, items@.len() as int, a)
                &&& final(self).admission_moved(old(self), caller, now)
                &&& final(self).spec_claims() == old(self).spec_claims()
                &&& final(self).spec_admin() == old(self).spec_admin()
                &&& final(self).spec_token() == old(self).spec_token()
                &&& final(self).spec_contract_address() == old(self).spec_contract_address()
                &&& final(self).spec_claim_window() == old(self).spec_claim_window()
                &&& final(self).spec_policy() == old(self).spec_policy()
                &&& final(self).spec_breaker() == old(self).spec_breaker()
                &&& final(self).spec_compliance() == old(self).spec_compliance()
            },
    {
        if self.admin.is_none() {
            return Err(Error::NotInitialized);
        }
        if let Err(e) = self.admission.check(caller, now) {
            return Err(e);
        }
        if items.len() == 0 {
            return Err(Error::InvalidBatchSize);
        }
        if items.len() > u32::MAX as usize {
            return Err(Error::InvalidBatchSize);
        }
        let contract_bal = ledger.balance(self.contract_address);
        proof {
            ledger.lemma_bal_nonneg(self.contract_address);
        }
        let mut headroom: i128 = i128::MAX - contract_bal;
        let mut i: usize = 0;
        while i < items.len()
            invariant
                i <= items@.len(),
                self.spec_lock_items_result(*ledger, items@, i as int, now) is Ok,
                headroom == i128::MAX - ledger.bal(self.spec_contract_address())
                    - Self::spec_batch_total(items@, i as int),
            decreases items@.len() - i,
        {
            let it = items[i];
            let mut j: usize = 0;
            while j < i
                invariant
                    j <= i,
                    forall|jj: int| 0 <= jj < j ==> items@[jj].bounty_id != it.bounty_id,
                decreases i - j,
            {
                if items[j].bounty_id == it.bounty_id {
                    proof {
                        self.lemma_lock_items_err_persists(
                            *ledger,
                            items@,
                            i as int + 1,
                            items@.len() as int,
                            now,
                        );
                    }
                    return Err(Error::DuplicateBountyId);
                }
                j = j + 1;
            }
            proof {
                assert(!Self::spec_lock_item_dup(items@, i as int));
            }
            if self.escrows.contains_key(&it.bounty_id) {
                proof {
                    self.lemma_lock_items_err_persists(
                        *ledger,
                        items@,
                        i as int + 1,
                        items@.len() as int,
                        now,
                    );
                }
                return Err(Error::BountyExists);
            }
            if it.amount <= 0 {
                proof {
                    self.lemma_lock_items_err_persists(
                        *ledger,
                        items@,
                        i as int + 1,
                        items@.len() as int,
                        now,
                    );
                }
                return Err(Error::InvalidAmount);
            }
            if let Some(p) = self.policy {
                if it.amount < p.min {
                    proof {
                        self.lemma_lock_items_err_persists(
                            *ledger,
                            items@,
                            i as int + 1,
                            items@.len() as int,
                            now,
                        );
                    }
                    return Err(Error::AmountBelowMinimum);
                }
                if it.amount > p.max {
                    proof {
                        self.lemma_lock_items_err_persists(
                            *ledger,
                            items@,
                            i as int + 1,
                            items@.len() as int,
                            now,
                        );
                    }
                    return Err(Error::AmountAboveMaximum);
                }
            }
            if it.deadline <= now {
                proof {
                    self.lemma_lock_items_err_persists(
                        *ledger,
                        items@,
                        i as int + 1,
                        items@.len() as int,
                        now,
                    );
                }
                return Err(Error::InvalidDeadline);
            }
            if !self.compliance.is_participant_allowed(it.depositor) || it.depositor
                == self.contract_address {
                proof {
                    self.lemma_lock_items_err_persists(
                        *ledger,
                        items@,
                        i as int + 1,
                        items@.len() as int,
                        now,
                    );
                }
                return Err(Error::Unauthorized);
            }
            let mut rem: i128 = ledger.balance(it.depositor);
            proof {
                self.lemma_lock_items_ok_prefix(*ledger, items@, i as int, now);
            }
            let mut j2: usize = 0;
            while j2 < i
                invariant
                    j2 <= i,
                    rem == ledger.bal(it.depositor) - Self::spec_debited(
                        items@,
                        j2 as int,
                        it.depositor,
                    ),
                    forall|ii: int|
                        0 <= ii < i ==> #[trigger] self.spec_lock_item_result(
                            *ledger,
                            items@,
                            ii,
                            now,
                        ) is Ok,
                decreases i - j2,
            {
                proof {
                    assert(self.spec_lock_item_result(*ledger, items@, j2 as int, now) is Ok);
                }
                if items[j2].depositor == it.depositor {
                    if items[j2].amount > rem {
                        proof {
                            self.lemma_lock_items_ok_prefix(*ledger, items@, i as int, now);
                            self.lemma_debited_monotone(
                                *ledger,
                                items@,
                                j2 as int + 1,
                                i as int,
                                it.depositor,
                                now,
                            );
                            assert(ledger.bal(it.depositor) - Self::spec_debited(
                                items@,
                                i as int,
                                it.depositor,
                            ) < it.amount);
                            self.lemma_lock_items_err_persists(
                                *ledger,
                                items@,
                                i as int + 1,
                                items@.len() as int,
                                now,
                            );
                        }
                        return Err(Error::InsufficientBalance);
                    }
                    rem = rem - items[j2].amount;
                }
                j2 = j2 + 1;
            }
            if it.amount > rem {
                proof {
                    self.lemma_lock_items_err_persists(
                        *ledger,
                        items@,
                        i as int + 1,
                        items@.len() as int,
                        now,
                    );
                }
                return Err(Error::InsufficientBalance);
            }
            if it.amount > headroom {
                proof {
                    self.lemma_lock_items_err_persists(
                        *ledger,
                        items@,
                        i as int + 1,
                        items@.len() as int,
                        now,
                    );
                }
                return Err(Error::InvalidAmount);
            }
            headroom = headroom - it.amount;
            proof {
                assert(self.spec_lock_item_result(*ledger, items@, i as int, now) is Ok);
            }
            i = i + 1;
        }
        let ghost led0 = *ledger;
        let ghost esc0 = self.spec_escrows();
        if !self.admission.is_whitelisted(caller) {
            self.admission.record(caller, now);
        }
        proof {
            assert(self.spec_escrows() == old(self).spec_escrows());
            assert(self.spec_claims() == old(self).spec_claims());
        }
        let mut k: usize = 0;
        while k < items.len()
            invariant
                k <= items@.len(),
                ledger.wf(),
                self.wf(),
                self.spec_escrows() == Self::spec_lock_items_applied(esc0, items@, k as int),
                ledger.bal(old(self).spec_contract_address()) == led0.bal(
                    old(self).spec_contract_address(),
                ) + Self::spec_batch_total(items@, k as int),
                forall|a: u64|
                    a != old(self).spec_contract_address() ==> ledger.bal(a) == led0.bal(a)
                        - Self::spec_debited(items@, k as int, a),
                self.admission_moved(old(self), caller, now),
                self.spec_claims() == old(self).spec_claims(),
                self.spec_admin() == old(self).spec_admin(),
                self.spec_token() == old(self).spec_token(),
                self.spec_contract_address() == old(self).spec_contract_address(),
                self.spec_claim_window() == old(self).spec_claim_window(),
                self.spec_policy() == old(self).spec_policy(),
                self.spec_breaker() == old(self).spec_breaker(),
                self.spec_compliance() == old(self).spec_compliance(),
            decreases items@.len() - k,
        {
            let it = items[k];
            proof {
                old(self).lemma_lock_items_ok_prefix(led0, items@, items@.len() as int, now);
                assert(old(self).spec_lock_item_result(led0, items@, k as int, now) is Ok);
            }
            let tr = ledger.transfer(it.depositor, self.contract_address, it.amount);
            match tr {
                Ok(()) => {},
                Err(e) => {
                    // The validation pass covered this transfer.
                    proof {
                        assert(false);
                    }
                    return Err(e);
                },
            }
            self.escrows.insert(
                it.bounty_id,
                Escrow {
                    depositor: it.depositor,
                    amount: it.amount,
                    remaining_amount: it.amount,
                    status: EscrowStatus::Locked,
                    deadline: it.deadline,
                },
            );
            k = k + 1;
        }
        Ok(items.len() as u32)
    }

    /// An earlier batch item names the same bounty id as release item `i`.
    pub open spec fn spec_release_item_dup(items: Seq<ReleaseFundsItem>, i: int) -> bool {
        exists|j: int| 0 <= j < i && items[j].bounty_id == items[i].bounty_id
    }

    /// What the first `k` release items pay out of the engine account.
    pub open spec fn spec_release_needed(self, items: Seq<ReleaseFundsItem>, k: int) -> int
        decreases k,
    {
        if k <= 0 {
            0
        } else {
            self.spec_release_needed(items, k - 1) + self.spec_escrows()[items[k
                - 1].bounty_id].remaining_amount as int
        }
    }

    /// What the first `k` release items credit to contributor `c`.
    pub open spec fn spec_credited(self, items: Seq<ReleaseFundsItem>, k: int, c: u64) -> int
        decreases k,
    {
        if k <= 0 {
            0
        } else {
            self.spec_credited(items, k - 1, c) + if items[k - 1].contributor == c {
                self.spec_escrows()[items[k - 1].bounty_id].remaining_amount as int
            } else {
                0int
            }
        }
    }

    /// The validation verdict on release item `i`, given that the items
    /// before it validated.
    pub open spec fn spec_release_item_result(
        self,
        led: TokenLedger,
        items: Seq<ReleaseFundsItem>,
        i: int,
    ) -> Result<(), Error> {
        let it = items[i];
        if Self::spec_release_item_dup(items, i) {
            Err(Error::DuplicateBountyId)
        } else if !self.spec_escrows().contains_key(it.bounty_id) {
            Err(Error::BountyNotFound)
        } else if self.spec_escrows()[it.bounty_id].status != EscrowStatus::Locked {
            Err(Error::FundsNotLocked)
        } else if !self.spec_participant_ok(it.contributor) {
            Err(Error::Unauthorized)
        } else if led.bal(self.spec_contract_address()) - self.spec_release_needed(items, i)
            < self.spec_escrows()[it.bounty_id].remaining_amount {
            Err(Error::InsufficientBalance)
        } else if led.bal(it.contributor) + self.spec_credited(items, i, it.contributor)
            + self.spec_escrows()[it.bounty_id].remaining_amount > i128::MAX {
            Err(Error::InvalidAmount)
        } else {
            Ok(())
        }
    }

    /// The first validation error among the first `k` release items, if any.
    pub open spec fn spec_release_items_result(
        self,
        led: TokenLedger,
        items: Seq<ReleaseFundsItem>,
        k: int,
    ) -> Result<(), Error>
        decreases k,
    {
        if k <= 0 {
            Ok(())
        } else if self.spec_release_items_result(led, items, k - 1) is Err {
            self.spec_release_items_result(led, items, k - 1)
        } else {
            self.spec_release_item_result(led, items, k - 1)
        }
    }

    /// The escrow map after the first `k` release items are paid out.
    pub open spec fn spec_release_items_applied(
        m: Map<u64, Escrow>,
        items: Seq<ReleaseFundsItem>,
        k: int,
    ) -> Map<u64, Escrow>
        decreases k,
    {
        if k <= 0 {
            m
        } else {
            Self::spec_release_items_applied(m, items, k - 1).insert(
                items[k - 1].bounty_id,
                Self::spec_paid_out_escrow(m[items[k - 1].bounty_id]),
            )
        }
    }

    /// What `batch_release_funds` decides.
    pub open spec fn spec_batch_release_result(
        self,
        led: TokenLedger,
        caller: u64,
        items: Seq<ReleaseFundsItem>,
        now: u64,
    ) -> Result<u32, Error> {
        if self.spec_admin_gate(caller) is Err {
            Err(self.spec_admin_gate(caller)->Err_0)
        } else if self.spec_admission().spec_decision(caller, now) is Err {
            Err(self.spec_admission().spec_decision(caller, now)->Err_0)
        } else if !self.spec_breaker().spec_allows() {
            Err(Error::CircuitOpen)
        } else if items.len() == 0 || items.len() > u32::MAX {
            Err(Error::InvalidBatchSize)
        } else if self.spec_release_items_result(led, items, items.len() as int) is Err {
            Err(self.spec_release_items_result(led, items, items.len() as int)->Err_0)
        } else {
            Ok(items.len() as u32)
        }
    }

    /// A clean prefix of release items validates item by item.
    proof fn lemma_release_items_ok_prefix(
        self,
        led: TokenLedger,
        items: Seq<ReleaseFundsItem>,
        k: int,
    )
        requires
            self.spec_release_items_result(led, items, k) is Ok,
        ensures
            forall|i: int|
                0 <= i < k ==> #[trigger] self.spec_release_item_result(led, items, i) is Ok,
        decreases k,
    {
        if k > 0 {
            self.lemma_release_items_ok_prefix(led, items, k - 1);
        }
    }

    /// A validation error on a prefix persists over the whole list.
    proof fn lemma_release_items_err_persists(
        self,
        led: TokenLedger,
        items: Seq<ReleaseFundsItem>,
        k1: int,
        k2: int,
    )
        requires
            0 <= k1 <= k2,
            self.spec_release_items_result(led, items, k1) is Err,
        ensures
            self.spec_release_items_result(led, items, k2) == self.spec_release_items_result(
                led,
                items,
                k1,
            ),
        decreases k2 - k1,
    {
        if k1 < k2 {
            self.lemma_release_items_err_persists(led, items, k1, k2 - 1);
        }
    }

    /// With locked records, what a prefix credits only grows.
    proof fn lemma_credited_monotone(
        self,
        led: TokenLedger,
        items: Seq<ReleaseFundsItem>,
        k1: int,
        k2: int,
        c: u64,
    )
        requires
            self.wf(),
            0 <= k1 <= k2,
            forall|i: int|
                0 <= i < k2 ==> #[trigger] self.spec_release_item_result(led, items, i) is Ok,
        ensures
            self.spec_credited(items, k1, c) <= self.spec_credited(items, k2, c),
        decreases k2 - k1,
    {
        if k1 < k2 {
            self.lemma_credited_monotone(led, items, k1, k2 - 1, c);
            assert(self.spec_release_item_result(led, items, k2 - 1) is Ok);
        }
    }

    /// Keys outside the first `k` release items keep their records.
    proof fn lemma_release_items_applied_frame(
        m: Map<u64, Escrow>,
        items: Seq<ReleaseFundsItem>,
        k: int,
        key: u64,
    )
        requires
            forall|j: int| 0 <= j < k ==> items[j].bounty_id != key,
        ensures
            Self::spec_release_items_applied(m, items, k).contains_key(key) == m.contains_key(key),
            m.contains_key(key) ==> Self::spec_release_items_applied(m, items, k)[key] == m[key],
        decreases k,
    {
        if k > 0 {
            Self::lemma_release_items_applied_frame(m, items, k - 1, key);
        }
    }

    /// Releases a list of locked escrows to their contributors with
    /// all-or-nothing semantics, under the same two-phase discipline as
    /// `batch_lock_funds`.  Administrative; the payout passes the circuit
    /// breaker and feeds one success back to it.  Returns the number of
    /// items released.
    #[verifier::loop_isolation(false)]
    pub fn batch_release_funds(
        &mut self,
        ledger: &mut TokenLedger,
        caller: u64,
        items: &Vec<ReleaseFundsItem>,
        now: u64,
    ) -> (r: Result<u32, Error>)
        requires
            old(self).wf(),
            old(ledger).wf(),
        ensures
            final(self).wf(),
            final(ledger).wf(),
            r == old(self).spec_batch_release_result(*old(ledger), caller, items@, now),
            r is Err ==> *final(self) == *old(self) && *final(ledger) == *old(ledger),
            r is Ok ==> {
                &&& final(self).spec_escrows() == Self::spec_release_items_applied(
                    old(self).spec_escrows(),
                    items@,
                    items@.len() as int,
                )
                &&& final(ledger).bal(old(self).spec_contract_address()) == old(ledger).bal(
                    old(self).spec_contract_address(),
                ) - old(self).spec_release_needed(items@, items@.len() as int)
                &&& forall|a: u64|
                    a != old(self).spec_contract_address() ==> final(ledger).bal(a) == old(
                        ledger,
                    ).bal(a) + old(self).spec_credited(items@, items@.len() as int, a)
                &&& final(self).admission_moved(old(self), caller, now)
                &&& breaker::spec_success_recorded(
                    old(self).spec_breaker(),
                    final(self).spec_breaker(),
                )
                &&& final(self).spec_claims() == old(self).spec_claims()
                &&& final(self).spec_admin() == old(self).spec_admin()
                &&& final(self).spec_token() == old(self).spec_token()
                &&& final(self).spec_contract_address() == old(self).spec_contract_address()
                &&& final(self).spec_claim_window() == old(self).spec_claim_window()
                &&& final(self).spec_policy() == old(self).spec_policy()
                &&& final(self).spec_compliance() == old(self).spec_compliance()
            },
    {
        match self.admin {
            None => {
                return Err(Error::NotInitialized);
            },
            Some(a) => {
                if a != caller {
                    return Err(Error::Unauthorized);
                }
            },
        }
        if let Err(e) = self.admission.check(caller, now) {
            return Err(e);
        }
        if let Err(e) = self.breaker.check_and_allow() {
            return Err(e);
        }
        if items.len() == 0 {
            return Err(Error::InvalidBatchSize);
        }
        if items.len() > u32::MAX as usize {
            return Err(Error::InvalidBatchSize);
        }
        let contract_bal = ledger.balance(self.contract_address);
        proof {
            ledger.lemma_bal_nonneg(self.contract_address);
        }
        let mut paid: i128 = 0;
        let mut i: usize = 0;
        while i < items.len()
            invariant
                i <= items@.len(),
                self.spec_release_items_result(*ledger, items@, i as int) is Ok,
                paid == self.spec_release_needed(items@, i as int),
                0 <= paid <= contract_bal,
            decreases items@.len() - i,
        {
            let it = items[i];
            let mut j: usize = 0;
            while j < i
                invariant
                    j <= i,
                    forall|jj: int| 0 <= jj < j ==> items@[jj].bounty_id != it.bounty_id,
                decreases i - j,
            {
                if items[j].bounty_id == it.bounty_id {
                    proof {
                        self.lemma_release_items_err_persists(
                            *ledger,
                            items@,
                            i as int + 1,
                            items@.len() as int,
                        );
                    }
                    return Err(Error::DuplicateBountyId);
                }
                j = j + 1;
            }
            proof {
                assert(!Self::spec_release_item_dup(items@, i as int));
            }
            let esc = match self.escrows.get(&it.bounty_id) {
                None => {
                    proof {
                        self.lemma_release_items_err_persists(
                            *ledger,
                            items@,
                            i as int + 1,
                            items@.len() as int,
                        );
                    }
                    return Err(Error::BountyNotFound);
                },
                Some(x) => *x,
            };
            if esc.status != EscrowStatus::Locked {
                proof {
                    self.lemma_release_items_err_persists(
                        *ledger,
                        items@,
                        i as int + 1,
                        items@.len() as int,
                    );
                }
                return Err(Error::FundsNotLocked);
            }
            if !self.compliance.is_participant_allowed(it.contributor) || it.contributor
                == self.contract_address {
                proof {
                    self.lemma_release_items_err_persists(
                        *ledger,
                        items@,
                        i as int + 1,
                        items@.len() as int,
                    );
                }
                return Err(Error::Unauthorized);
            }
            if esc.remaining_amount > contract_bal - paid {
                proof {
                    self.lemma_release_items_err_persists(
                        *ledger,
                        items@,
                        i as int + 1,
                        items@.len() as int,
                    );
                }
                return Err(Error::InsufficientBalance);
            }
            let contributor_bal = ledger.balance(it.contributor);
            proof {
                ledger.lemma_bal_nonneg(it.contributor);
                self.lemma_release_items_ok_prefix(*ledger, items@, i as int);
            }
            let mut room: i128 = i128::MAX - contributor_bal;
            let mut j2: usize = 0;
            while j2 < i
                invariant
                    j2 <= i,
                    room == i128::MAX - ledger.bal(it.contributor) - self.spec_credited(
                        items@,
                        j2 as int,
                        it.contributor,
                    ),
                    forall|ii: int|
                        0 <= ii < i ==> #[trigger] self.spec_release_item_result(
                            *ledger,
                            items@,
                            ii,
                        ) is Ok,
                decreases i - j2,
            {
                proof {
                    assert(self.spec_release_item_result(*ledger, items@, j2 as int) is Ok);
                }
                if items[j2].contributor == it.contributor {
                    let prior = match self.escrows.get(&items[j2].bounty_id) {
                        None => {
                            // Every earlier item already validated as present.
                            proof {
                                assert(false);
                            }
                            return Err(Error::BountyNotFound);
                        },
                        Some(x) => *x,
                    };
                    if prior.remaining_amount > room {
                        proof {
                            self.lemma_credited_monotone(
                                *ledger,
                                items@,
                                j2 as int + 1,
                                i as int,
                                it.contributor,
                            );
                            assert(ledger.bal(it.contributor) + self.spec_credited(
                                items@,
                                i as int,
                                it.contributor,
                            ) + esc.remaining_amount > i128::MAX);
                            self.lemma_release_items_err_persists(
                                *ledger,
                                items@,
                                i as int + 1,
                                items@.len() as int,
                            );
                        }
                        return Err(Error::InvalidAmount);
                    }
                    room = room - prior.remaining_amount;
                }
                j2 = j2 + 1;
            }
            if esc.remaining_amount > room {
                proof {
                    self.lemma_release_items_err_persists(
                        *ledger,
                        items@,
                        i as int + 1,
                        items@.len() as int,
                    );
                }
                return Err(Error::InvalidAmount);
            }
            paid = paid + esc.remaining_amount;
            proof {
                assert(self.spec_release_item_result(*ledger, items@, i as int) is Ok);
            }
            i = i + 1;
        }
        let ghost led0 = *ledger;
        let ghost esc0 = self.spec_escrows();
        if !self.admission.is_whitelisted(caller) {
            self.admission.record(caller, now);
        }
        proof {
            assert(self.spec_escrows() == old(self).spec_escrows());
            assert(self.spec_claims() == old(self).spec_claims());
        }
        let mut k: usize = 0;
        while k < items.len()
            invariant
                k <= items@.len(),
                ledger.wf(),
                self.wf(),
                self.spec_escrows() == Self::spec_release_items_applied(esc0, items@, k as int),
                ledger.bal(old(self).spec_contract_address()) == led0.bal(
                    old(self).spec_contract_address(),
                ) - old(self).spec_release_needed(items@, k as int),
                forall|a: u64|
                    a != old(self).spec_contract_address() ==> ledger.bal(a) == led0.bal(a) + old(
                        self,
                    ).spec_credited(items@, k as int, a),
                self.admission_moved(old(self), caller, now),
                self.spec_claims() == old(self).spec_claims(),
                self.spec_admin() == old(self).spec_admin(),
                self.spec_token() == old(self).spec_token(),
                self.spec_contract_address() == old(self).spec_contract_address(),
                self.spec_claim_window() == old(self).spec_claim_window(),
                self.spec_policy() == old(self).spec_policy(),
                self.spec_breaker() == old(self).spec_breaker(),
                self.spec_compliance() == old(self).spec_compliance(),
            decreases items@.len() - k,
        {
            let it = items[k];
            proof {
                old(self).lemma_release_items_ok_prefix(led0, items@, items@.len() as int);
                assert(old(self).spec_release_item_result(led0, items@, k as int) is Ok);
                assert forall|j: int| 0 <= j < k implies items@[j].bounty_id != it.bounty_id by {
                    assert(old(self).spec_release_item_result(led0, items@, k as int) is Ok);
                    assert(!Self::spec_release_item_dup(items@, k as int));
                };
                Self::lemma_release_items_applied_frame(esc0, items@, k as int, it.bounty_id);
            }
            let esc = match self.escrows.get(&it.bounty_id) {
                None => {
                    // The validation pass saw this record, and the items paid
                    // out so far name other bounty ids.
                    proof {
                        assert(false);
                    }
                    return Err(Error::BountyNotFound);
                },
                Some(x) => *x,
            };
            let tr = ledger.transfer(self.contract_address, it.contributor, esc.remaining_amount);
            match tr {
                Ok(()) => {},
                Err(e) => {
                    // The validation pass covered this transfer.
                    proof {
                        assert(false);
                    }
                    return Err(e);
                },
            }
            self.escrows.insert(
                it.bounty_id,
                Escrow {
                    depositor: esc.depositor,
                    amount: esc.amount,
                    remaining_amount: 0,
                    status: EscrowStatus::Released,
                    deadline: esc.deadline,
                },
            );
            k = k + 1;
        }
        self.breaker.record_success();
        proof {
            assert(self.spec_escrows() == Self::spec_release_items_applied(
                esc0,
                items@,
                items@.len() as int,
            ));
            assert(self.spec_claims() == old(self).spec_claims());
        }
        Ok(items.len() as u32)
    }

    /// The escrow record under `id`; `BountyNotFound` if absent.
    pub fn get_escrow_info(&self, id: u64) -> (r: Result<Escrow, Error>)
        ensures
            r is Ok <==> self.spec_escrows().contains_key(id),
            r is Ok ==> r == Ok::<Escrow, Error>(self.spec_escrows()[id]),
            r is Err ==> r == Err::<Escrow, Error>(Error::BountyNotFound),
    {
        match self.escrows.get(&id) {
            Some(e) => Ok(*e),
            None => Err(Error::BountyNotFound),
        }
    }

    /// The pending-claim record under `id`; `ClaimNotFound` if absent.
    pub fn get_pending_claim(&self, id: u64) -> (r: Result<PendingClaim, Error>)
        ensures
            r is Ok <==> self.spec_claims().contains_key(id),
            r is Ok ==> r == Ok::<PendingClaim, Error>(self.spec_claims()[id]),
            r is Err ==> r == Err::<PendingClaim, Error>(Error::ClaimNotFound),
    {
        match self.claims.get(&id) {
            Some(c) => Ok(*c),
            None => Err(Error::ClaimNotFound),
        }
    }

    /// The engine account's balance on the token ledger.
    pub fn get_balance(&self, ledger: &TokenLedger) -> (r: i128)
        ensures
            r == ledger.bal(self.spec_contract_address()),
    {
        ledger.balance(self.contract_address)
    }

    /// The registered administrative authority, if any.
    pub fn get_admin(&self) -> (r: Option<u64>)
        ensures
            r == self.spec_admin(),
    {
        self.admin
    }

    /// The active rate-limit configuration.
    pub fn get_rate_limit_config(&self) -> (r: AntiAbuseConfig)
        ensures
            r == self.spec_admission().spec_config(),
    {
        self.admission.get_config()
    }

    /// Snapshot of the circuit breaker.
    pub fn get_circuit_status(&self) -> (r: CircuitBreakerStatus)
        ensures
            r == (CircuitBreakerStatus {
                state: self.spec_breaker().spec_state(),
                consecutive_failures: self.spec_breaker().spec_failures(),
                consecutive_successes: self.spec_breaker().spec_successes(),
            }),
    {
        self.breaker.get_status()
    }

    /// A copy of the circuit breaker's error log, oldest first.
    pub fn get_circuit_error_log(&self) -> (r: Vec<ErrorEntry>)
        ensures
            r@ == self.spec_breaker().spec_log(),
    {
        self.breaker.get_error_log()
    }

    /// Whether `address` bypasses rate limiting.
    pub fn is_whitelisted(&self, address: u64) -> (r: bool)
        ensures
            r == self.spec_admission().spec_whitelisted(address),
    {
        self.admission.is_whitelisted(address)
    }

    /// Whether `address` is on the compliance blacklist.
    pub fn is_blacklisted(&self, address: u64) -> (r: bool)
        ensures
            r == self.spec_compliance().spec_blacklisted(address),
    {
        self.compliance.is_blacklisted(address)
    }

    /// Whether `address` is on the compliance whitelist.
    pub fn is_compliance_whitelisted(&self, address: u64) -> (r: bool)
        ensures
            r == self.spec_compliance().spec_whitelisted(address),
    {
        self.compliance.is_whitelisted(address)
    }

    /// Whether compliance whitelist mode is switched on.
    pub fn is_whitelist_mode_enabled(&self) -> (r: bool)
        ensures
            r == self.spec_compliance().spec_whitelist_mode(),
    {
        self.compliance.is_whitelist_mode_enabled()
    }

    /// Whether the compliance gate admits `address`.
    pub fn is_participant_allowed(&self, address: u64) -> (r: bool)
        ensures
            r == self.spec_compliance().spec_allowed(address),
    {
        self.compliance.is_participant_allowed(address)
    }
}

} // verus!
