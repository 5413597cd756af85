//! System-wide guarantees stated and proved over the engine's contracts.
//!
//! Each proof function here is a law of the engine: its `requires` hold
//! exactly the facts that the corresponding entry-point contracts establish,
//! so the conclusion applies to every execution of those entry points.

use vstd::prelude::*;
use crate::admission::AdmissionController;
use crate::engine::EscrowContract;
use crate::errors::Error;
use crate::escrow::Escrow;
use crate::escrow::EscrowStatus;
use crate::escrow::RefundMode;
use crate::ledger::TokenLedger;

verus! {

/// After a successful lock of `(id, amount, deadline)`, the record that a
/// lookup of `id` returns is exactly the locked escrow: the given depositor,
/// the full amount still remaining, status `Locked`, and the given deadline.
pub proof fn lemma_lock_then_get(
    pre: EscrowContract,
    post: EscrowContract,
    depositor: u64,
    id: u64,
    amount: i128,
    deadline: u64,
)
    requires
        post.spec_escrows() == pre.spec_escrows().insert(
            id,
            EscrowContract::spec_locked_escrow(depositor, amount, deadline),
        ),
    ensures
        post.spec_escrows().contains_key(id),
        post.spec_escrows()[id] == (Escrow {
            depositor,
            amount,
            remaining_amount: amount,
            status: EscrowStatus::Locked,
            deadline,
        }),
{
}

/// A release is not idempotent: once an escrow has been paid out, a second
/// release of the same id — however admissible its caller, recipient, rate
/// budget, and circuit state — fails with `FundsNotLocked`.
pub proof fn lemma_release_funds_not_idempotent(
    pre: EscrowContract,
    post: EscrowContract,
    led: TokenLedger,
    caller: u64,
    id: u64,
    recipient: u64,
    now: u64,
)
    requires
        pre.spec_escrows().contains_key(id),
        post.spec_escrows() == pre.spec_escrows().insert(
            id,
            EscrowContract::spec_paid_out_escrow(pre.spec_escrows()[id]),
        ),
        post.spec_admin_gate(caller) is Ok,
        post.spec_participant_ok(recipient),
        post.spec_admission().spec_decision(caller, now) is Ok,
        post.spec_breaker().spec_allows(),
    ensures
        post.spec_release_result(led, caller, id, recipient, now) == Err::<(), Error>(
            Error::FundsNotLocked,
        ),
{
}

/// A blacklisted address can never lock funds, be the recipient of a
/// release, or be authorized for a claim — whatever else holds of the state,
/// and even if the address is also whitelisted.
pub proof fn lemma_blacklisted_never_participates(
    s: EscrowContract,
    led: TokenLedger,
    address: u64,
    caller: u64,
    id: u64,
    amount: i128,
    deadline: u64,
    now: u64,
)
    requires
        s.spec_compliance().spec_blacklisted(address),
    ensures
        s.spec_lock_result(led, address, id, amount, deadline, now) is Err,
        s.spec_release_result(led, caller, id, address, now) is Err,
        s.spec_authorize_result(caller, id, address) is Err,
{
}

/// Under whitelist mode, an address outside the compliance whitelist cannot
/// lock funds or receive a release, blacklisted or not.
pub proof fn lemma_whitelist_mode_excludes(
    s: EscrowContract,
    led: TokenLedger,
    address: u64,
    caller: u64,
    id: u64,
    amount: i128,
    deadline: u64,
    now: u64,
)
    requires
        s.spec_compliance().spec_whitelist_mode(),
        !s.spec_compliance().spec_whitelisted(address),
    ensures
        s.spec_lock_result(led, address, id, amount, deadline, now) is Err,
        s.spec_release_result(led, caller, id, address, now) is Err,
{
}

/// The claim window closes after `expires_at`, inclusively: with every other
/// admission condition in place, a claim succeeds exactly up to that time,
/// and later attempts fail with `ClaimExpired`.
pub proof fn lemma_claim_window_boundary(
    s: EscrowContract,
    led: TokenLedger,
    caller: u64,
    id: u64,
    now: u64,
)
    requires
        s.spec_initialized(),
        s.spec_breaker().spec_allows(),
        s.spec_claims().contains_key(id),
        !s.spec_claims()[id].claimed,
        s.spec_escrows().contains_key(id),
        s.spec_escrows()[id].status == EscrowStatus::Locked,
        caller == s.spec_claims()[id].recipient,
        s.spec_participant_ok(s.spec_claims()[id].recipient),
        led.bal(s.spec_contract_address()) >= s.spec_escrows()[id].remaining_amount,
        led.bal(s.spec_claims()[id].recipient) + s.spec_escrows()[id].remaining_amount
            <= i128::MAX,
    ensures
        s.spec_claim_result(led, caller, id, now) is Ok <==> now <= s.spec_claims()[id].expires_at,
        now > s.spec_claims()[id].expires_at ==> s.spec_claim_result(led, caller, id, now)
            == Err::<(), Error>(Error::ClaimExpired),
{
}

/// A refund strictly before the deadline is rejected with
/// `DeadlineNotPassed`, whatever the ledger holds.
pub proof fn lemma_refund_respects_deadline(
    s: EscrowContract,
    led: TokenLedger,
    caller: u64,
    id: u64,
    now: u64,
)
    requires
        s.spec_initialized(),
        s.spec_admission().spec_decision(caller, now) is Ok,
        s.spec_escrows().contains_key(id),
        s.spec_escrows()[id].status == EscrowStatus::Locked,
        now < s.spec_escrows()[id].deadline,
    ensures
        s.spec_refund_result(led, caller, id, None, None, RefundMode::Full, now) == Err::<
            (),
            Error,
        >(Error::DeadlineNotPassed),
{
}

/// A caller on the rate-limit whitelist is admitted unconditionally, at any
/// instant and with any history.
pub proof fn lemma_whitelisted_caller_always_admitted(
    adm: AdmissionController,
    caller: u64,
    now: u64,
)
    requires
        adm.spec_whitelisted(caller),
    ensures
        adm.spec_decision(caller, now) == Ok::<(), Error>(()),
{
}

} // verus!
