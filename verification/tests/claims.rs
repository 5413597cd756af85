//! Time-bounded claim authorizations layered on locked escrows.

use bounty_escrow::Error;
use bounty_escrow::EscrowContract;
use bounty_escrow::EscrowStatus;
use bounty_escrow::RefundMode;
use bounty_escrow::TokenLedger;

const CONTRACT: u64 = 100;
const ADMIN: u64 = 1;
const DEPOSITOR: u64 = 2;
const CONTRIBUTOR: u64 = 3;
const TOKEN: u64 = 50;

fn setup() -> (EscrowContract, TokenLedger) {
    let mut escrow = EscrowContract::new(CONTRACT);
    let mut ledger = TokenLedger::new();
    escrow.init(ADMIN, TOKEN, 0).unwrap();
    ledger.mint(DEPOSITOR, 1_000_000).unwrap();
    (escrow, ledger)
}

#[test]
fn test_set_claim_window_success() {
    let (mut escrow, _ledger) = setup();
    escrow.set_claim_window(ADMIN, 7200).unwrap();
}

#[test]
fn test_authorize_claim_creates_pending_claim() {
    let (mut escrow, mut ledger) = setup();
    let bounty_id = 1;
    let amount = 1000;
    let now = 0;
    let deadline = now + 1000;

    escrow
        .lock_funds(&mut ledger, DEPOSITOR, bounty_id, amount, deadline, now)
        .unwrap();
    escrow.set_claim_window(ADMIN, 3600).unwrap();
    escrow
        .authorize_claim(ADMIN, bounty_id, CONTRIBUTOR, now)
        .unwrap();

    let claim = escrow.get_pending_claim(bounty_id).unwrap();
    assert_eq!(claim.recipient, CONTRIBUTOR);
    assert_eq!(claim.amount, amount);
    assert!(!claim.claimed);
    assert!(claim.expires_at > now);
}

#[test]
fn test_claim_within_window_transfers_funds() {
    let (mut escrow, mut ledger) = setup();
    let bounty_id = 1;
    let amount = 1000;
    let now = 0;
    let deadline = now + 1000;

    escrow
        .lock_funds(&mut ledger, DEPOSITOR, bounty_id, amount, deadline, now)
        .unwrap();
    escrow.set_claim_window(ADMIN, 3600).unwrap();
    escrow
        .authorize_claim(ADMIN, bounty_id, CONTRIBUTOR, now)
        .unwrap();

    escrow.claim(&mut ledger, CONTRIBUTOR, bounty_id, now).unwrap();

    assert_eq!(ledger.balance(CONTRIBUTOR), amount);
    assert_eq!(ledger.balance(CONTRACT), 0);

    let info = escrow.get_escrow_info(bounty_id).unwrap();
    assert_eq!(info.status, EscrowStatus::Released);
    assert_eq!(info.remaining_amount, 0);
}

#[test]
fn test_claim_after_window_expires_panics() {
    let (mut escrow, mut ledger) = setup();
    let bounty_id = 1;
    let amount = 1000;
    let now = 0;
    let deadline = now + 10000;

    escrow
        .lock_funds(&mut ledger, DEPOSITOR, bounty_id, amount, deadline, now)
        .unwrap();
    escrow.set_claim_window(ADMIN, 3600).unwrap();
    escrow
        .authorize_claim(ADMIN, bounty_id, CONTRIBUTOR, now)
        .unwrap();

    let r = escrow.claim(&mut ledger, CONTRIBUTOR, bounty_id, now + 3601);
    assert_eq!(r, Err(Error::ClaimExpired));
    assert_eq!(Error::ClaimExpired.code(), 11);
    assert_eq!(ledger.balance(CONTRIBUTOR), 0);
}

#[test]
fn test_cancel_pending_claim_restores_escrow() {
    let (mut escrow, mut ledger) = setup();
    let bounty_id = 1;
    let amount = 1000;
    let now = 0;
    let deadline = now + 1000;

    escrow
        .lock_funds(&mut ledger, DEPOSITOR, bounty_id, amount, deadline, now)
        .unwrap();
    escrow.set_claim_window(ADMIN, 3600).unwrap();
    escrow
        .authorize_claim(ADMIN, bounty_id, CONTRIBUTOR, now)
        .unwrap();

    escrow.cancel_pending_claim(ADMIN, bounty_id).unwrap();

    assert_eq!(ledger.balance(CONTRACT), amount);
    assert_eq!(ledger.balance(CONTRIBUTOR), 0);

    let info = escrow.get_escrow_info(bounty_id).unwrap();
    assert_eq!(info.status, EscrowStatus::Locked);
    assert!(escrow.get_pending_claim(bounty_id).is_err());
}

#[test]
fn test_get_pending_claim_not_found() {
    let (escrow, _ledger) = setup();
    let r = escrow.get_pending_claim(999);
    assert_eq!(r.unwrap_err(), Error::ClaimNotFound);
    assert_eq!(Error::ClaimNotFound.code(), 9);
}

#[test]
fn test_cancel_pending_claim_not_found() {
    let (mut escrow, mut ledger) = setup();
    let bounty_id = 1;
    escrow
        .lock_funds(&mut ledger, DEPOSITOR, bounty_id, 1000, 1000, 0)
        .unwrap();
    let r = escrow.cancel_pending_claim(ADMIN, bounty_id);
    assert_eq!(r, Err(Error::ClaimNotFound));
}

#[test]
fn test_claim_twice_panics() {
    let (mut escrow, mut ledger) = setup();
    let bounty_id = 1;
    let now = 0;

    escrow
        .lock_funds(&mut ledger, DEPOSITOR, bounty_id, 1000, now + 1000, now)
        .unwrap();
    escrow.set_claim_window(ADMIN, 3600).unwrap();
    escrow
        .authorize_claim(ADMIN, bounty_id, CONTRIBUTOR, now)
        .unwrap();

    escrow.claim(&mut ledger, CONTRIBUTOR, bounty_id, now).unwrap();
    let second = escrow.claim(&mut ledger, CONTRIBUTOR, bounty_id, now);
    assert_eq!(second, Err(Error::FundsNotLocked));
}

#[test]
fn test_authorize_claim_default_window_used_when_not_set() {
    let (mut escrow, mut ledger) = setup();
    let bounty_id = 1;
    let now = 0;

    escrow
        .lock_funds(&mut ledger, DEPOSITOR, bounty_id, 1000, now + 1000, now)
        .unwrap();
    escrow
        .authorize_claim(ADMIN, bounty_id, CONTRIBUTOR, now)
        .unwrap();

    let claim = escrow.get_pending_claim(bounty_id).unwrap();
    let expected_expiry = now + 86400;
    assert_eq!(claim.expires_at, expected_expiry);
    assert_eq!(bounty_escrow::DEFAULT_CLAIM_WINDOW, 86400);
}

#[test]
fn test_authorize_claim_on_nonexistent_bounty() {
    let (mut escrow, _ledger) = setup();
    let r = escrow.authorize_claim(ADMIN, 999, CONTRIBUTOR, 0);
    assert_eq!(r, Err(Error::BountyNotFound));
}

#[test]
fn test_authorize_claim_on_released_bounty() {
    let (mut escrow, mut ledger) = setup();
    let bounty_id = 1;
    let now = 0;

    escrow
        .lock_funds(&mut ledger, DEPOSITOR, bounty_id, 1000, now + 1000, now)
        .unwrap();
    escrow
        .release_funds(&mut ledger, ADMIN, bounty_id, CONTRIBUTOR, now)
        .unwrap();

    let r = escrow.authorize_claim(ADMIN, bounty_id, CONTRIBUTOR, now);
    assert_eq!(r, Err(Error::FundsNotLocked));
}

#[test]
fn test_authorize_claim_on_refunded_bounty() {
    let (mut escrow, mut ledger) = setup();
    let bounty_id = 1;
    let current_time = 0;
    let deadline = current_time + 1000;

    escrow
        .lock_funds(&mut ledger, DEPOSITOR, bounty_id, 1000, deadline, current_time)
        .unwrap();
    escrow
        .refund_with(
            &mut ledger,
            DEPOSITOR,
            bounty_id,
            None,
            None,
            RefundMode::Full,
            deadline + 1,
        )
        .unwrap();

    let r = escrow.authorize_claim(ADMIN, bounty_id, CONTRIBUTOR, deadline + 1);
    assert_eq!(r, Err(Error::FundsNotLocked));
}

#[test]
fn test_claim_at_exact_window_boundary_succeeds() {
    let (mut escrow, mut ledger) = setup();
    let bounty_id = 1;
    let amount = 1000;
    let now = 0;
    let deadline = now + 10000;
    let claim_window = 3600u64;

    escrow
        .lock_funds(&mut ledger, DEPOSITOR, bounty_id, amount, deadline, now)
        .unwrap();
    escrow.set_claim_window(ADMIN, claim_window).unwrap();
    escrow
        .authorize_claim(ADMIN, bounty_id, CONTRIBUTOR, now)
        .unwrap();

    escrow
        .claim(&mut ledger, CONTRIBUTOR, bounty_id, now + claim_window)
        .unwrap();

    assert_eq!(ledger.balance(CONTRIBUTOR), amount);
}

#[test]
fn test_cancel_expired_claim_then_authorize_new_one() {
    let (mut escrow, mut ledger) = setup();
    let bounty_id = 1;
    let now = 0;
    let deadline = now + 10000;

    escrow
        .lock_funds(&mut ledger, DEPOSITOR, bounty_id, 1000, deadline, now)
        .unwrap();
    escrow.set_claim_window(ADMIN, 3600).unwrap();
    escrow
        .authorize_claim(ADMIN, bounty_id, CONTRIBUTOR, now)
        .unwrap();

    let later = now + 3601;
    escrow.cancel_pending_claim(ADMIN, bounty_id).unwrap();

    let new_contributor = 42u64;
    escrow
        .authorize_claim(ADMIN, bounty_id, new_contributor, later)
        .unwrap();

    let claim = escrow.get_pending_claim(bounty_id).unwrap();
    assert_eq!(claim.recipient, new_contributor);
    assert!(!claim.claimed);
}

#[test]
fn test_cancel_claim_then_use_release_funds_normally() {
    let (mut escrow, mut ledger) = setup();
    let bounty_id = 1;
    let amount = 1000;
    let now = 0;
    let deadline = now + 10000;

    escrow
        .lock_funds(&mut ledger, DEPOSITOR, bounty_id, amount, deadline, now)
        .unwrap();
    escrow.set_claim_window(ADMIN, 3600).unwrap();
    escrow
        .authorize_claim(ADMIN, bounty_id, CONTRIBUTOR, now)
        .unwrap();

    escrow.cancel_pending_claim(ADMIN, bounty_id).unwrap();

    escrow
        .release_funds(&mut ledger, ADMIN, bounty_id, CONTRIBUTOR, now)
        .unwrap();

    assert_eq!(ledger.balance(CONTRIBUTOR), amount);
    let info = escrow.get_escrow_info(bounty_id).unwrap();
    assert_eq!(info.status, EscrowStatus::Released);
}

#[test]
fn test_authorize_claim_zero_window_expires_immediately() {
    let (mut escrow, mut ledger) = setup();
    let bounty_id = 1;
    let now = 0;
    let deadline = now + 10000;

    escrow
        .lock_funds(&mut ledger, DEPOSITOR, bounty_id, 1000, deadline, now)
        .unwrap();
    escrow.set_claim_window(ADMIN, 0).unwrap();
    escrow
        .authorize_claim(ADMIN, bounty_id, CONTRIBUTOR, now)
        .unwrap();

    let claim = escrow.get_pending_claim(bounty_id).unwrap();
    assert!(claim.expires_at <= now);
}

#[test]
fn test_claim_does_not_affect_other_bounties() {
    let (mut escrow, mut ledger) = setup();
    let now = 0;
    let deadline = now + 1000;
    let contributor2 = 33u64;

    ledger.mint(DEPOSITOR, 5000).unwrap();

    escrow
        .lock_funds(&mut ledger, DEPOSITOR, 1, 1000, deadline, now)
        .unwrap();
    escrow
        .lock_funds(&mut ledger, DEPOSITOR, 2, 2000, deadline, now)
        .unwrap();

    escrow.set_claim_window(ADMIN, 3600).unwrap();
    escrow.authorize_claim(ADMIN, 1, CONTRIBUTOR, now).unwrap();

    escrow.claim(&mut ledger, CONTRIBUTOR, 1, now).unwrap();

    let escrow2 = escrow.get_escrow_info(2).unwrap();
    assert_eq!(escrow2.status, EscrowStatus::Locked);
    assert_eq!(escrow2.amount, 2000);
    assert_eq!(ledger.balance(CONTRACT), 2000);

    escrow
        .release_funds(&mut ledger, ADMIN, 2, contributor2, now)
        .unwrap();
    assert_eq!(ledger.balance(contributor2), 2000);
}

#[test]
fn test_claim_requires_recipient() {
    let (mut escrow, mut ledger) = setup();
    let now = 0;
    escrow
        .lock_funds(&mut ledger, DEPOSITOR, 1, 1000, now + 1000, now)
        .unwrap();
    escrow.authorize_claim(ADMIN, 1, CONTRIBUTOR, now).unwrap();

    let wrong = escrow.claim(&mut ledger, DEPOSITOR, 1, now);
    assert_eq!(wrong, Err(Error::Unauthorized));
    assert_eq!(ledger.balance(CONTRIBUTOR), 0);
}

#[test]
fn test_authorize_claim_blocked_while_one_pending() {
    let (mut escrow, mut ledger) = setup();
    let now = 0;
    escrow
        .lock_funds(&mut ledger, DEPOSITOR, 1, 1000, now + 1000, now)
        .unwrap();
    escrow.authorize_claim(ADMIN, 1, CONTRIBUTOR, now).unwrap();

    let second = escrow.authorize_claim(ADMIN, 1, 42, now);
    assert_eq!(second, Err(Error::BountyExists));
}

#[test]
fn test_authorize_claim_with_explicit_window() {
    let (mut escrow, mut ledger) = setup();
    let now = 0;
    escrow
        .lock_funds(&mut ledger, DEPOSITOR, 1, 1000, now + 10_000, now)
        .unwrap();
    escrow.set_claim_window(ADMIN, 3600).unwrap();
    escrow
        .authorize_claim_with_window(ADMIN, 1, CONTRIBUTOR, 60, now)
        .unwrap();

    let claim = escrow.get_pending_claim(1).unwrap();
    assert_eq!(claim.expires_at, now + 60);

    let late = escrow.claim(&mut ledger, CONTRIBUTOR, 1, now + 61);
    assert_eq!(late, Err(Error::ClaimExpired));
    escrow.claim(&mut ledger, CONTRIBUTOR, 1, now + 60).unwrap();
}

#[test]
fn test_authorize_claim_window_saturates_at_end_of_time() {
    let (mut escrow, mut ledger) = setup();
    let now = 100;
    escrow
        .lock_funds(&mut ledger, DEPOSITOR, 1, 1000, now + 10_000, now)
        .unwrap();
    escrow
        .authorize_claim_with_window(ADMIN, 1, CONTRIBUTOR, u64::MAX, now)
        .unwrap();
    let claim = escrow.get_pending_claim(1).unwrap();
    assert_eq!(claim.expires_at, u64::MAX);
}
