//! Batch operations and their all-or-nothing guarantee.

use bounty_escrow::Error;
use bounty_escrow::EscrowContract;
use bounty_escrow::EscrowStatus;
use bounty_escrow::LockFundsItem;
use bounty_escrow::ReleaseFundsItem;
use bounty_escrow::TokenLedger;

const CONTRACT: u64 = 100;
const ADMIN: u64 = 1;
const DEPOSITOR: u64 = 2;
const CONTRIBUTOR: u64 = 3;
const TOKEN: u64 = 50;

fn setup() -> (EscrowContract, TokenLedger) {
    let mut escrow = EscrowContract::new(CONTRACT);
    let mut ledger = TokenLedger::new();
    escrow.init(ADMIN, TOKEN, 0).unwrap();
    ledger.mint(DEPOSITOR, 1_000_000).unwrap();
    (escrow, ledger)
}

fn lock_item(bounty_id: u64, amount: i128, deadline: u64) -> LockFundsItem {
    LockFundsItem { bounty_id, depositor: DEPOSITOR, amount, deadline }
}

#[test]
fn test_batch_lock_funds_success() {
    let (mut escrow, mut ledger) = setup();
    let deadline = 1000;

    let items = vec![
        lock_item(1, 1000, deadline),
        lock_item(2, 2000, deadline),
        lock_item(3, 3000, deadline),
    ];

    ledger.mint(DEPOSITOR, 10_000).unwrap();

    let count = escrow
        .batch_lock_funds(&mut ledger, DEPOSITOR, &items, 0)
        .unwrap();
    assert_eq!(count, 3);

    for i in 1..=3 {
        let info = escrow.get_escrow_info(i).unwrap();
        assert_eq!(info.status, EscrowStatus::Locked);
    }

    assert_eq!(escrow.get_balance(&ledger), 6000);
}

#[test]
fn test_batch_lock_funds_empty() {
    let (mut escrow, mut ledger) = setup();
    let items: Vec<LockFundsItem> = vec![];
    let r = escrow.batch_lock_funds(&mut ledger, DEPOSITOR, &items, 0);
    assert_eq!(r, Err(Error::InvalidBatchSize));
    assert_eq!(Error::InvalidBatchSize.code(), 10);
}

#[test]
fn test_batch_lock_funds_duplicate_bounty_id() {
    let (mut escrow, mut ledger) = setup();
    let deadline = 1000;

    escrow
        .lock_funds(&mut ledger, DEPOSITOR, 1, 1000, deadline, 0)
        .unwrap();

    let items = vec![lock_item(1, 2000, deadline), lock_item(2, 3000, deadline)];
    let r = escrow.batch_lock_funds(&mut ledger, DEPOSITOR, &items, 0);
    assert_eq!(r, Err(Error::BountyExists));
}

#[test]
fn test_batch_lock_funds_duplicate_in_batch() {
    let (mut escrow, mut ledger) = setup();
    let deadline = 1000;

    let items = vec![lock_item(1, 1000, deadline), lock_item(1, 2000, deadline)];
    let r = escrow.batch_lock_funds(&mut ledger, DEPOSITOR, &items, 0);
    assert_eq!(r, Err(Error::DuplicateBountyId));
    assert_eq!(Error::DuplicateBountyId.code(), 12);
}

#[test]
fn test_batch_release_funds_success() {
    let (mut escrow, mut ledger) = setup();
    let deadline = 1000;

    escrow
        .lock_funds(&mut ledger, DEPOSITOR, 1, 1000, deadline, 0)
        .unwrap();
    escrow
        .lock_funds(&mut ledger, DEPOSITOR, 2, 2000, deadline, 0)
        .unwrap();
    escrow
        .lock_funds(&mut ledger, DEPOSITOR, 3, 3000, deadline, 0)
        .unwrap();

    let contributor1 = 31u64;
    let contributor2 = 32u64;
    let contributor3 = 33u64;

    let items = vec![
        ReleaseFundsItem { bounty_id: 1, contributor: contributor1 },
        ReleaseFundsItem { bounty_id: 2, contributor: contributor2 },
        ReleaseFundsItem { bounty_id: 3, contributor: contributor3 },
    ];

    let count = escrow
        .batch_release_funds(&mut ledger, ADMIN, &items, 0)
        .unwrap();
    assert_eq!(count, 3);

    for i in 1..=3 {
        let info = escrow.get_escrow_info(i).unwrap();
        assert_eq!(info.status, EscrowStatus::Released);
    }

    assert_eq!(ledger.balance(contributor1), 1000);
    assert_eq!(ledger.balance(contributor2), 2000);
    assert_eq!(ledger.balance(contributor3), 3000);
    assert_eq!(escrow.get_balance(&ledger), 0);
}

#[test]
fn test_batch_release_funds_empty() {
    let (mut escrow, mut ledger) = setup();
    let items: Vec<ReleaseFundsItem> = vec![];
    let r = escrow.batch_release_funds(&mut ledger, ADMIN, &items, 0);
    assert_eq!(r, Err(Error::InvalidBatchSize));
}

#[test]
fn test_batch_release_funds_not_found() {
    let (mut escrow, mut ledger) = setup();
    let items = vec![ReleaseFundsItem { bounty_id: 999, contributor: CONTRIBUTOR }];
    let r = escrow.batch_release_funds(&mut ledger, ADMIN, &items, 0);
    assert_eq!(r, Err(Error::BountyNotFound));
}

#[test]
fn test_batch_release_funds_already_released() {
    let (mut escrow, mut ledger) = setup();
    let deadline = 1000;

    escrow
        .lock_funds(&mut ledger, DEPOSITOR, 1, 1000, deadline, 0)
        .unwrap();
    escrow
        .release_funds(&mut ledger, ADMIN, 1, CONTRIBUTOR, 0)
        .unwrap();

    escrow
        .lock_funds(&mut ledger, DEPOSITOR, 2, 2000, deadline, 0)
        .unwrap();

    let contributor2 = 33u64;
    let items = vec![
        ReleaseFundsItem { bounty_id: 1, contributor: CONTRIBUTOR },
        ReleaseFundsItem { bounty_id: 2, contributor: contributor2 },
    ];

    let r = escrow.batch_release_funds(&mut ledger, ADMIN, &items, 0);
    assert_eq!(r, Err(Error::FundsNotLocked));
    assert_eq!(escrow.get_escrow_info(2).unwrap().status, EscrowStatus::Locked);
    assert_eq!(ledger.balance(contributor2), 0);
}

#[test]
fn test_batch_release_funds_duplicate_in_batch() {
    let (mut escrow, mut ledger) = setup();
    let deadline = 1000;

    escrow
        .lock_funds(&mut ledger, DEPOSITOR, 1, 1000, deadline, 0)
        .unwrap();

    let items = vec![
        ReleaseFundsItem { bounty_id: 1, contributor: CONTRIBUTOR },
        ReleaseFundsItem { bounty_id: 1, contributor: CONTRIBUTOR },
    ];

    let r = escrow.batch_release_funds(&mut ledger, ADMIN, &items, 0);
    assert_eq!(r, Err(Error::DuplicateBountyId));
}

#[test]
fn test_batch_operations_atomicity() {
    let (mut escrow, mut ledger) = setup();
    let deadline = 1000;

    escrow
        .lock_funds(&mut ledger, DEPOSITOR, 1, 1000, deadline, 0)
        .unwrap();
    let balance_before = escrow.get_balance(&ledger);

    let items = vec![lock_item(2, 2000, deadline), lock_item(1, 3000, deadline)];

    let r = escrow.batch_lock_funds(&mut ledger, DEPOSITOR, &items, 0);
    assert_eq!(r, Err(Error::BountyExists));

    assert!(escrow.get_escrow_info(2).is_err());
    assert_eq!(escrow.get_balance(&ledger), balance_before);
}

#[test]
fn test_batch_operations_large_batch() {
    let (mut escrow, mut ledger) = setup();
    let deadline = 1000;

    let mut items: Vec<LockFundsItem> = Vec::new();
    for i in 1..=10u64 {
        items.push(lock_item(i, (i * 100) as i128, deadline));
    }

    ledger.mint(DEPOSITOR, 10_000).unwrap();

    let count = escrow
        .batch_lock_funds(&mut ledger, DEPOSITOR, &items, 0)
        .unwrap();
    assert_eq!(count, 10);

    for i in 1..=10 {
        let info = escrow.get_escrow_info(i).unwrap();
        assert_eq!(info.status, EscrowStatus::Locked);
    }

    let mut release_items: Vec<ReleaseFundsItem> = Vec::new();
    for i in 1..=10u64 {
        release_items.push(ReleaseFundsItem { bounty_id: i, contributor: 200 + i });
    }

    let release_count = escrow
        .batch_release_funds(&mut ledger, ADMIN, &release_items, 0)
        .unwrap();
    assert_eq!(release_count, 10);
}

#[test]
fn test_batch_lock_funds() {
    let (mut escrow, mut ledger) = setup();
    let total_amount = 5000i128;
    ledger.mint(DEPOSITOR, total_amount).unwrap();

    let items = vec![
        lock_item(1, 1000, 100),
        lock_item(2, 2000, 200),
        lock_item(3, 2000, 300),
    ];

    let locked_count = escrow
        .batch_lock_funds(&mut ledger, DEPOSITOR, &items, 0)
        .unwrap();
    assert_eq!(locked_count, 3);

    let escrow1 = escrow.get_escrow_info(1).unwrap();
    let escrow2 = escrow.get_escrow_info(2).unwrap();
    let escrow3 = escrow.get_escrow_info(3).unwrap();

    assert_eq!(escrow1.amount, 1000);
    assert_eq!(escrow2.amount, 2000);
    assert_eq!(escrow3.amount, 2000);
}

#[test]
fn test_batch_release_funds() {
    let (mut escrow, mut ledger) = setup();
    let contributor1 = 31u64;
    let contributor2 = 32u64;

    let amount1 = 1000i128;
    let amount2 = 2000i128;
    ledger.mint(DEPOSITOR, amount1 + amount2).unwrap();

    escrow
        .lock_funds(&mut ledger, DEPOSITOR, 1, amount1, 100, 0)
        .unwrap();
    escrow
        .lock_funds(&mut ledger, DEPOSITOR, 2, amount2, 200, 0)
        .unwrap();

    let items = vec![
        ReleaseFundsItem { bounty_id: 1, contributor: contributor1 },
        ReleaseFundsItem { bounty_id: 2, contributor: contributor2 },
    ];

    let released_count = escrow
        .batch_release_funds(&mut ledger, ADMIN, &items, 0)
        .unwrap();
    assert_eq!(released_count, 2);

    assert_eq!(escrow.get_escrow_info(1).unwrap().status, EscrowStatus::Released);
    assert_eq!(escrow.get_escrow_info(2).unwrap().status, EscrowStatus::Released);
}

#[test]
fn test_batch_lock_duplicate_bounty_id() {
    let (mut escrow, mut ledger) = setup();
    ledger.mint(DEPOSITOR, 5000).unwrap();

    let items = vec![lock_item(1, 1000, 100), lock_item(1, 2000, 200)];

    let r = escrow.batch_lock_funds(&mut ledger, DEPOSITOR, &items, 0);
    assert_eq!(r, Err(Error::DuplicateBountyId));
}

#[test]
fn test_batch_lock_existing_bounty() {
    let (mut escrow, mut ledger) = setup();
    ledger.mint(DEPOSITOR, 5000).unwrap();

    escrow
        .lock_funds(&mut ledger, DEPOSITOR, 1, 1000, 100, 0)
        .unwrap();

    let items = vec![lock_item(1, 2000, 200)];
    let r = escrow.batch_lock_funds(&mut ledger, DEPOSITOR, &items, 0);
    assert_eq!(r, Err(Error::BountyExists));
}

#[test]
fn test_batch_lock_insufficient_funds_leaves_no_trace() {
    let mut escrow = EscrowContract::new(CONTRACT);
    let mut ledger = TokenLedger::new();
    escrow.init(ADMIN, TOKEN, 0).unwrap();
    ledger.mint(DEPOSITOR, 2_500).unwrap();

    let items = vec![
        lock_item(1, 1000, 100),
        lock_item(2, 1000, 100),
        lock_item(3, 1000, 100),
    ];

    let r = escrow.batch_lock_funds(&mut ledger, DEPOSITOR, &items, 0);
    assert_eq!(r, Err(Error::InsufficientBalance));
    assert!(escrow.get_escrow_info(1).is_err());
    assert!(escrow.get_escrow_info(2).is_err());
    assert!(escrow.get_escrow_info(3).is_err());
    assert_eq!(ledger.balance(DEPOSITOR), 2_500);
    assert_eq!(ledger.balance(CONTRACT), 0);
}
