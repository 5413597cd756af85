//! Data model of the fund lifecycle.

use vstd::prelude::*;

verus! {

/// Lifecycle state of one escrow record.  Transitions are one-directional:
/// `Locked` moves to `Released` or `Refunded` exactly once and never back.
#[derive(Clone, Copy, Debug, PartialEq, Eq, Structural)]
pub enum EscrowStatus {
    Locked,
    Released,
    Refunded,
}

/// One custodial record, keyed by a caller-chosen bounty id.
#[derive(Clone, Copy, Debug, PartialEq, Eq, Structural)]
pub struct Escrow {
    /// The party whose funds are held.
    pub depositor: u64,
    /// The amount locked at creation.
    pub amount: i128,
    /// What is still held; positive exactly while `Locked`.
    pub remaining_amount: i128,
    pub status: EscrowStatus,
    /// From this ledger time on, the depositor may reclaim the funds.
    pub deadline: u64,
}

/// Inclusive bounds on lock amounts; absent policy admits any positive
/// amount.
#[derive(Clone, Copy, Debug, PartialEq, Eq, Structural)]
pub struct AmountPolicy {
    pub min: i128,
    pub max: i128,
}

/// Whether a refund returns everything that remains or a caller-chosen part.
#[derive(Clone, Copy, Debug, PartialEq, Eq, Structural)]
pub enum RefundMode {
    Full,
    Partial,
}

/// A time-bounded, single-recipient payout authorization attached to one
/// locked escrow.
#[derive(Clone, Copy, Debug, PartialEq, Eq, Structural)]
pub struct PendingClaim {
    pub recipient: u64,
    /// The remaining amount at authorization time; the claim itself pays out
    /// whatever remains when it is exercised.
    pub amount: i128,
    pub created_at: u64,
    /// A claim exactly at this time still succeeds.
    pub expires_at: u64,
    pub claimed: bool,
}

/// One item of a batch lock request.
#[derive(Clone, Copy, Debug, PartialEq, Eq, Structural)]
pub struct LockFundsItem {
    pub bounty_id: u64,
    pub depositor: u64,
    pub amount: i128,
    pub deadline: u64,
}

/// One item of a batch release request.
#[derive(Clone, Copy, Debug, PartialEq, Eq, Structural)]
pub struct ReleaseFundsItem {
    pub bounty_id: u64,
    pub contributor: u64,
}

} // verus!
