//! Error taxonomy of the escrow engine.

use vstd::prelude::*;

verus! {

/// Every way an engine operation can fail.  Each variant carries a stable
/// numeric code (see [`Error::code`]) so that callers can branch
/// programmatically on the value the host reports.
#[derive(Clone, Copy, Debug, PartialEq, Eq, Structural)]
pub enum Error {
    /// The engine was already initialized and `init` was called again.
    AlreadyInitialized,
    /// A mutating call arrived before `init`.
    NotInitialized,
    /// A lock targeted a bounty id that already holds an escrow, or a claim
    /// authorization targeted a bounty that already has a pending claim.
    BountyExists,
    /// No escrow record exists under the given bounty id.
    BountyNotFound,
    /// The escrow exists but is no longer in the `Locked` state.
    FundsNotLocked,
    /// A refund was attempted strictly before the escrow deadline.
    DeadlineNotPassed,
    /// The caller is not entitled to the operation, or a participant is
    /// barred by the compliance gate.
    Unauthorized,
    /// A value transfer could not be covered by the paying account.
    InsufficientBalance,
    /// No pending claim exists under the given bounty id.
    ClaimNotFound,
    /// A batch operation received an empty item list.
    InvalidBatchSize,
    /// The claim window closed before the claim call.
    ClaimExpired,
    /// Two items of one batch name the same bounty id.
    DuplicateBountyId,
    /// A non-positive amount, or an amount a partial refund cannot cover.
    InvalidAmount,
    /// A lock deadline that is not strictly in the future.
    InvalidDeadline,
    /// The locked amount falls below the configured minimum.
    AmountBelowMinimum,
    /// The locked amount exceeds the configured maximum.
    AmountAboveMaximum,
    /// An amount policy whose bounds are not `0 < min <= max`.
    InvalidPolicy,
    /// The caller exhausted its operation budget for the sliding window.
    RateLimitExceeded,
    /// The caller acted again before its cooldown period elapsed.
    CooldownViolation,
    /// The circuit breaker is open; payouts are suspended.
    CircuitOpen,
}

impl Error {
    /// The stable numeric code reported to external callers.
    pub fn code(&self) -> (c: u32)
        ensures
            c == self.spec_code(),
    {
        match self {
            Error::AlreadyInitialized => 1,
            Error::NotInitialized => 2,
            Error::BountyExists => 3,
            Error::BountyNotFound => 4,
            Error::FundsNotLocked => 5,
            Error::DeadlineNotPassed => 6,
            Error::Unauthorized => 7,
            Error::InsufficientBalance => 8,
            Error::ClaimNotFound => 9,
            Error::InvalidBatchSize => 10,
            Error::ClaimExpired => 11,
            Error::DuplicateBountyId => 12,
            Error::InvalidAmount => 13,
            Error::InvalidDeadline => 14,
            Error::AmountBelowMinimum => 15,
            Error::AmountAboveMaximum => 16,
            Error::InvalidPolicy => 17,
            Error::RateLimitExceeded => 18,
            Error::CooldownViolation => 19,
            Error::CircuitOpen => 20,
        }
    }

    /// Mathematical image of [`Error::code`].
    pub open spec fn spec_code(self) -> u32 {
        match self {
            Error::AlreadyInitialized => 1,
            Error::NotInitialized => 2,
            Error::BountyExists => 3,
            Error::BountyNotFound => 4,
            Error::FundsNotLocked => 5,
            Error::DeadlineNotPassed => 6,
            Error::Unauthorized => 7,
            Error::InsufficientBalance => 8,
            Error::ClaimNotFound => 9,
            Error::InvalidBatchSize => 10,
            Error::ClaimExpired => 11,
            Error::DuplicateBountyId => 12,
            Error::InvalidAmount => 13,
            Error::InvalidDeadline => 14,
            Error::AmountBelowMinimum => 15,
            Error::AmountAboveMaximum => 16,
            Error::InvalidPolicy => 17,
            Error::RateLimitExceeded => 18,
            Error::CooldownViolation => 19,
            Error::CircuitOpen => 20,
        }
    }
}

} // verus!
