//! Verified escrow engine with risk controls.
//!
//! The crate models an escrow service that holds fungible value per bounty id
//! and releases or refunds it under time, authorization, and abuse
//! constraints.  The host environment (storage, authentication, the token
//! transport, the clock, and the event sink) stays outside; the engine is a
//! state machine over plain values, driven by an authenticated caller id and
//! the current ledger timestamp.

use vstd::prelude::*;

mod admission;
mod breaker;
mod compliance;
mod engine;
mod errors;
mod escrow;
mod laws;
mod ledger;
mod ring;
mod versioning;

pub use admission::AdmissionController;
pub use admission::AntiAbuseConfig;
pub use breaker::CircuitBreaker;
pub use breaker::CircuitBreakerConfig;
pub use breaker::CircuitBreakerStatus;
pub use breaker::CircuitState;
pub use breaker::ErrorEntry;
pub use compliance::AddressBlacklisted;
pub use compliance::AddressUnblacklisted;
pub use compliance::AddressUnwhitelisted;
pub use compliance::AddressWhitelisted;
pub use compliance::BlacklistConfig;
pub use compliance::ComplianceGate;
pub use compliance::WhitelistModeToggled;
pub use engine::DEFAULT_CLAIM_WINDOW;
pub use engine::EscrowContract;
pub use errors::Error;
pub use escrow::AmountPolicy;
pub use escrow::Escrow;
pub use escrow::EscrowStatus;
pub use escrow::LockFundsItem;
pub use escrow::PendingClaim;
pub use escrow::RefundMode;
pub use escrow::ReleaseFundsItem;
pub use laws::lemma_blacklisted_never_participates;
pub use laws::lemma_claim_window_boundary;
pub use laws::lemma_lock_then_get;
pub use laws::lemma_refund_respects_deadline;
pub use laws::lemma_release_funds_not_idempotent;
pub use laws::lemma_whitelist_mode_excludes;
pub use laws::lemma_whitelisted_caller_always_admitted;
pub use ledger::TokenLedger;
pub use versioning::GrainlifyContract;
pub use versioning::INITIAL_VERSION;

verus! {

/// One step of the deterministic 64-bit linear-congruential generator used by
/// the stress tests to derive reproducible pseudo-random case data.
pub fn next_seed(seed: &mut u64) -> (r: u64)
    ensures
        *final(seed) == old(seed).wrapping_mul(6364136223846793005).wrapping_add(1),
        r == *final(seed),
{
    *seed = seed.wrapping_mul(6364136223846793005).wrapping_add(1);
    *seed
}

} // verus!
