//! Failure-counted fault isolator gating payout operations.
//!
//! Consecutive downstream failures open the circuit and suspend payouts;
//! recovery is administrator-driven: a reset moves an open circuit into the
//! probing state, and enough consecutive successes there close it again.

use vstd::prelude::*;
use crate::errors::Error;
use crate::ring::push_bounded;
use crate::ring::push_evict;

verus! {

/// The three operating states of the breaker.
#[derive(Clone, Copy, Debug, PartialEq, Eq, Structural)]
pub enum CircuitState {
    /// Normal operation; payouts pass.
    Closed,
    /// Payouts are rejected.
    Open,
    /// Probe mode after an administrative reset; payouts pass, but a single
    /// failure reopens the circuit.
    HalfOpen,
}

/// Thresholds and log bound of the breaker.
#[derive(Clone, Copy, Debug, PartialEq, Eq, Structural)]
pub struct CircuitBreakerConfig {
    /// Consecutive failures that open a closed circuit.
    pub failure_threshold: u32,
    /// Consecutive successes that close a probing circuit.
    pub success_threshold: u32,
    /// Error-log entries retained; the oldest are evicted past this bound.
    pub max_error_log: u32,
}

/// One recorded downstream failure.
#[derive(Clone, Copy, Debug, PartialEq, Eq, Structural)]
pub struct ErrorEntry {
    pub program_id: u64,
    pub op: u32,
    pub error_code: u32,
    pub timestamp: u64,
}

/// Snapshot of the breaker for read-only callers.
#[derive(Clone, Copy, Debug, PartialEq, Eq, Structural)]
pub struct CircuitBreakerStatus {
    pub state: CircuitState,
    pub consecutive_failures: u32,
    pub consecutive_successes: u32,
}

/// The relation that feeding back one successful payout establishes between
/// a breaker before and after.
pub open spec fn spec_success_recorded(pre: CircuitBreaker, post: CircuitBreaker) -> bool {
    &&& post.spec_successes() == if pre.spec_successes() < u32::MAX {
        (pre.spec_successes() + 1) as u32
    } else {
        u32::MAX
    }
    &&& post.spec_failures() == 0
    &&& post.spec_state() == if pre.spec_state() == CircuitState::HalfOpen
        && post.spec_successes() >= pre.spec_config().success_threshold {
        CircuitState::Closed
    } else {
        pre.spec_state()
    }
    &&& post.spec_log() == pre.spec_log()
    &&& post.spec_config() == pre.spec_config()
}

/// The relation that feeding back one failed payout establishes between a
/// breaker before and after.
pub open spec fn spec_failure_recorded(
    pre: CircuitBreaker,
    post: CircuitBreaker,
    program_id: u64,
    op: u32,
    error_code: u32,
    now: u64,
) -> bool {
    &&& post.spec_log() == push_bounded(
        pre.spec_log(),
        ErrorEntry { program_id, op, error_code, timestamp: now },
        pre.spec_config().max_error_log as nat,
    )
    &&& post.spec_failures() == if pre.spec_failures() < u32::MAX {
        (pre.spec_failures() + 1) as u32
    } else {
        u32::MAX
    }
    &&& post.spec_successes() == 0
    &&& post.spec_state() == if pre.spec_state() == CircuitState::HalfOpen {
        CircuitState::Open
    } else if pre.spec_state() == CircuitState::Closed && post.spec_failures()
        >= pre.spec_config().failure_threshold {
        CircuitState::Open
    } else {
        pre.spec_state()
    }
    &&& post.spec_config() == pre.spec_config()
}

/// State, counters, bounded error log, and configuration.
pub struct CircuitBreaker {
    state: CircuitState,
    consecutive_failures: u32,
    consecutive_successes: u32,
    error_log: Vec<ErrorEntry>,
    config: CircuitBreakerConfig,
}

impl CircuitBreaker {
    /// The operating state.
    pub closed spec fn spec_state(self) -> CircuitState {
        self.state
    }

    /// Consecutive failures since the last success or reset.
    pub closed spec fn spec_failures(self) -> u32 {
        self.consecutive_failures
    }

    /// Consecutive successes since the last failure or reset.
    pub closed spec fn spec_successes(self) -> u32 {
        self.consecutive_successes
    }

    /// The active configuration.
    pub closed spec fn spec_config(self) -> CircuitBreakerConfig {
        self.config
    }

    /// The retained failure records, oldest first.
    pub closed spec fn spec_log(self) -> Seq<ErrorEntry> {
        self.error_log@
    }

    /// Payouts pass exactly while the circuit is not open.
    pub open spec fn spec_allows(self) -> bool {
        self.spec_state() != CircuitState::Open
    }

    /// A closed breaker with zeroed counters, an empty log, and default
    /// thresholds.
    pub fn new() -> (r: CircuitBreaker)
        ensures
            r.spec_state() == CircuitState::Closed,
            r.spec_failures() == 0,
            r.spec_successes() == 0,
            r.spec_log() == Seq::<ErrorEntry>::empty(),
            r.spec_config() == (CircuitBreakerConfig {
                failure_threshold: 5,
                success_threshold: 3,
                max_error_log: 50,
            }),
    {
        CircuitBreaker {
            state: CircuitState::Closed,
            consecutive_failures: 0,
            consecutive_successes: 0,
            error_log: Vec::new(),
            config: CircuitBreakerConfig {
                failure_threshold: 5,
                success_threshold: 3,
                max_error_log: 50,
            },
        }
    }

    /// Snapshot of state and counters.
    pub fn get_status(&self) -> (r: CircuitBreakerStatus)
        ensures
            r == (CircuitBreakerStatus {
                state: self.spec_state(),
                consecutive_failures: self.spec_failures(),
                consecutive_successes: self.spec_successes(),
            }),
    {
        CircuitBreakerStatus {
            state: self.state,
            consecutive_failures: self.consecutive_failures,
            consecutive_successes: self.consecutive_successes,
        }
    }

    /// The active configuration.
    pub fn get_config(&self) -> (r: CircuitBreakerConfig)
        ensures
            r == self.spec_config(),
    {
        self.config
    }

    /// Replaces thresholds and log bound.
    pub fn set_config(&mut self, config: CircuitBreakerConfig)
        ensures
            final(self).spec_config() == config,
            final(self).spec_state() == old(self).spec_state(),
            final(self).spec_failures() == old(self).spec_failures(),
            final(self).spec_successes() == old(self).spec_successes(),
            final(self).spec_log() == old(self).spec_log(),
    {
        self.config = config;
    }

    /// A copy of the retained failure records, oldest first.
    pub fn get_error_log(&self) -> (r: Vec<ErrorEntry>)
        ensures
            r@ == self.spec_log(),
    {
        let mut out: Vec<ErrorEntry> = Vec::new();
        let mut i: usize = 0;
        while i < self.error_log.len()
            invariant
                i <= self.error_log@.len(),
                out@ == self.error_log@.subrange(0, i as int),
            decreases self.error_log@.len() - i,
        {
            out.push(self.error_log[i]);
            proof {
                assert(out@ =~= self.error_log@.subrange(0, i as int + 1));
            }
            i = i + 1;
        }
        proof {
            assert(out@ =~= self.error_log@);
        }
        out
    }

    /// Rejects with `CircuitOpen` exactly while the circuit is open.
    pub fn check_and_allow(&self) -> (r: Result<(), Error>)
        ensures
            r is Ok <==> self.spec_allows(),
            r is Err ==> r == Err::<(), Error>(Error::CircuitOpen),
    {
        match self.state {
            CircuitState::Open => Err(Error::CircuitOpen),
            _ => Ok(()),
        }
    }

    /// Feeds back a successful payout: bumps the success streak, clears the
    /// failure streak, and closes a probing circuit once the streak reaches
    /// the success threshold.
    pub fn record_success(&mut self)
        ensures
            spec_success_recorded(*old(self), *final(self)),
    {
        self.consecutive_successes = if self.consecutive_successes < u32::MAX {
            self.consecutive_successes + 1
        } else {
            u32::MAX
        };
        self.consecutive_failures = 0;
        if self.state == CircuitState::HalfOpen
            && self.consecutive_successes >= self.config.success_threshold {
            self.state = CircuitState::Closed;
        }
    }

    /// Feeds back a failed payout: appends a log entry within the bound,
    /// bumps the failure streak, clears the success streak, opens a closed
    /// circuit at the failure threshold, and reopens a probing circuit at
    /// once.
    pub fn record_failure(&mut self, program_id: u64, op: u32, error_code: u32, now: u64)
        ensures
            spec_failure_recorded(
                *old(self),
                *final(self),
                program_id,
                op,
                error_code,
                now,
            ),
    {
        push_evict(
            &mut self.error_log,
            ErrorEntry { program_id, op, error_code, timestamp: now },
            self.config.max_error_log as usize,
        );
        self.consecutive_failures = if self.consecutive_failures < u32::MAX {
            self.consecutive_failures + 1
        } else {
            u32::MAX
        };
        self.consecutive_successes = 0;
        if self.state == CircuitState::HalfOpen {
            self.state = CircuitState::Open;
        } else if self.state == CircuitState::Closed
            && self.consecutive_failures >= self.config.failure_threshold {
            self.state = CircuitState::Open;
        }
    }

    /// Administrative reset: an open circuit moves to probe mode, a probing
    /// circuit closes, a closed circuit stays closed; the reset transitions
    /// clear both streaks.
    pub fn reset(&mut self)
        ensures
            final(self).spec_state() == match old(self).spec_state() {
                CircuitState::Open => CircuitState::HalfOpen,
                CircuitState::HalfOpen => CircuitState::Closed,
                CircuitState::Closed => CircuitState::Closed,
            },
            final(self).spec_failures() == 0,
            final(self).spec_successes() == 0,
            final(self).spec_log() == old(self).spec_log(),
            final(self).spec_config() == old(self).spec_config(),
    {
        self.state = match self.state {
            CircuitState::Open => CircuitState::HalfOpen,
            CircuitState::HalfOpen => CircuitState::Closed,
            CircuitState::Closed => CircuitState::Closed,
        };
        self.consecutive_failures = 0;
        self.consecutive_successes = 0;
    }

    /// Emergency lockout: opens the circuit immediately.
    pub fn emergency_open(&mut self)
        ensures
            final(self).spec_state() == CircuitState::Open,
            final(self).spec_failures() == old(self).spec_failures(),
            final(self).spec_successes() == old(self).spec_successes(),
            final(self).spec_log() == old(self).spec_log(),
            final(self).spec_config() == old(self).spec_config(),
    {
        self.state = CircuitState::Open;
    }
}

} // verus!
