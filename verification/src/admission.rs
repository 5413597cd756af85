//! Per-caller sliding-window rate limiter with cooldown and whitelist bypass.
//!
//! Every caller keeps a bounded history of operation timestamps.  A call is
//! admitted when the caller is whitelisted, or when it is past its cooldown
//! and still under its operation budget for the current window; only admitted
//! non-whitelisted calls are recorded.

use vstd::prelude::*;
use std::collections::HashMap;
use crate::errors::Error;
use crate::ring::push_bounded;
use crate::ring::push_evict;

verus! {

broadcast use vstd::std_specs::hash::group_hash_axioms;

/// Sliding-window parameters: window length, operation budget per window,
/// and the minimum spacing between two operations of one caller.
#[derive(Clone, Copy, Debug, PartialEq, Eq, Structural)]
pub struct AntiAbuseConfig {
    pub window_size: u64,
    pub max_operations: u32,
    pub cooldown_period: u64,
}

/// A timestamp counts against the window `[now - window, now]`.
pub open spec fn in_window(ts: u64, now: u64, window: u64) -> bool {
    ts <= now && ts + window >= now
}

/// How many entries of `h` fall into the window ending at `now`.
pub open spec fn count_in_window(h: Seq<u64>, now: u64, window: u64) -> int
    decreases h.len(),
{
    if h.len() == 0 {
        0
    } else {
        count_in_window(h.drop_last(), now, window) + if in_window(h.last(), now, window) {
            1int
        } else {
            0int
        }
    }
}

/// The relation that recording one admitted operation of `caller` at `now`
/// establishes between a controller before and after: the caller's history
/// grows by `now` within the budget bound, and nothing else moves.
pub open spec fn spec_recorded(
    pre: AdmissionController,
    post: AdmissionController,
    caller: u64,
    now: u64,
) -> bool {
    &&& post.spec_history(caller) == push_bounded(
        pre.spec_history(caller),
        now,
        pre.spec_config().max_operations as nat,
    )
    &&& forall|a: u64| a != caller ==> post.spec_history(a) == pre.spec_history(a)
    &&& post.spec_config() == pre.spec_config()
    &&& forall|a: u64| post.spec_whitelisted(a) == pre.spec_whitelisted(a)
}

/// Rate-limit configuration, per-caller whitelist, and per-caller histories.
pub struct AdmissionController {
    config: AntiAbuseConfig,
    whitelist: HashMap<u64, bool>,
    history: HashMap<u64, Vec<u64>>,
}

impl AdmissionController {
    /// The active configuration.
    pub closed spec fn spec_config(self) -> AntiAbuseConfig {
        self.config
    }

    /// `a` bypasses rate limiting.
    pub closed spec fn spec_whitelisted(self, a: u64) -> bool {
        self.whitelist@.contains_key(a)
    }

    /// The recorded timestamps of `a`, oldest first.
    pub closed spec fn spec_history(self, a: u64) -> Seq<u64> {
        if self.history@.contains_key(a) {
            self.history@[a]@
        } else {
            Seq::empty()
        }
    }

    /// `a` acted less than a cooldown period before `now`.
    pub open spec fn spec_in_cooldown(self, a: u64, now: u64) -> bool {
        let h = self.spec_history(a);
        h.len() > 0 && h.last() <= now && now < h.last() + self.spec_config().cooldown_period
    }

    /// `a` has exhausted its operation budget for the window ending at `now`.
    pub open spec fn spec_rate_limited(self, a: u64, now: u64) -> bool {
        count_in_window(self.spec_history(a), now, self.spec_config().window_size)
            >= self.spec_config().max_operations
    }

    /// The admission rule: whitelisted callers always pass; otherwise the
    /// cooldown is checked before the window budget.
    pub open spec fn spec_decision(self, a: u64, now: u64) -> Result<(), Error> {
        if self.spec_whitelisted(a) {
            Ok(())
        } else if self.spec_in_cooldown(a, now) {
            Err(Error::CooldownViolation)
        } else if self.spec_rate_limited(a, now) {
            Err(Error::RateLimitExceeded)
        } else {
            Ok(())
        }
    }

    /// A controller that admits everything: no whitelist entries, no
    /// histories, an unbounded budget, and no cooldown.
    pub fn new() -> (r: AdmissionController)
        ensures
            r.spec_config() == (AntiAbuseConfig {
                window_size: 0,
                max_operations: u32::MAX,
                cooldown_period: 0,
            }),
            forall|a: u64| !r.spec_whitelisted(a),
            forall|a: u64| r.spec_history(a) == Seq::<u64>::empty(),
    {
        AdmissionController {
            config: AntiAbuseConfig { window_size: 0, max_operations: u32::MAX, cooldown_period: 0 },
            whitelist: HashMap::new(),
            history: HashMap::new(),
        }
    }

    /// Replaces the rate-limit configuration.
    pub fn set_config(&mut self, config: AntiAbuseConfig)
        ensures
            final(self).spec_config() == config,
            forall|a: u64| final(self).spec_whitelisted(a) == old(self).spec_whitelisted(a),
            forall|a: u64| final(self).spec_history(a) == old(self).spec_history(a),
    {
        self.config = config;
    }

    /// The active configuration.
    pub fn get_config(&self) -> (r: AntiAbuseConfig)
        ensures
            r == self.spec_config(),
    {
        self.config
    }

    /// Adds `address` to, or removes it from, the rate-limit whitelist.
    pub fn set_whitelist(&mut self, address: u64, whitelisted: bool)
        ensures
            final(self).spec_whitelisted(address) == whitelisted,
            forall|a: u64|
                a != address ==> final(self).spec_whitelisted(a) == old(self).spec_whitelisted(a),
            final(self).spec_config() == old(self).spec_config(),
            forall|a: u64| final(self).spec_history(a) == old(self).spec_history(a),
    {
        if whitelisted {
            self.whitelist.insert(address, true);
        } else {
            self.whitelist.remove(&address);
        }
    }

    /// Whether `address` bypasses rate limiting.
    pub fn is_whitelisted(&self, address: u64) -> (r: bool)
        ensures
            r == self.spec_whitelisted(address),
    {
        self.whitelist.contains_key(&address)
    }

    /// The admission decision for `caller` at `now`, without recording.
    pub fn check(&self, caller: u64, now: u64) -> (r: Result<(), Error>)
        ensures
            r == self.spec_decision(caller, now),
    {
        if self.whitelist.contains_key(&caller) {
            return Ok(());
        }
        let cd = self.config.cooldown_period;
        match self.history.get(&caller) {
            Some(h) => {
                if h.len() > 0 {
                    let last = h[h.len() - 1];
                    if now >= last && now - last < cd {
                        return Err(Error::CooldownViolation);
                    }
                }
                let count = count_window_ops(h, now, self.config.window_size);
                if count >= self.config.max_operations as usize {
                    return Err(Error::RateLimitExceeded);
                }
                Ok(())
            },
            None => {
                if self.config.max_operations == 0 {
                    return Err(Error::RateLimitExceeded);
                }
                Ok(())
            },
        }
    }

    /// Records an admitted operation of `caller` at `now`, evicting history
    /// entries beyond the operation budget.
    pub fn record(&mut self, caller: u64, now: u64)
        ensures
            spec_recorded(*old(self), *final(self), caller, now),
    {
        let mut h: Vec<u64> = match self.history.remove(&caller) {
            Some(v) => v,
            None => Vec::new(),
        };
        push_evict(&mut h, now, self.config.max_operations as usize);
        self.history.insert(caller, h);
    }

    /// The combined rate-limit check: decides for `caller` at `now` and, when
    /// the call is admitted for a caller outside the whitelist, records it.
    pub fn check_rate_limit(&mut self, caller: u64, now: u64) -> (r: Result<(), Error>)
        ensures
            r == old(self).spec_decision(caller, now),
            r is Err || old(self).spec_whitelisted(caller) ==> *final(self) == *old(self),
            r is Ok && !old(self).spec_whitelisted(caller) ==> spec_recorded(
                *old(self),
                *final(self),
                caller,
                now,
            ),
    {
        if self.is_whitelisted(caller) {
            return Ok(());
        }
        let decision = self.check(caller, now);
        match decision {
            Ok(()) => {
                self.record(caller, now);
                Ok(())
            },
            Err(e) => Err(e),
        }
    }
}

/// Counts the history entries that fall into the window ending at `now`.
fn count_window_ops(h: &Vec<u64>, now: u64, window: u64) -> (count: usize)
    ensures
        count == count_in_window(h@, now, window),
{
    let mut count: usize = 0;
    let mut i: usize = 0;
    while i < h.len()
        invariant
            i <= h@.len(),
            count <= i,
            count == count_in_window(h@.subrange(0, i as int), now, window),
        decreases h@.len() - i,
    {
        let ts = h[i];
        if ts <= now && now - ts <= window {
            count = count + 1;
        }
        proof {
            assert(h@.subrange(0, i as int + 1).drop_last() =~= h@.subrange(0, i as int));
            assert(h@.subrange(0, i as int + 1).last() == h@[i as int]);
        }
        i = i + 1;
    }
    proof {
        assert(h@.subrange(0, h@.len() as int) =~= h@);
    }
    count
}

} // verus!
