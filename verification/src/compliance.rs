//! Participant blacklist and whitelist filter.
//!
//! The blacklist is always enforced; the whitelist only matters while
//! whitelist mode is switched on.  Every mutation yields an audit record for
//! the host's event sink.

use vstd::prelude::*;
use std::collections::HashMap;

verus! {

broadcast use vstd::std_specs::hash::group_hash_axioms;

/// Enforcement configuration of the compliance gate.
#[derive(Clone, Copy, Debug, PartialEq, Eq, Structural)]
pub struct BlacklistConfig {
    /// Whether blacklist bookkeeping is active.
    pub enabled: bool,
    /// When set, only whitelisted addresses may participate.
    pub whitelist_mode: bool,
}

/// Audit record: an address was added to the blacklist.
#[derive(Clone, Copy, Debug, PartialEq, Eq)]
pub struct AddressBlacklisted {
    pub address: u64,
    pub reason: Option<u64>,
    pub timestamp: u64,
}

/// Audit record: an address was removed from the blacklist.
#[derive(Clone, Copy, Debug, PartialEq, Eq, Structural)]
pub struct AddressUnblacklisted {
    pub address: u64,
    pub timestamp: u64,
}

/// Audit record: an address was added to the whitelist.
#[derive(Clone, Copy, Debug, PartialEq, Eq, Structural)]
pub struct AddressWhitelisted {
    pub address: u64,
    pub timestamp: u64,
}

/// Audit record: an address was removed from the whitelist.
#[derive(Clone, Copy, Debug, PartialEq, Eq, Structural)]
pub struct AddressUnwhitelisted {
    pub address: u64,
    pub timestamp: u64,
}

/// Audit record: whitelist mode was switched on or off.
#[derive(Clone, Copy, Debug, PartialEq, Eq, Structural)]
pub struct WhitelistModeToggled {
    pub enabled: bool,
    pub timestamp: u64,
}

/// Blacklist map, whitelist map, and the mode flag.
pub struct ComplianceGate {
    blacklist: HashMap<u64, Option<u64>>,
    whitelist: HashMap<u64, bool>,
    config: BlacklistConfig,
}

impl ComplianceGate {
    /// `a` is on the blacklist.
    pub closed spec fn spec_blacklisted(self, a: u64) -> bool {
        self.blacklist@.contains_key(a)
    }

    /// The reason code recorded with `a`'s blacklist entry, if any.
    pub closed spec fn spec_reason(self, a: u64) -> Option<u64>
        recommends
            self.spec_blacklisted(a),
    {
        self.blacklist@[a]
    }

    /// `a` is on the whitelist.
    pub closed spec fn spec_whitelisted(self, a: u64) -> bool {
        self.whitelist@.contains_key(a)
    }

    /// Whitelist mode is switched on.
    pub closed spec fn spec_whitelist_mode(self) -> bool {
        self.config.whitelist_mode
    }

    /// The eligibility rule: the blacklist always wins, and under whitelist
    /// mode the address must additionally be whitelisted.
    pub open spec fn spec_allowed(self, a: u64) -> bool {
        &&& !self.spec_blacklisted(a)
        &&& (self.spec_whitelist_mode() ==> self.spec_whitelisted(a))
    }

    /// A gate with empty lists and whitelist mode off.
    pub fn new() -> (r: ComplianceGate)
        ensures
            forall|a: u64| !r.spec_blacklisted(a),
            forall|a: u64| !r.spec_whitelisted(a),
            !r.spec_whitelist_mode(),
    {
        ComplianceGate {
            blacklist: HashMap::new(),
            whitelist: HashMap::new(),
            config: BlacklistConfig { enabled: true, whitelist_mode: false },
        }
    }

    /// Adds `address` to the blacklist, remembering the optional reason code.
    pub fn add_to_blacklist(&mut self, address: u64, reason: Option<u64>, now: u64) -> (ev:
        AddressBlacklisted)
        ensures
            final(self).spec_blacklisted(address),
            final(self).spec_reason(address) == reason,
            forall|a: u64|
                a != address ==> final(self).spec_blacklisted(a) == old(self).spec_blacklisted(a),
            forall|a: u64|
                a != address ==> final(self).spec_reason(a) == old(self).spec_reason(a),
            forall|a: u64| final(self).spec_whitelisted(a) == old(self).spec_whitelisted(a),
            final(self).spec_whitelist_mode() == old(self).spec_whitelist_mode(),
            ev == (AddressBlacklisted { address, reason, timestamp: now }),
    {
        self.blacklist.insert(address, reason);
        AddressBlacklisted { address, reason, timestamp: now }
    }

    /// Removes `address` from the blacklist; yields an audit record only if
    /// the address was present.
    pub fn remove_from_blacklist(&mut self, address: u64, now: u64) -> (ev: Option<
        AddressUnblacklisted,
    >)
        ensures
            !final(self).spec_blacklisted(address),
            forall|a: u64|
                a != address ==> final(self).spec_blacklisted(a) == old(self).spec_blacklisted(a),
            forall|a: u64|
                a != address ==> final(self).spec_reason(a) == old(self).spec_reason(a),
            forall|a: u64| final(self).spec_whitelisted(a) == old(self).spec_whitelisted(a),
            final(self).spec_whitelist_mode() == old(self).spec_whitelist_mode(),
            ev is Some <==> old(self).spec_blacklisted(address),
            ev is Some ==> ev == Some(AddressUnblacklisted { address, timestamp: now }),
    {
        if self.blacklist.contains_key(&address) {
            self.blacklist.remove(&address);
            Some(AddressUnblacklisted { address, timestamp: now })
        } else {
            None
        }
    }

    /// Whether `address` is blacklisted.
    pub fn is_blacklisted(&self, address: u64) -> (r: bool)
        ensures
            r == self.spec_blacklisted(address),
    {
        self.blacklist.contains_key(&address)
    }

    /// Adds `address` to the whitelist.
    pub fn add_to_whitelist(&mut self, address: u64, now: u64) -> (ev: AddressWhitelisted)
        ensures
            final(self).spec_whitelisted(address),
            forall|a: u64|
                a != address ==> final(self).spec_whitelisted(a) == old(self).spec_whitelisted(a),
            forall|a: u64| final(self).spec_blacklisted(a) == old(self).spec_blacklisted(a),
            forall|a: u64| final(self).spec_reason(a) == old(self).spec_reason(a),
            final(self).spec_whitelist_mode() == old(self).spec_whitelist_mode(),
            ev == (AddressWhitelisted { address, timestamp: now }),
    {
        self.whitelist.insert(address, true);
        AddressWhitelisted { address, timestamp: now }
    }

    /// Removes `address` from the whitelist; yields an audit record only if
    /// the address was present.
    pub fn remove_from_whitelist(&mut self, address: u64, now: u64) -> (ev: Option<
        AddressUnwhitelisted,
    >)
        ensures
            !final(self).spec_whitelisted(address),
            forall|a: u64|
                a != address ==> final(self).spec_whitelisted(a) == old(self).spec_whitelisted(a),
            forall|a: u64| final(self).spec_blacklisted(a) == old(self).spec_blacklisted(a),
            forall|a: u64| final(self).spec_reason(a) == old(self).spec_reason(a),
            final(self).spec_whitelist_mode() == old(self).spec_whitelist_mode(),
            ev is Some <==> old(self).spec_whitelisted(address),
            ev is Some ==> ev == Some(AddressUnwhitelisted { address, timestamp: now }),
    {
        if self.whitelist.contains_key(&address) {
            self.whitelist.remove(&address);
            Some(AddressUnwhitelisted { address, timestamp: now })
        } else {
            None
        }
    }

    /// Whether `address` is whitelisted.
    pub fn is_whitelisted(&self, address: u64) -> (r: bool)
        ensures
            r == self.spec_whitelisted(address),
    {
        self.whitelist.contains_key(&address)
    }

    /// Switches whitelist mode on or off.
    pub fn set_whitelist_mode(&mut self, enabled: bool, now: u64) -> (ev: WhitelistModeToggled)
        ensures
            final(self).spec_whitelist_mode() == enabled,
            forall|a: u64| final(self).spec_blacklisted(a) == old(self).spec_blacklisted(a),
            forall|a: u64| final(self).spec_reason(a) == old(self).spec_reason(a),
            forall|a: u64| final(self).spec_whitelisted(a) == old(self).spec_whitelisted(a),
            ev == (WhitelistModeToggled { enabled, timestamp: now }),
    {
        self.config.whitelist_mode = enabled;
        WhitelistModeToggled { enabled, timestamp: now }
    }

    /// Whether whitelist mode is switched on.
    pub fn is_whitelist_mode_enabled(&self) -> (r: bool)
        ensures
            r == self.spec_whitelist_mode(),
    {
        self.config.whitelist_mode
    }

    /// Whether `address` may participate: never while blacklisted, and under
    /// whitelist mode only while whitelisted.
    pub fn is_participant_allowed(&self, address: u64) -> (r: bool)
        ensures
            r == self.spec_allowed(address),
    {
        if self.is_blacklisted(address) {
            return false;
        }
        if self.is_whitelist_mode_enabled() {
            return self.is_whitelisted(address);
        }
        true
    }
}

} // verus!
