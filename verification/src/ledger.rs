//! Model of the external token service.
//!
//! The engine never touches the real token contract; it works against this
//! ledger of per-account balances, which captures exactly what the engine
//! relies on: atomic debit/credit with failure on insufficient balance.  The
//! host reconciles it with the actual value-transfer primitive.

use vstd::prelude::*;
use std::collections::HashMap;
use crate::errors::Error;

verus! {

broadcast use vstd::std_specs::hash::group_hash_axioms;

/// Per-account balances of one fungible token.  Balances never go negative.
pub struct TokenLedger {
    accounts: HashMap<u64, i128>,
}

impl TokenLedger {
    /// Balance of `a`: accounts without an entry hold zero.
    pub closed spec fn bal(self, a: u64) -> int {
        if self.accounts@.contains_key(a) {
            self.accounts@[a] as int
        } else {
            0
        }
    }

    /// All stored balances are non-negative.
    pub closed spec fn wf(self) -> bool {
        forall|a: u64| self.accounts@.contains_key(a) ==> self.accounts@[a] >= 0
    }

    /// Balances of a well-formed ledger are never negative.
    pub proof fn lemma_bal_nonneg(self, a: u64)
        requires
            self.wf(),
        ensures
            self.bal(a) >= 0,
    {
    }

    /// An empty ledger: every account holds zero.
    pub fn new() -> (r: TokenLedger)
        ensures
            r.wf(),
            forall|a: u64| r.bal(a) == 0,
    {
        TokenLedger { accounts: HashMap::new() }
    }

    /// Current balance of `a`.
    pub fn balance(&self, a: u64) -> (r: i128)
        ensures
            r == self.bal(a),
    {
        match self.accounts.get(&a) {
            Some(b) => *b,
            None => 0,
        }
    }

    /// Creates `amount` new units on `to`'s account.
    ///
    /// Fails with `InvalidAmount` exactly when `amount` is negative or the
    /// credited balance would not fit the balance type.
    pub fn mint(&mut self, to: u64, amount: i128) -> (r: Result<(), Error>)
        requires
            old(self).wf(),
        ensures
            final(self).wf(),
            r is Ok <==> 0 <= amount && old(self).bal(to) + amount <= i128::MAX,
            r is Err ==> r == Err::<(), Error>(Error::InvalidAmount) && *final(self) == *old(self),
            r is Ok ==> final(self).bal(to) == old(self).bal(to) + amount,
            r is Ok ==> forall|x: u64| x != to ==> final(self).bal(x) == old(self).bal(x),
    {
        if amount < 0 {
            return Err(Error::InvalidAmount);
        }
        let cur = self.balance(to);
        match cur.checked_add(amount) {
            Some(next) => {
                self.accounts.insert(to, next);
                Ok(())
            },
            None => Err(Error::InvalidAmount),
        }
    }

    /// Moves `amount` units from `from` to `to`, atomically.
    ///
    /// Fails with `InvalidAmount` when `amount` is negative or the credited
    /// balance would not fit the balance type, and with
    /// `InsufficientBalance` when `from` cannot cover `amount`.  A transfer
    /// to the paying account itself is a no-op.  On failure nothing moves.
    pub fn transfer(&mut self, from: u64, to: u64, amount: i128) -> (r: Result<(), Error>)
        requires
            old(self).wf(),
        ensures
            final(self).wf(),
            r is Ok <==> {
                &&& 0 <= amount
                &&& amount <= old(self).bal(from)
                &&& (from != to ==> old(self).bal(to) + amount <= i128::MAX)
            },
            amount < 0 ==> r == Err::<(), Error>(Error::InvalidAmount),
            0 <= amount && old(self).bal(from) < amount ==> r == Err::<(), Error>(
                Error::InsufficientBalance,
            ),
            0 <= amount && amount <= old(self).bal(from) && from != to && old(self).bal(to)
                + amount > i128::MAX ==> r == Err::<(), Error>(Error::InvalidAmount),
            r is Err ==> *final(self) == *old(self),
            r is Ok && from != to ==> {
                &&& final(self).bal(from) == old(self).bal(from) - amount
                &&& final(self).bal(to) == old(self).bal(to) + amount
            },
            r is Ok && from == to ==> *final(self) == *old(self),
            r is Ok ==> forall|x: u64|
                x != from && x != to ==> final(self).bal(x) == old(self).bal(x),
    {
        if amount < 0 {
            return Err(Error::InvalidAmount);
        }
        let from_bal = self.balance(from);
        if from_bal < amount {
            return Err(Error::InsufficientBalance);
        }
        if from == to {
            return Ok(());
        }
        let to_bal = self.balance(to);
        match to_bal.checked_add(amount) {
            Some(credited) => {
                self.accounts.insert(from, from_bal - amount);
                self.accounts.insert(to, credited);
                Ok(())
            },
            None => Err(Error::InvalidAmount),
        }
    }
}

} // verus!
