//! Multi-asset balances: one native amount plus amounts per token contract.
use vstd::prelude::*;
use crate::assoc::{assoc, unique_keys, has_key, find_key, lemma_assoc_push, lemma_assoc_update, lemma_unique_push};
use crate::error::ContractError;

verus! {

/// A single contribution: either native coins or one token transfer.
#[derive(Debug, Clone)]
pub enum Balance {
    Native(u128),
    Cw20 { address: String, amount: u128 },
}

impl Balance {
    pub open spec fn spec_is_empty(&self) -> bool {
        match self {
            Balance::Native(a) => *a == 0,
            Balance::Cw20 { amount, .. } => *amount == 0,
        }
    }

    /// A contribution is empty when it carries no value.
    pub fn is_empty(&self) -> (r: bool)
        ensures
            r == self.spec_is_empty(),
    {
        match self {
            Balance::Native(a) => *a == 0,
            Balance::Cw20 { amount, .. } => *amount == 0,
        }
    }
}

/// The balance held by an agreement or by the coverage pool.
#[derive(Debug, Clone)]
pub struct GenericBalance {
    pub native: u128,
    /// Token contract address and amount; each address at most once.
    pub cw20: Vec<(String, u128)>,
}

/// Amount of token `k` in a list of entries (zero when absent).
pub open spec fn amount_in(s: Seq<(String, u128)>, k: Seq<char>) -> nat {
    match assoc(s, k) {
        Some(a) => a as nat,
        None => 0,
    }
}

impl GenericBalance {
    pub open spec fn wf(&self) -> bool {
        unique_keys(self.cw20@)
    }

    pub open spec fn token_amount(&self, k: Seq<char>) -> nat {
        amount_in(self.cw20@, k)
    }

    pub open spec fn spec_is_empty(&self) -> bool {
        self.native == 0 && self.cw20@.len() == 0
    }

    /// Whether adding `b` keeps every amount representable.
    pub open spec fn can_add(&self, b: &Balance) -> bool {
        match b {
            Balance::Native(a) => self.native + *a <= u128::MAX,
            Balance::Cw20 { address, amount } => self.token_amount(address@) + *amount <= u128::MAX,
        }
    }

    /// `new` is `old` with `b` added to it.
    pub open spec fn added(old: GenericBalance, new: GenericBalance, b: Balance) -> bool {
        match b {
            Balance::Native(a) => {
                &&& new.native == old.native + a
                &&& new.cw20@ == old.cw20@
            },
            Balance::Cw20 { address, amount } => {
                &&& new.native == old.native
                &&& forall|k: Seq<char>| #[trigger] new.token_amount(k) == old.token_amount(k) + (
                    if k == address@ {
                        amount as nat
                    } else {
                        0
                    })
                &&& forall|k: Seq<char>| #[trigger] has_key(new.cw20@, k) == (has_key(old.cw20@, k)
                    || k == address@)
            },
        }
    }

    /// The balance holding exactly one contribution.
    pub fn from_balance(b: Balance) -> (r: GenericBalance)
        ensures
            r.wf(),
            match b {
                Balance::Native(a) => r.native == a && r.cw20@.len() == 0,
                Balance::Cw20 { address, amount } => r.native == 0 && r.cw20@ == seq![(address, amount)],
            },
    {
        match b {
            Balance::Native(a) => GenericBalance { native: a, cw20: Vec::new() },
            Balance::Cw20 { address, amount } => {
                let mut v: Vec<(String, u128)> = Vec::new();
                v.push((address, amount));
                GenericBalance { native: 0, cw20: v }
            },
        }
    }

    /// A copy of the token entries.
    pub fn cw20_entries(&self) -> (r: Vec<(String, u128)>)
        ensures
            r@ == self.cw20@,
    {
        let mut r: Vec<(String, u128)> = Vec::new();
        let mut i: usize = 0;
        while i < self.cw20.len()
            invariant
                i <= self.cw20@.len(),
                r@ == self.cw20@.take(i as int),
            decreases self.cw20@.len() - i,
        {
            let e = (self.cw20[i].0.clone(), self.cw20[i].1);
            r.push(e);
            i = i + 1;
            assert(r@ =~= self.cw20@.take(i as int));
        }
        assert(r@ =~= self.cw20@);
        r
    }

    /// True iff the native amount is zero and there are no token entries.
    pub fn is_empty(&self) -> (r: bool)
        ensures
            r == self.spec_is_empty(),
    {
        self.native == 0 && self.cw20.len() == 0
    }

    /// Tests whether `add_tokens(b)` may be called.
    pub fn fits(&self, b: &Balance) -> (r: bool)
        requires
            self.wf(),
        ensures
            r == self.can_add(b),
    {
        match b {
            Balance::Native(a) => *a <= u128::MAX - self.native,
            Balance::Cw20 { address, amount } => {
                match find_key(&self.cw20, address) {
                    Some(i) => *amount <= u128::MAX - self.cw20[i].1,
                    None => true,
                }
            },
        }
    }

    /// Merges a contribution in: native amounts add up, a token amount adds to
    /// the entry of its address, which is created when absent.
    pub fn add_tokens(&mut self, b: Balance)
        requires
            old(self).wf(),
            old(self).can_add(&b),
        ensures
            final(self).wf(),
            GenericBalance::added(*old(self), *final(self), b),
    {
        match b {
            Balance::Native(a) => {
                self.native = self.native + a;
            },
            Balance::Cw20 { address, amount } => {
                let ghost s = self.cw20@;
                match find_key(&self.cw20, &address) {
                    Some(i) => {
                        let key = self.cw20[i].0.clone();
                        let cur = self.cw20[i].1;
                        self.cw20.set(i, (key, cur + amount));
                        proof {
                            assert(self.cw20@ == s.update(i as int, (s[i as int].0, (cur + amount) as u128)));
                            assert forall|k: Seq<char>| #[trigger] self.token_amount(k) == old(self).token_amount(k) + (
                                if k == address@ { amount as nat } else { 0 }) by {
                                lemma_assoc_update(s, i as int, (cur + amount) as u128, k);
                            }
                            assert forall|k: Seq<char>| #[trigger] has_key(self.cw20@, k) == (has_key(s, k)
                                || k == address@) by {
                                if has_key(s, k) {
                                    let j = choose|j: int| 0 <= j < s.len() && s[j].0@ == k;
                                    assert(self.cw20@[j].0@ == k);
                                }
                                if has_key(self.cw20@, k) {
                                    let j = choose|j: int| 0 <= j < s.len() && self.cw20@[j].0@ == k;
                                    assert(s[j].0@ == k);
                                }
                                if k == address@ {
                                    assert(self.cw20@[i as int].0@ == k);
                                }
                            }
                            assert(unique_keys(self.cw20@));
                        }
                    },
                    None => {
                        let ghost entry = (address, amount);
                        self.cw20.push((address, amount));
                        proof {
                            lemma_unique_push(s, entry);
                            assert forall|k: Seq<char>| #[trigger] self.token_amount(k) == old(self).token_amount(k) + (
                                if k == address@ { amount as nat } else { 0 }) by {
                                lemma_assoc_push(s, entry, k);
                            }
                            assert forall|k: Seq<char>| #[trigger] has_key(self.cw20@, k) == (has_key(s, k)
                                || k == address@) by {
                                if has_key(s, k) {
                                    let j = choose|j: int| 0 <= j < s.len() && s[j].0@ == k;
                                    assert(self.cw20@[j].0@ == k);
                                }
                                if has_key(self.cw20@, k) && k != address@ {
                                    let j = choose|j: int| 0 <= j < s.len() + 1 && self.cw20@[j].0@ == k;
                                    assert(s[j].0@ == k);
                                }
                                if k == address@ {
                                    assert(self.cw20@[s.len() as int].0@ == k);
                                }
                            }
                        }
                    },
                }
            },
        }
    }

    /// Takes `amount` from the native balance; fails, leaving the balance as it
    /// was, when that would go below zero.
    pub fn remove_tokens(&mut self, amount: u128) -> (r: Result<(), ContractError>)
        ensures
            r is Ok <==> amount <= old(self).native,
            r is Ok ==> final(self).native == old(self).native - amount,
            r is Err ==> final(self).native == old(self).native && r == Err::<(), ContractError>(ContractError::Underflow {}),
            final(self).cw20 == old(self).cw20,
    {
        if amount > self.native {
            return Err(ContractError::Underflow {});
        }
        self.native = self.native - amount;
        Ok(())
    }
}

} // verus!
