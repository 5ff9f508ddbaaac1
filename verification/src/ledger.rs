//! The balance ledger: per-holder balances, the total supply, and the
//! metadata fixed at initialization.
//!
//! Every operation keeps the supply equal to the sum of all balances and keeps
//! every balance non-negative. A refused operation changes nothing. The ledger
//! checks no authorization: that is the business of whoever drives it.

use vstd::prelude::*;
use crate::entries::{
    amount_of, checked_mint, checked_transfer, entries_wf, holders_of, holds, lemma_amount_at,
    lemma_amount_le_sum, lemma_listed_iff_holds, lemma_pair_le_sum, lemma_push,
    lemma_sum_balances_prefix, lemma_sum_non_negative, lemma_update, sum_amounts, sum_balances,
    Entry,
};
use crate::error::TokenError;
use crate::fungible::{balance_sum, listed, FungibleLedger, Metadata};
use crate::identity::Identity;

verus! {

/// Balances, supply and metadata of one asset.
#[derive(Debug)]
pub struct Ledger {
    entries: Vec<Entry>,
    total: i128,
    metadata: Option<Metadata>,
}

impl Ledger {
    /// An empty ledger without metadata.
    pub fn new() -> (l: Ledger)
        ensures
            l.wf(),
            l.supply() == 0,
            l.meta() is None,
            l.holders().len() == 0,
            forall|h: Identity| l.balance(h) == 0,
    {
        Ledger { entries: Vec::new(), total: 0, metadata: None }
    }

    /// The metadata, once initialized.
    pub fn metadata(&self) -> (r: Option<&Metadata>)
        ensures
            match r {
                Some(m) => self.meta() == Some(*m),
                None => self.meta() is None,
            },
    {
        self.metadata.as_ref()
    }

    /// Where the entry of `h` stands, if there is one.
    fn position(&self, h: Identity) -> (r: Option<usize>)
        ensures
            match r {
                Some(i) => i < self.entries@.len() && self.entries@[i as int].holder == h,
                None => !holds(self.entries@, h),
            },
    {
        let mut i: usize = 0;
        while i < self.entries.len()
            invariant
                i <= self.entries@.len(),
                forall|j: int| 0 <= j < i ==> (#[trigger] self.entries@[j]).holder != h,
            decreases self.entries@.len() - i,
        {
            if self.entries[i].holder == h {
                return Some(i);
            }
            i += 1;
        }
        None
    }

    /// The stored amount at a position found by `position`, or zero.
    fn amount_at(&self, pos: Option<usize>, h: Identity) -> (r: i128)
        requires
            self.wf(),
            match pos {
                Some(i) => i < self.entries@.len() && self.entries@[i as int].holder == h,
                None => !holds(self.entries@, h),
            },
        ensures
            r == self.balance(h),
            0 <= r <= self.supply(),
    {
        match pos {
            Some(i) => {
                proof {
                    lemma_amount_at(self.entries@, i as int);
                    lemma_amount_le_sum(self.entries@, i as int);
                }
                self.entries[i].amount
            },
            None => {
                proof {
                    lemma_sum_non_negative(self.entries@);
                }
                0
            },
        }
    }

    /// Stores `amount` as the balance of `h`, whose entry stands at `pos` if it has one.
    fn store(&mut self, pos: Option<usize>, h: Identity, amount: i128)
        requires
            entries_wf(old(self).entries@),
            0 <= amount,
            match pos {
                Some(i) => i < old(self).entries@.len() && old(self).entries@[i as int].holder
                    == h,
                None => !holds(old(self).entries@, h),
            },
        ensures
            entries_wf(final(self).entries@),
            final(self).total == old(self).total,
            final(self).metadata == old(self).metadata,
            sum_amounts(final(self).entries@) == sum_amounts(old(self).entries@) - amount_of(
                old(self).entries@,
                h,
            ) + amount,
            final(self).balance(h) == amount,
            final(self).holders() == listed(old(self).holders(), h),
            forall|o: Identity|
                #![trigger final(self).balance(o)]
                #![trigger old(self).balance(o)]
                o != h ==> final(self).balance(o) == old(self).balance(o),
    {
        let e = Entry { holder: h, amount };
        match pos {
            Some(i) => {
                proof {
                    lemma_amount_at(self.entries@, i as int);
                    lemma_update(self.entries@, i as int, e);
                    lemma_listed_iff_holds(self.entries@, h);
                    assert(holders_of(self.entries@.update(i as int, e)) =~= holders_of(
                        self.entries@,
                    ));
                }
                self.entries.set(i, e);
            },
            None => {
                proof {
                    lemma_push(self.entries@, e);
                    lemma_listed_iff_holds(self.entries@, h);
                    assert(holders_of(self.entries@.push(e)) =~= holders_of(self.entries@).push(
                        h,
                    ));
                }
                self.entries.push(e);
            },
        }
    }

    /// Summing balances over any list of holders is summing their stored amounts.
    proof fn lemma_balance_sum(&self, hs: Seq<Identity>)
        ensures
            balance_sum(|h: Identity| self.balance(h), hs) == sum_balances(self.entries@, hs),
        decreases hs.len(),
    {
        if hs.len() > 0 {
            self.lemma_balance_sum(hs.drop_last());
        }
    }
}

impl FungibleLedger for Ledger {
    /// The ledger is consistent: no balance is negative, no holder is listed
    /// twice, and the supply is the sum of the balances.
    closed spec fn wf(&self) -> bool {
        &&& entries_wf(self.entries@)
        &&& self.total == sum_amounts(self.entries@)
    }

    /// The balance of `h`; zero for a holder the ledger has never credited.
    closed spec fn balance(&self, h: Identity) -> int {
        amount_of(self.entries@, h)
    }

    /// The total supply.
    closed spec fn supply(&self) -> int {
        self.total as int
    }

    /// The metadata, once initialized.
    closed spec fn meta(&self) -> Option<Metadata> {
        self.metadata
    }

    /// Every holder the ledger has an entry for, each once.
    closed spec fn holders(&self) -> Seq<Identity> {
        holders_of(self.entries@)
    }

    /// Writes the metadata. Succeeds on the first call only; a later call is
    /// refused with `AlreadyInitialized` and changes nothing.
    fn initialize_metadata(&mut self, decimals: u32, name: String, symbol: String) -> (r:
        Result<(), TokenError>) {
        if self.metadata.is_some() {
            return Err(TokenError::AlreadyInitialized);
        }
        self.metadata = Some(Metadata { decimals, name, symbol });
        Ok(())
    }

    /// The balance of `h`: zero for a holder without an entry, never negative.
    fn balance_of(&self, h: Identity) -> (r: i128) {
        let pos = self.position(h);
        self.amount_at(pos, h)
    }

    /// The total supply: the sum of all balances, never negative.
    fn total_supply(&self) -> (r: i128) {
        proof {
            lemma_sum_non_negative(self.entries@);
        }
        self.total
    }

    /// Creates `amount` new units on the balance of `to`.
    ///
    /// Refused with `InvalidAmount` unless `amount` is positive, and with
    /// `Overflow` where the supply would leave the 128-bit signed range.
    /// Otherwise the balance of `to` and the supply both grow by `amount`, and
    /// no other balance changes.
    fn mint(&mut self, to: Identity, amount: i128) -> (r: Result<(), TokenError>) {
        let pos = self.position(to);
        let balance = self.amount_at(pos, to);
        match checked_mint(balance, self.total, amount) {
            Err(e) => Err(e),
            Ok((b, s)) => {
                self.store(pos, to, b);
                self.total = s;
                Ok(())
            },
        }
    }

    /// Moves `amount` from the balance of `from` to the balance of `to`.
    ///
    /// Refused with `InvalidAmount` unless `amount` is positive, and with
    /// `InsufficientBalance` where `from` holds less than `amount`. Otherwise
    /// `from` loses and `to` gains `amount`; the supply and every other balance
    /// stay. With `from == to` the same checks apply and nothing changes.
    fn transfer(&mut self, from: Identity, to: Identity, amount: i128) -> (r: Result<
        (),
        TokenError,
    >) {
        let from_pos = self.position(from);
        let from_balance = self.amount_at(from_pos, from);
        let to_pos = self.position(to);
        let to_balance = self.amount_at(to_pos, to);
        let same = from == to;
        proof {
            lemma_listed_iff_holds(self.entries@, from);
            if !same {
                match (from_pos, to_pos) {
                    (Some(i), Some(j)) => {
                        lemma_amount_at(self.entries@, i as int);
                        lemma_amount_at(self.entries@, j as int);
                        lemma_pair_le_sum(self.entries@, i as int, j as int);
                    },
                    _ => {},
                }
            }
        }
        match checked_transfer(from_balance, to_balance, same, amount) {
            Err(e) => Err(e),
            Ok((f, t)) => {
                if !same {
                    self.store(from_pos, from, f);
                    let to_pos = self.position(to);
                    self.store(to_pos, to, t);
                }
                Ok(())
            },
        }
    }

    /// The holders the ledger lists, in the order in which they were first
    /// credited. Every holder with a balance above zero is among them.
    fn holder_list(&self) -> (r: Vec<Identity>) {
        let mut r: Vec<Identity> = Vec::new();
        let mut i: usize = 0;
        while i < self.entries.len()
            invariant
                i <= self.entries@.len(),
                r@ == holders_of(self.entries@).take(i as int),
            decreases self.entries@.len() - i,
        {
            r.push(self.entries[i].holder);
            assert(r@ =~= holders_of(self.entries@).take(i + 1));
            i += 1;
        }
        assert(r@ =~= holders_of(self.entries@));
        r
    }

    /// Conservation: the supply is the sum of the balances of the listed
    /// holders, each listed once, and every other holder's balance is zero.
    proof fn conservation(&self) {
        let s = self.entries@;
        let hs = holders_of(s);
        lemma_sum_balances_prefix(s, s.len() as int);
        assert(hs.take(s.len() as int) =~= hs);
        assert(s.take(s.len() as int) =~= s);
        self.lemma_balance_sum(hs);
        assert forall|i: int, j: int| 0 <= i < hs.len() && 0 <= j < hs.len() && i != j implies hs[i]
            != hs[j] by {
            if i < j {
                assert(s[i].holder != s[j].holder);
            } else {
                assert(s[j].holder != s[i].holder);
            }
        }
        assert forall|h: Identity| !hs.contains(h) implies self.balance(h) == 0 by {
            if holds(s, h) {
                let i = choose|i: int| 0 <= i < s.len() && (#[trigger] s[i]).holder == h;
                assert(hs[i] == h);
            }
        }
    }

    /// Non-negativity: no balance is negative, none exceeds the supply.
    proof fn balance_bounds(&self, h: Identity) {
        let s = self.entries@;
        lemma_sum_non_negative(s);
        if holds(s, h) {
            let i = choose|i: int| 0 <= i < s.len() && (#[trigger] s[i]).holder == h;
            lemma_amount_le_sum(s, i);
        }
    }
}

} // verus!
