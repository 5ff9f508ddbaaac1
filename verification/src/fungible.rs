//! The operations of a fungible balance ledger, apart from how it stores
//! its balances. Authority control drives a ledger through this interface
//! alone.

use vstd::prelude::*;
use crate::entries::mint_refusal;
use crate::error::TokenError;
use crate::identity::Identity;

verus! {

/// What describes the asset: written once, never changed afterwards.
#[derive(Debug)]
pub struct Metadata {
    /// How many decimal places separate the smallest unit from one display unit.
    pub decimals: u32,
    pub name: String,
    pub symbol: String,
}

/// The list of holders once `h` is among them: `h` joins at the end unless
/// it is listed already.
pub open spec fn listed(holders: Seq<Identity>, h: Identity) -> Seq<Identity> {
    if holders.contains(h) {
        holders
    } else {
        holders.push(h)
    }
}

/// The sum of `balance` over the holders in `hs`.
pub open spec fn balance_sum(balance: spec_fn(Identity) -> int, hs: Seq<Identity>) -> int
    decreases hs.len(),
{
    if hs.len() == 0 {
        0
    } else {
        balance_sum(balance, hs.drop_last()) + balance(hs.last())
    }
}

/// A balance ledger: balances per holder, their total, and the metadata.
pub trait FungibleLedger: Sized {
    /// The ledger is consistent: no balance is negative and the supply is
    /// the sum of the balances.
    spec fn wf(&self) -> bool;

    /// The balance of `h`; zero for a holder the ledger has never credited.
    spec fn balance(&self, h: Identity) -> int;

    /// The total supply.
    spec fn supply(&self) -> int;

    /// The metadata, once initialized.
    spec fn meta(&self) -> Option<Metadata>;

    /// The holders the ledger lists, in the order in which they were first
    /// credited. Every holder with a balance above zero is among them.
    spec fn holders(&self) -> Seq<Identity>;

    /// Writes the metadata. Succeeds on the first call only; a later call is
    /// refused with `AlreadyInitialized` and changes nothing.
    fn initialize_metadata(&mut self, decimals: u32, name: String, symbol: String) -> (r:
        Result<(), TokenError>)
        ensures
            match r {
                Ok(()) => old(self).meta() is None && final(self).meta() == Some(
                    Metadata { decimals, name, symbol },
                ),
                Err(e) => e == TokenError::AlreadyInitialized && old(self).meta() is Some
                    && *final(self) == *old(self),
            },
            final(self).wf() == old(self).wf(),
            final(self).supply() == old(self).supply(),
            final(self).holders() == old(self).holders(),
            forall|h: Identity|
                #![trigger final(self).balance(h)]
                #![trigger old(self).balance(h)]
                final(self).balance(h) == old(self).balance(h),
;

    /// The listed holders.
    fn holder_list(&self) -> (r: Vec<Identity>)
        ensures
            r@ == self.holders(),
;

    /// The balance of `h`: zero for a holder without an entry, never negative.
    fn balance_of(&self, h: Identity) -> (r: i128)
        requires
            self.wf(),
        ensures
            r == self.balance(h),
            0 <= r <= self.supply(),
;

    /// The total supply: the sum of all balances, never negative.
    fn total_supply(&self) -> (r: i128)
        requires
            self.wf(),
        ensures
            r == self.supply(),
            0 <= r,
;

    /// Creates `amount` new units on the balance of `to`.
    ///
    /// Refused with `InvalidAmount` unless `amount` is positive, and with
    /// `Overflow` where the supply would leave the 128-bit signed range.
    /// Otherwise the balance of `to` and the supply both grow by `amount`, and
    /// no other balance changes.
    fn mint(&mut self, to: Identity, amount: i128) -> (r: Result<(), TokenError>)
        requires
            old(self).wf(),
        ensures
            final(self).wf(),
            final(self).meta() == old(self).meta(),
            match r {
                Ok(()) => {
                    &&& mint_refusal(old(self).balance(to), old(self).supply(), amount as int)
                        is None
                    &&& final(self).supply() == old(self).supply() + amount
                    &&& final(self).balance(to) == old(self).balance(to) + amount
                    &&& final(self).holders() == listed(old(self).holders(), to)
                    &&& forall|h: Identity|
                        #![trigger final(self).balance(h)]
                        #![trigger old(self).balance(h)]
                        h != to ==> final(self).balance(h) == old(self).balance(h)
                },
                Err(e) => {
                    &&& mint_refusal(old(self).balance(to), old(self).supply(), amount as int)
                        == Some(e)
                    &&& *final(self) == *old(self)
                },
            },
            r is Ok <==> 0 < amount && old(self).supply() + amount <= i128::MAX,
;

    /// Moves `amount` from the balance of `from` to the balance of `to`.
    ///
    /// Refused with `InvalidAmount` unless `amount` is positive, and with
    /// `InsufficientBalance` where `from` holds less than `amount`. Otherwise
    /// `from` loses and `to` gains `amount`; the supply and every other balance
    /// stay. With `from == to` the same checks apply and nothing changes.
    fn transfer(&mut self, from: Identity, to: Identity, amount: i128) -> (r: Result<
        (),
        TokenError,
    >)
        requires
            old(self).wf(),
        ensures
            final(self).wf(),
            final(self).meta() == old(self).meta(),
            final(self).supply() == old(self).supply(),
            match r {
                Ok(()) => {
                    &&& 0 < amount <= old(self).balance(from)
                    &&& final(self).holders() == listed(old(self).holders(), to)
                    &&& forall|h: Identity|
                        #![trigger final(self).balance(h)]
                        #![trigger old(self).balance(h)]
                        final(self).balance(h) == old(self).balance(h) + (if h == to {
                            amount as int
                        } else {
                            0
                        }) - (if h == from {
                            amount as int
                        } else {
                            0
                        })
                },
                Err(e) => {
                    &&& e == (if amount <= 0 {
                        TokenError::InvalidAmount
                    } else {
                        TokenError::InsufficientBalance
                    })
                    &&& *final(self) == *old(self)
                },
            },
            r is Ok <==> 0 < amount <= old(self).balance(from),
            old(self).balance(from) < amount ==> r == Err::<(), TokenError>(
                TokenError::InsufficientBalance,
            ),
;

    /// Conservation: the supply is the sum of the balances of the listed
    /// holders, each listed once, and every other holder's balance is zero.
    proof fn conservation(&self)
        requires
            self.wf(),
        ensures
            self.supply() == balance_sum(|h: Identity| self.balance(h), self.holders()),
            self.holders().no_duplicates(),
            forall|h: Identity| !self.holders().contains(h) ==> self.balance(h) == 0,
;

    /// Non-negativity: no balance is negative, none exceeds the supply.
    proof fn balance_bounds(&self, h: Identity)
        requires
            self.wf(),
        ensures
            0 <= self.balance(h) <= self.supply(),
            self.supply() <= i128::MAX,
;
}

/// Reads depend on the ledger alone: while nothing changes it, every balance,
/// the supply and the metadata read the same, however often they are read.
pub proof fn reads_agree<L: FungibleLedger>(before: &L, after: &L, h: Identity)
    requires
        *before == *after,
    ensures
        before.balance(h) == after.balance(h),
        before.supply() == after.supply(),
        before.meta() == after.meta(),
        before.holders() == after.holders(),
{
}

} // verus!
