//! The invoice token: one balance ledger under one authority.
//!
//! One display unit is 1_000_000 smallest units. Only the owner mints; any
//! holder moves their own balance.

use vstd::prelude::*;
use crate::authority::{gated_mint_refusal, Authority, OwnershipState};
use crate::error::TokenError;
use crate::identity::Identity;
use crate::fungible::{balance_sum, listed, FungibleLedger, Metadata};
use crate::ledger::Ledger;

verus! {

/// The number of decimal places of the token.
pub const DECIMALS: u32 = 6;

/// Why a transfer requested by `caller` is refused, if it is: the caller must
/// be the sender, the amount positive, and the sender's balance sufficient.
pub open spec fn transfer_refusal_for(
    caller: Identity,
    from: Identity,
    from_balance: int,
    amount: int,
) -> Option<TokenError> {
    if caller != from {
        Some(TokenError::Unauthorized)
    } else if amount <= 0 {
        Some(TokenError::InvalidAmount)
    } else if from_balance < amount {
        Some(TokenError::InsufficientBalance)
    } else {
        None
    }
}

/// A deployed token: its ledger and its owner slot. Both change only through
/// the operations below.
#[derive(Debug)]
pub struct FaroInvoiceToken {
    ledger: Ledger,
    authority: Authority,
}

impl FaroInvoiceToken {
    /// The token's balance ledger.
    pub closed spec fn ledger(&self) -> Ledger {
        self.ledger
    }

    /// Where the token's ownership stands.
    pub closed spec fn ownership(&self) -> OwnershipState {
        self.authority.state()
    }

    /// The token is consistent: its ledger is, it has an owner, and its
    /// metadata is written with six decimals.
    pub open spec fn wf(&self) -> bool {
        &&& self.ledger().wf()
        &&& self.ownership() != OwnershipState::Unset
        &&& self.ledger().meta() is Some
        &&& self.ledger().meta()->Some_0.decimals == DECIMALS
    }

    /// Deploys the token: writes the metadata and makes `admin` the owner.
    /// Nothing has been issued yet.
    pub fn new(name: String, symbol: String, admin: Identity) -> (t: FaroInvoiceToken)
        ensures
            t.wf(),
            t.ownership() == (OwnershipState::Stable { owner: admin }),
            t.ledger().meta() == Some(Metadata { decimals: DECIMALS, name, symbol }),
            t.ledger().supply() == 0,
            t.ledger().holders().len() == 0,
            forall|h: Identity| t.ledger().balance(h) == 0,
    {
        let mut ledger = Ledger::new();
        let mut authority = Authority::new();
        let _ = ledger.initialize_metadata(DECIMALS, name, symbol);
        let _ = authority.set_owner(admin);
        FaroInvoiceToken { ledger, authority }
    }

    /// Issues `amount` new units to `to`, for the owner only.
    ///
    /// Refused with `Unauthorized` for any caller but the current owner, then
    /// with `InvalidAmount` unless `amount` is positive, then with `Overflow`
    /// where the supply would leave the 128-bit signed range. Otherwise the
    /// balance of `to` and the supply grow by `amount` and nothing else
    /// changes. A refused call changes nothing.
    pub fn mint(&mut self, caller: Identity, to: Identity, amount: i128) -> (r: Result<
        (),
        TokenError,
    >)
        requires
            old(self).wf(),
        ensures
            final(self).wf(),
            final(self).ownership() == old(self).ownership(),
            final(self).ledger().meta() == old(self).ledger().meta(),
            match r {
                Ok(()) => {
                    &&& gated_mint_refusal(
                        old(self).ownership(),
                        caller,
                        old(self).ledger().balance(to),
                        old(self).ledger().supply(),
                        amount as int,
                    ) is None
                    &&& final(self).ledger().supply() == old(self).ledger().supply() + amount
                    &&& final(self).ledger().balance(to) == old(self).ledger().balance(to)
                        + amount
                    &&& final(self).ledger().holders() == listed(old(self).ledger().holders(), to)
                    &&& forall|h: Identity|
                        #![trigger final(self).ledger().balance(h)]
                        #![trigger old(self).ledger().balance(h)]
                        h != to ==> final(self).ledger().balance(h) == old(self).ledger().balance(h)
                },
                Err(e) => {
                    &&& gated_mint_refusal(
                        old(self).ownership(),
                        caller,
                        old(self).ledger().balance(to),
                        old(self).ledger().supply(),
                        amount as int,
                    ) == Some(e)
                    &&& *final(self) == *old(self)
                },
            },
            r is Ok <==> {
                &&& old(self).ownership().permits(caller)
                &&& 0 < amount
                &&& old(self).ledger().supply() + amount <= i128::MAX
            },
    {
        self.authority.mint_gated(&mut self.ledger, caller, to, amount)
    }

    /// Moves `amount` from `from` to `to`, for `from` only.
    ///
    /// Refused with `Unauthorized` unless the caller is `from`, then with
    /// `InvalidAmount` unless `amount` is positive, then with
    /// `InsufficientBalance` where `from` holds less than `amount`. Otherwise
    /// `from` loses and `to` gains `amount`; the supply stays. A transfer to
    /// oneself passes the same checks and changes nothing.
    pub fn transfer(&mut self, caller: Identity, from: Identity, to: Identity, amount: i128) -> (r:
        Result<(), TokenError>)
        requires
            old(self).wf(),
        ensures
            final(self).wf(),
            final(self).ownership() == old(self).ownership(),
            final(self).ledger().meta() == old(self).ledger().meta(),
            final(self).ledger().supply() == old(self).ledger().supply(),
            match r {
                Ok(()) => {
                    &&& transfer_refusal_for(
                        caller,
                        from,
                        old(self).ledger().balance(from),
                        amount as int,
                    ) is None
                    &&& final(self).ledger().holders() == listed(old(self).ledger().holders(), to)
                    &&& forall|h: Identity|
                        #![trigger final(self).ledger().balance(h)]
                        #![trigger old(self).ledger().balance(h)]
                        final(self).ledger().balance(h) == old(self).ledger().balance(h) + (if h
                            == to {
                            amount as int
                        } else {
                            0
                        }) - (if h == from {
                            amount as int
                        } else {
                            0
                        })
                },
                Err(e) => {
                    &&& transfer_refusal_for(
                        caller,
                        from,
                        old(self).ledger().balance(from),
                        amount as int,
                    ) == Some(e)
                    &&& *final(self) == *old(self)
                },
            },
            caller == from && old(self).ledger().balance(from) < amount ==> r == Err::<
                (),
                TokenError,
            >(TokenError::InsufficientBalance),
    {
        if caller != from {
            return Err(TokenError::Unauthorized);
        }
        self.ledger.transfer(from, to, amount)
    }

    /// The balance of `h`: zero for a holder never credited, never negative.
    pub fn balance_of(&self, h: Identity) -> (r: i128)
        requires
            self.wf(),
        ensures
            r == self.ledger().balance(h),
            0 <= r <= self.ledger().supply(),
    {
        self.ledger.balance_of(h)
    }

    /// The total supply, never negative.
    pub fn total_supply(&self) -> (r: i128)
        requires
            self.wf(),
        ensures
            r == self.ledger().supply(),
            0 <= r,
    {
        self.ledger.total_supply()
    }

    /// Proposes `candidate` as the next owner, for the owner only. The owner
    /// keeps full authority until the candidate accepts, and may overwrite the
    /// proposal with another.
    pub fn propose_owner(&mut self, caller: Identity, candidate: Identity) -> (r: Result<
        (),
        TokenError,
    >)
        requires
            old(self).wf(),
        ensures
            final(self).wf(),
            final(self).ledger() == old(self).ledger(),
            match r {
                Ok(()) => old(self).ownership().propose(caller, candidate) == Ok::<
                    OwnershipState,
                    TokenError,
                >(final(self).ownership()),
                Err(e) => old(self).ownership().propose(caller, candidate) == Err::<
                    OwnershipState,
                    TokenError,
                >(e) && *final(self) == *old(self),
            },
    {
        self.authority.propose_owner(caller, candidate)
    }

    /// Accepts the pending proposal, for the candidate only, who thereby
    /// becomes the owner.
    pub fn accept_ownership(&mut self, caller: Identity) -> (r: Result<(), TokenError>)
        requires
            old(self).wf(),
        ensures
            final(self).wf(),
            final(self).ledger() == old(self).ledger(),
            match r {
                Ok(()) => old(self).ownership().accept(caller) == Ok::<OwnershipState, TokenError>(
                    final(self).ownership(),
                ),
                Err(e) => old(self).ownership().accept(caller) == Err::<OwnershipState, TokenError>(
                    e,
                ) && *final(self) == *old(self),
            },
    {
        self.authority.accept_ownership(caller)
    }

    /// The holders the ledger lists: every holder with a balance above zero
    /// is among them, and none is listed twice.
    pub fn holders(&self) -> (r: Vec<Identity>)
        ensures
            r@ == self.ledger().holders(),
    {
        self.ledger.holder_list()
    }

    /// The current owner.
    pub fn owner(&self) -> (r: Identity)
        requires
            self.wf(),
        ensures
            self.ownership().owner() == Some(r),
    {
        self.authority.owner().unwrap()
    }

    /// The candidate of the handover under way, if there is one.
    pub fn pending_owner(&self) -> (r: Option<Identity>)
        ensures
            r == self.ownership().candidate(),
    {
        self.authority.pending_owner()
    }

    /// The number of decimal places: always six.
    pub fn decimals(&self) -> (r: u32)
        requires
            self.wf(),
        ensures
            r == DECIMALS,
            r == self.ledger().meta()->Some_0.decimals,
    {
        self.ledger.metadata().unwrap().decimals
    }

    /// The display name given at deployment.
    pub fn name(&self) -> (r: &String)
        requires
            self.wf(),
        ensures
            *r == self.ledger().meta()->Some_0.name,
    {
        &self.ledger.metadata().unwrap().name
    }

    /// The symbol given at deployment.
    pub fn symbol(&self) -> (r: &String)
        requires
            self.wf(),
        ensures
            *r == self.ledger().meta()->Some_0.symbol,
    {
        &self.ledger.metadata().unwrap().symbol
    }

    /// Conservation: the supply is the sum of the balances of the holders the
    /// ledger lists, each listed once, and every other holder's balance is
    /// zero. No balance is negative.
    pub proof fn conservation(&self)
        requires
            self.wf(),
        ensures
            self.ledger().supply() == balance_sum(
                |h: Identity| self.ledger().balance(h),
                self.ledger().holders(),
            ),
            self.ledger().holders().no_duplicates(),
            forall|h: Identity|
                !self.ledger().holders().contains(h) ==> self.ledger().balance(h) == 0,
            forall|h: Identity|
                0 <= #[trigger] self.ledger().balance(h) && self.ledger().balance(h)
                    <= self.ledger().supply(),
    {
        self.ledger().conservation();
        assert forall|h: Identity|
            0 <= #[trigger] self.ledger().balance(h) && self.ledger().balance(h)
                <= self.ledger().supply() by {
            self.ledger().balance_bounds(h);
        }
    }
}

} // verus!
