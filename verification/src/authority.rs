//! Authority control: the single owner who may issue supply, and the
//! two-step handshake by which ownership passes to another identity.
//!
//! The caller handed to these operations is the identity the host has
//! authenticated, never a claim made in the request.

use vstd::prelude::*;
use crate::entries::mint_refusal;
use crate::error::TokenError;
use crate::identity::Identity;
use crate::fungible::{listed, FungibleLedger};

verus! {

/// Where ownership stands.
#[derive(Clone, Copy, Debug, PartialEq, Eq, Structural)]
pub enum OwnershipState {
    /// No owner has been set yet: nobody passes the guard.
    Unset,
    /// One owner, no handover under way.
    Stable { owner: Identity },
    /// The owner has proposed a candidate, who has not accepted yet. The owner
    /// keeps full authority until then.
    PendingTransfer { owner: Identity, candidate: Identity },
}

impl OwnershipState {
    /// The current owner.
    pub open spec fn owner(self) -> Option<Identity> {
        match self {
            OwnershipState::Unset => None,
            OwnershipState::Stable { owner } => Some(owner),
            OwnershipState::PendingTransfer { owner, .. } => Some(owner),
        }
    }

    /// The proposed candidate, while a handover is under way.
    pub open spec fn candidate(self) -> Option<Identity> {
        match self {
            OwnershipState::PendingTransfer { candidate, .. } => Some(candidate),
            _ => None,
        }
    }

    /// Whether `caller` passes the owner guard.
    pub open spec fn permits(self, caller: Identity) -> bool {
        self.owner() == Some(caller)
    }

    /// The state once `initial` is set as the first owner.
    pub open spec fn set(self, initial: Identity) -> Result<OwnershipState, TokenError> {
        match self {
            OwnershipState::Unset => Ok(OwnershipState::Stable { owner: initial }),
            _ => Err(TokenError::AlreadyInitialized),
        }
    }

    /// The state once `caller` has proposed `candidate`. A proposal replaces
    /// any earlier one.
    pub open spec fn propose(self, caller: Identity, candidate: Identity) -> Result<
        OwnershipState,
        TokenError,
    > {
        if self.permits(caller) {
            Ok(OwnershipState::PendingTransfer { owner: caller, candidate })
        } else {
            Err(TokenError::Unauthorized)
        }
    }

    /// The state once `caller` has accepted the pending proposal.
    pub open spec fn accept(self, caller: Identity) -> Result<OwnershipState, TokenError> {
        match self {
            OwnershipState::PendingTransfer { candidate, .. } => if caller == candidate {
                Ok(OwnershipState::Stable { owner: candidate })
            } else {
                Err(TokenError::Unauthorized)
            },
            _ => Err(TokenError::NoPendingTransfer),
        }
    }
}

/// Why a mint requested by `caller` is refused, if it is: the owner guard
/// comes first, then the ledger's own checks.
pub open spec fn gated_mint_refusal(
    state: OwnershipState,
    caller: Identity,
    balance: int,
    supply: int,
    amount: int,
) -> Option<TokenError> {
    if !state.permits(caller) {
        Some(TokenError::Unauthorized)
    } else {
        mint_refusal(balance, supply, amount)
    }
}

/// The owner slot of one asset.
#[derive(Debug)]
pub struct Authority {
    state: OwnershipState,
}

impl Authority {
    /// Where ownership stands.
    pub closed spec fn state(&self) -> OwnershipState {
        self.state
    }

    /// An authority without an owner yet.
    pub fn new() -> (a: Authority)
        ensures
            a.state() == OwnershipState::Unset,
    {
        Authority { state: OwnershipState::Unset }
    }

    /// An authority in the given state, as read back from durable storage.
    pub fn from_state(state: OwnershipState) -> (a: Authority)
        ensures
            a.state() == state,
    {
        Authority { state }
    }

    /// The state, to be written to durable storage.
    pub fn current(&self) -> (s: OwnershipState)
        ensures
            s == self.state(),
    {
        self.state
    }

    /// The current owner, if one has been set.
    pub fn owner(&self) -> (r: Option<Identity>)
        ensures
            r == self.state().owner(),
    {
        match self.state {
            OwnershipState::Unset => None,
            OwnershipState::Stable { owner } => Some(owner),
            OwnershipState::PendingTransfer { owner, .. } => Some(owner),
        }
    }

    /// The candidate of the handover under way, if there is one.
    pub fn pending_owner(&self) -> (r: Option<Identity>)
        ensures
            r == self.state().candidate(),
    {
        match self.state {
            OwnershipState::PendingTransfer { candidate, .. } => Some(candidate),
            _ => None,
        }
    }

    /// Sets the first owner. Refused with `AlreadyInitialized` once an owner
    /// exists; the caller is not checked, for this happens at construction.
    pub fn set_owner(&mut self, initial: Identity) -> (r: Result<(), TokenError>)
        ensures
            match r {
                Ok(()) => old(self).state().set(initial) == Ok::<OwnershipState, TokenError>(
                    final(self).state(),
                ),
                Err(e) => old(self).state().set(initial) == Err::<OwnershipState, TokenError>(e)
                    && *final(self) == *old(self),
            },
    {
        match self.state {
            OwnershipState::Unset => {
                self.state = OwnershipState::Stable { owner: initial };
                Ok(())
            },
            _ => Err(TokenError::AlreadyInitialized),
        }
    }

    /// The owner guard: passes exactly the current owner, refuses every other
    /// caller with `Unauthorized`, and changes nothing.
    pub fn require_owner(&self, caller: Identity) -> (r: Result<(), TokenError>)
        ensures
            r is Ok <==> self.state().permits(caller),
            r is Err ==> r == Err::<(), TokenError>(TokenError::Unauthorized),
    {
        match self.owner() {
            Some(owner) => if owner == caller {
                Ok(())
            } else {
                Err(TokenError::Unauthorized)
            },
            None => Err(TokenError::Unauthorized),
        }
    }

    /// Mints on `ledger` for the owner: the guard first, then the ledger's mint.
    /// A refusal of either leaves the ledger as it was.
    pub fn mint_gated<L: FungibleLedger>(
        &self,
        ledger: &mut L,
        caller: Identity,
        to: Identity,
        amount: i128,
    )
        -> (r: Result<(), TokenError>)
        requires
            old(ledger).wf(),
        ensures
            final(ledger).wf(),
            final(ledger).meta() == old(ledger).meta(),
            match r {
                Ok(()) => {
                    &&& gated_mint_refusal(
                        self.state(),
                        caller,
                        old(ledger).balance(to),
                        old(ledger).supply(),
                        amount as int,
                    ) is None
                    &&& final(ledger).supply() == old(ledger).supply() + amount
                    &&& final(ledger).balance(to) == old(ledger).balance(to) + amount
                    &&& final(ledger).holders() == listed(old(ledger).holders(), to)
                    &&& forall|h: Identity|
                        #![trigger final(ledger).balance(h)]
                        #![trigger old(ledger).balance(h)]
                        h != to ==> final(ledger).balance(h) == old(ledger).balance(h)
                },
                Err(e) => {
                    &&& gated_mint_refusal(
                        self.state(),
                        caller,
                        old(ledger).balance(to),
                        old(ledger).supply(),
                        amount as int,
                    ) == Some(e)
                    &&& *final(ledger) == *old(ledger)
                },
            },
            r is Ok <==> self.state().permits(caller) && 0 < amount && old(ledger).supply()
                + amount <= i128::MAX,
    {
        match self.require_owner(caller) {
            Err(e) => Err(e),
            Ok(()) => ledger.mint(to, amount),
        }
    }

    /// Records `candidate` as the proposed next owner. Only the owner may
    /// propose; a new proposal overwrites the pending one, and the owner stays
    /// owner until the candidate accepts.
    pub fn propose_owner(&mut self, caller: Identity, candidate: Identity) -> (r: Result<
        (),
        TokenError,
    >)
        ensures
            match r {
                Ok(()) => old(self).state().propose(caller, candidate) == Ok::<
                    OwnershipState,
                    TokenError,
                >(final(self).state()),
                Err(e) => old(self).state().propose(caller, candidate) == Err::<
                    OwnershipState,
                    TokenError,
                >(e) && *final(self) == *old(self),
            },
    {
        match self.require_owner(caller) {
            Err(e) => Err(e),
            Ok(()) => {
                self.state = OwnershipState::PendingTransfer { owner: caller, candidate };
                Ok(())
            },
        }
    }

    /// Completes the handover: the pending candidate, and nobody else, becomes
    /// the owner, and the pending slot is cleared. Refused with
    /// `NoPendingTransfer` where nothing is pending, with `Unauthorized` for
    /// any caller but the candidate.
    pub fn accept_ownership(&mut self, caller: Identity) -> (r: Result<(), TokenError>)
        ensures
            match r {
                Ok(()) => old(self).state().accept(caller) == Ok::<OwnershipState, TokenError>(
                    final(self).state(),
                ),
                Err(e) => old(self).state().accept(caller) == Err::<OwnershipState, TokenError>(e)
                    && *final(self) == *old(self),
            },
    {
        match self.state {
            OwnershipState::PendingTransfer { candidate, .. } => {
                if caller == candidate {
                    self.state = OwnershipState::Stable { owner: candidate };
                    Ok(())
                } else {
                    Err(TokenError::Unauthorized)
                }
            },
            _ => Err(TokenError::NoPendingTransfer),
        }
    }
}

/// A caller who is not the current owner is refused with `Unauthorized`,
/// whatever the recipient and the amount.
pub proof fn only_owner_mints(
    state: OwnershipState,
    caller: Identity,
    balance: int,
    supply: int,
    amount: int,
)
    requires
        state.owner() != Some(caller),
    ensures
        gated_mint_refusal(state, caller, balance, supply, amount) == Some(
            TokenError::Unauthorized,
        ),
{
}

/// Once `owner` has proposed a different `candidate` and the candidate has
/// accepted, the candidate is the owner: the former owner's mints are refused
/// with `Unauthorized`, and the new owner's mints meet the ledger's checks
/// only.
pub proof fn handover_moves_authority(
    state: OwnershipState,
    owner: Identity,
    candidate: Identity,
    balance: int,
    supply: int,
    amount: int,
)
    requires
        state.permits(owner),
        owner != candidate,
    ensures
        state.propose(owner, candidate) is Ok,
        state.propose(owner, candidate)->Ok_0.permits(owner),
        state.propose(owner, candidate)->Ok_0.accept(candidate) == Ok::<
            OwnershipState,
            TokenError,
        >(OwnershipState::Stable { owner: candidate }),
        gated_mint_refusal(
            OwnershipState::Stable { owner: candidate },
            owner,
            balance,
            supply,
            amount,
        ) == Some(TokenError::Unauthorized),
        gated_mint_refusal(
            OwnershipState::Stable { owner: candidate },
            candidate,
            balance,
            supply,
            amount,
        ) == mint_refusal(balance, supply, amount),
{
}

/// Every state but `Unset` has exactly one owner, and no operation leads
/// back to `Unset`.
pub proof fn owner_never_lost(state: OwnershipState, caller: Identity, other: Identity)
    requires
        state != OwnershipState::Unset,
    ensures
        state.owner() is Some,
        state.propose(caller, other) is Ok ==> state.propose(caller, other)->Ok_0
            != OwnershipState::Unset,
        state.accept(caller) is Ok ==> state.accept(caller)->Ok_0 != OwnershipState::Unset,
        state.set(other) is Err,
{
}

} // verus!
