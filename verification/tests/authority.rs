use faro_invoice_token::authority::{Authority, OwnershipState};
use faro_invoice_token::error::TokenError;
use faro_invoice_token::identity::Identity;
use faro_invoice_token::fungible::FungibleLedger;
use faro_invoice_token::ledger::Ledger;

fn who(n: u128) -> Identity {
    Identity::new(n, 0)
}

#[test]
fn an_authority_without_owner_admits_nobody() {
    let a = Authority::new();
    assert_eq!(a.owner(), None);
    assert_eq!(a.pending_owner(), None);
    assert_eq!(a.current(), OwnershipState::Unset);
    assert_eq!(a.require_owner(who(1)), Err(TokenError::Unauthorized));
}

#[test]
fn the_owner_is_set_once() {
    let mut a = Authority::new();
    assert_eq!(a.set_owner(who(1)), Ok(()));
    assert_eq!(a.set_owner(who(2)), Err(TokenError::AlreadyInitialized));
    assert_eq!(a.set_owner(who(1)), Err(TokenError::AlreadyInitialized));
    assert_eq!(a.owner(), Some(who(1)));
    assert_eq!(a.current(), OwnershipState::Stable { owner: who(1) });
}

#[test]
fn the_gate_passes_the_owner_only() {
    let mut a = Authority::new();
    assert_eq!(a.set_owner(who(1)), Ok(()));
    assert_eq!(a.require_owner(who(1)), Ok(()));
    assert_eq!(a.require_owner(who(2)), Err(TokenError::Unauthorized));
    assert_eq!(a.require_owner(Identity::new(0, 1)), Err(TokenError::Unauthorized));
}

#[test]
fn gated_mint_reaches_the_ledger_for_the_owner() {
    let mut a = Authority::new();
    assert_eq!(a.set_owner(who(1)), Ok(()));
    let mut l = Ledger::new();
    assert_eq!(a.mint_gated(&mut l, who(1), who(2), 1_000_000), Ok(()));
    assert_eq!(a.mint_gated(&mut l, who(2), who(2), 1), Err(TokenError::Unauthorized));
    assert_eq!(a.mint_gated(&mut l, who(1), who(2), 0), Err(TokenError::InvalidAmount));
    assert_eq!(a.mint_gated(&mut l, who(1), who(3), i128::MAX), Err(TokenError::Overflow));
    assert_eq!(l.balance_of(who(2)), 1_000_000);
    assert_eq!(l.balance_of(who(3)), 0);
    assert_eq!(l.total_supply(), 1_000_000);
}

#[test]
fn handshake_walks_the_states() {
    let mut a = Authority::new();
    assert_eq!(a.propose_owner(who(1), who(2)), Err(TokenError::Unauthorized));
    assert_eq!(a.accept_ownership(who(1)), Err(TokenError::NoPendingTransfer));
    assert_eq!(a.set_owner(who(1)), Ok(()));
    assert_eq!(a.accept_ownership(who(1)), Err(TokenError::NoPendingTransfer));
    assert_eq!(a.propose_owner(who(1), who(2)), Ok(()));
    assert_eq!(a.current(), OwnershipState::PendingTransfer { owner: who(1), candidate: who(2) });
    assert_eq!(a.propose_owner(who(2), who(2)), Err(TokenError::Unauthorized));
    assert_eq!(a.propose_owner(who(1), who(3)), Ok(()));
    assert_eq!(a.current(), OwnershipState::PendingTransfer { owner: who(1), candidate: who(3) });
    assert_eq!(a.accept_ownership(who(2)), Err(TokenError::Unauthorized));
    assert_eq!(a.accept_ownership(who(3)), Ok(()));
    assert_eq!(a.current(), OwnershipState::Stable { owner: who(3) });
    assert_eq!(a.require_owner(who(1)), Err(TokenError::Unauthorized));
    assert_eq!(a.require_owner(who(3)), Ok(()));
}

#[test]
fn a_stored_state_is_taken_up_again() {
    let s = OwnershipState::PendingTransfer { owner: who(1), candidate: who(2) };
    let mut a = Authority::from_state(s);
    assert_eq!(a.current(), s);
    assert_eq!(a.owner(), Some(who(1)));
    assert_eq!(a.pending_owner(), Some(who(2)));
    assert_eq!(a.accept_ownership(who(2)), Ok(()));
    assert_eq!(a.current(), OwnershipState::Stable { owner: who(2) });
}
