use faro_invoice_token::entries::{checked_mint, checked_transfer};
use faro_invoice_token::error::TokenError;
use faro_invoice_token::identity::Identity;
use faro_invoice_token::fungible::FungibleLedger;
use faro_invoice_token::ledger::Ledger;

fn holder(n: u128) -> Identity {
    Identity::new(n, n)
}

#[test]
fn checked_mint_adds_to_balance_and_supply() {
    assert_eq!(checked_mint(0, 0, 1_000_000), Ok((1_000_000, 1_000_000)));
    assert_eq!(checked_mint(5, 12, 7), Ok((12, 19)));
    assert_eq!(checked_mint(0, i128::MAX - 1, 1), Ok((1, i128::MAX)));
}

#[test]
fn checked_mint_refusals() {
    assert_eq!(checked_mint(5, 12, 0), Err(TokenError::InvalidAmount));
    assert_eq!(checked_mint(5, 12, -7), Err(TokenError::InvalidAmount));
    assert_eq!(checked_mint(0, i128::MAX, 1), Err(TokenError::Overflow));
    assert_eq!(checked_mint(i128::MAX, 0, 1), Err(TokenError::Overflow));
    assert_eq!(checked_mint(1, 1, i128::MAX), Err(TokenError::Overflow));
    assert_eq!(checked_mint(i128::MAX, i128::MAX, 0), Err(TokenError::InvalidAmount));
}

#[test]
fn checked_transfer_moves_the_amount() {
    assert_eq!(checked_transfer(10, 3, false, 4), Ok((6, 7)));
    assert_eq!(checked_transfer(10, 0, false, 10), Ok((0, 10)));
    assert_eq!(checked_transfer(10, 10, true, 10), Ok((10, 10)));
    assert_eq!(checked_transfer(10, 10, true, 1), Ok((10, 10)));
}

#[test]
fn checked_transfer_refusals() {
    assert_eq!(checked_transfer(10, 3, false, 0), Err(TokenError::InvalidAmount));
    assert_eq!(checked_transfer(10, 3, false, -1), Err(TokenError::InvalidAmount));
    assert_eq!(checked_transfer(10, 3, false, 11), Err(TokenError::InsufficientBalance));
    assert_eq!(checked_transfer(10, 10, true, 11), Err(TokenError::InsufficientBalance));
    assert_eq!(checked_transfer(0, 0, false, 1), Err(TokenError::InsufficientBalance));
    assert_eq!(checked_transfer(10, i128::MAX, false, 1), Err(TokenError::Overflow));
    assert_eq!(checked_transfer(-3, 0, false, 1), Err(TokenError::InsufficientBalance));
}

#[test]
fn a_new_ledger_is_empty() {
    let l = Ledger::new();
    assert_eq!(l.total_supply(), 0);
    assert_eq!(l.balance_of(holder(1)), 0);
    assert!(l.metadata().is_none());
}

#[test]
fn metadata_is_written_once() {
    let mut l = Ledger::new();
    assert_eq!(
        l.initialize_metadata(6, String::from("Faro Invoice Token"), String::from("FIT")),
        Ok(())
    );
    assert_eq!(
        l.initialize_metadata(2, String::from("Other"), String::from("OTH")),
        Err(TokenError::AlreadyInitialized)
    );
    let m = l.metadata().unwrap();
    assert_eq!(m.decimals, 6);
    assert_eq!(m.name, "Faro Invoice Token");
    assert_eq!(m.symbol, "FIT");
}

#[test]
fn the_ledger_mints_without_asking_who_calls() {
    let mut l = Ledger::new();
    assert_eq!(l.mint(holder(1), 10), Ok(()));
    assert_eq!(l.mint(holder(2), 5), Ok(()));
    assert_eq!(l.mint(holder(1), 1), Ok(()));
    assert_eq!(l.balance_of(holder(1)), 11);
    assert_eq!(l.balance_of(holder(2)), 5);
    assert_eq!(l.balance_of(holder(3)), 0);
    assert_eq!(l.total_supply(), 16);
}

#[test]
fn ledger_mint_refusals_change_nothing() {
    let mut l = Ledger::new();
    assert_eq!(l.mint(holder(1), 10), Ok(()));
    assert_eq!(l.mint(holder(1), 0), Err(TokenError::InvalidAmount));
    assert_eq!(l.mint(holder(2), -10), Err(TokenError::InvalidAmount));
    assert_eq!(l.mint(holder(2), i128::MAX), Err(TokenError::Overflow));
    assert_eq!(l.balance_of(holder(1)), 10);
    assert_eq!(l.balance_of(holder(2)), 0);
    assert_eq!(l.total_supply(), 10);
}

#[test]
fn ledger_transfer_debits_and_credits() {
    let mut l = Ledger::new();
    assert_eq!(l.mint(holder(1), 10), Ok(()));
    assert_eq!(l.transfer(holder(1), holder(2), 4), Ok(()));
    assert_eq!(l.balance_of(holder(1)), 6);
    assert_eq!(l.balance_of(holder(2)), 4);
    assert_eq!(l.transfer(holder(2), holder(1), 4), Ok(()));
    assert_eq!(l.balance_of(holder(1)), 10);
    assert_eq!(l.balance_of(holder(2)), 0);
    assert_eq!(l.total_supply(), 10);
}

#[test]
fn ledger_transfer_refusals_change_nothing() {
    let mut l = Ledger::new();
    assert_eq!(l.mint(holder(1), 10), Ok(()));
    assert_eq!(l.transfer(holder(1), holder(2), 11), Err(TokenError::InsufficientBalance));
    assert_eq!(l.transfer(holder(3), holder(2), 1), Err(TokenError::InsufficientBalance));
    assert_eq!(l.transfer(holder(1), holder(2), 0), Err(TokenError::InvalidAmount));
    assert_eq!(l.transfer(holder(3), holder(2), -1), Err(TokenError::InvalidAmount));
    assert_eq!(l.transfer(holder(1), holder(1), 11), Err(TokenError::InsufficientBalance));
    assert_eq!(l.balance_of(holder(1)), 10);
    assert_eq!(l.balance_of(holder(2)), 0);
    assert_eq!(l.total_supply(), 10);
}

#[test]
fn a_full_ledger_still_transfers() {
    let mut l = Ledger::new();
    assert_eq!(l.mint(holder(1), i128::MAX), Ok(()));
    assert_eq!(l.transfer(holder(1), holder(2), i128::MAX), Ok(()));
    assert_eq!(l.balance_of(holder(1)), 0);
    assert_eq!(l.balance_of(holder(2)), i128::MAX);
    assert_eq!(l.total_supply(), i128::MAX);
    assert_eq!(l.mint(holder(1), 1), Err(TokenError::Overflow));
}

#[test]
fn holders_are_listed_once_in_order_of_first_credit() {
    let mut l = Ledger::new();
    assert_eq!(l.holder_list(), vec![]);
    assert_eq!(l.mint(holder(2), 10), Ok(()));
    assert_eq!(l.mint(holder(1), 10), Ok(()));
    assert_eq!(l.mint(holder(2), 10), Ok(()));
    assert_eq!(l.transfer(holder(3), holder(4), 1), Err(TokenError::InsufficientBalance));
    assert_eq!(l.transfer(holder(1), holder(3), 10), Ok(()));
    assert_eq!(l.holder_list(), vec![holder(2), holder(1), holder(3)]);
    assert_eq!(l.balance_of(holder(1)), 0);
    let total: i128 = l.holder_list().into_iter().map(|h| l.balance_of(h)).sum();
    assert_eq!(total, l.total_supply());
    assert_eq!(total, 30);
}
