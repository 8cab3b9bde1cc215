use escrow::address::Address;
use escrow::ledger::Ledger;
use escrow::records::{CustomError, Mint, TokenAccount};

fn key(n: u8) -> Address {
    Address { bytes: [n; 32] }
}

#[test]
fn new_ledger_is_empty() {
    let l = Ledger::new(key(0));
    assert_eq!(l.program(), key(0));
    assert_eq!(l.wallet(&key(1)), 0);
    assert_eq!(l.counter(&key(1)), None);
    assert_eq!(l.escrow(&key(1)), None);
    assert_eq!(l.metadata(&key(1)), None);
    assert_eq!(l.custody_slot(&key(1)), None);
    assert_eq!(l.mint(&key(1)), None);
    assert_eq!(l.token_account(&key(1)), None);
}

#[test]
fn funds_add_up() {
    let mut l = Ledger::new(key(0));
    assert_eq!(l.fund(&key(1), 40), Ok(()));
    assert_eq!(l.fund(&key(1), 2), Ok(()));
    assert_eq!(l.fund(&key(2), 0), Ok(()));
    assert_eq!(l.wallet(&key(1)), 42);
    assert_eq!(l.wallet(&key(2)), 0);
}

#[test]
fn funds_stay_in_range() {
    let mut l = Ledger::new(key(0));
    assert_eq!(l.fund(&key(1), u64::MAX), Ok(()));
    let before = l.clone();
    assert_eq!(l.fund(&key(1), 1), Err(CustomError::Overflow));
    assert_eq!(l, before);
    assert_eq!(l.fund(&key(1), 0), Ok(()));
    assert_eq!(l.wallet(&key(1)), u64::MAX);
}

#[test]
fn token_type_starts_in_one_balance_account() {
    let mut l = Ledger::new(key(0));
    assert_eq!(l.create_token(&key(10), &key(11), &key(1), 5000), Ok(()));
    assert_eq!(l.mint(&key(10)), Some(Mint { issuer: key(1), supply: 5000 }));
    assert_eq!(l.token_account(&key(11)), Some(TokenAccount { mint: key(10), owner: key(1), amount: 5000 }));
    let before = l.clone();
    assert_eq!(l.create_token(&key(10), &key(12), &key(1), 1), Err(CustomError::AlreadyInitialized));
    assert_eq!(l.create_token(&key(20), &key(11), &key(1), 1), Err(CustomError::AlreadyInitialized));
    assert_eq!(l, before);
}

#[test]
fn balance_account_opens_empty() {
    let mut l = Ledger::new(key(0));
    assert_eq!(l.create_token(&key(10), &key(11), &key(1), 5000), Ok(()));
    assert_eq!(l.open_token_account(&key(12), &key(10), &key(2)), Ok(()));
    assert_eq!(l.token_account(&key(12)), Some(TokenAccount { mint: key(10), owner: key(2), amount: 0 }));
    let before = l.clone();
    assert_eq!(l.open_token_account(&key(12), &key(10), &key(3)), Err(CustomError::AlreadyInitialized));
    assert_eq!(l.open_token_account(&key(13), &key(99), &key(3)), Err(CustomError::RecordNotFound));
    assert_eq!(l, before);
}

#[test]
fn transfer_moves_units_between_accounts_of_one_type() {
    let mut l = Ledger::new(key(0));
    assert_eq!(l.create_token(&key(10), &key(11), &key(1), 5000), Ok(()));
    assert_eq!(l.open_token_account(&key(12), &key(10), &key(2)), Ok(()));
    assert_eq!(l.transfer(&key(11), &key(12), &key(1), 1200), Ok(()));
    assert_eq!(l.token_account(&key(11)).unwrap().amount, 3800);
    assert_eq!(l.token_account(&key(12)).unwrap().amount, 1200);
    assert_eq!(l.transfer(&key(12), &key(11), &key(2), 200), Ok(()));
    assert_eq!(l.token_account(&key(11)).unwrap().amount, 4000);
    assert_eq!(l.token_account(&key(12)).unwrap().amount, 1000);
    assert_eq!(l.mint(&key(10)).unwrap().supply, 5000);
}

#[test]
fn transfer_to_the_same_account_changes_nothing() {
    let mut l = Ledger::new(key(0));
    assert_eq!(l.create_token(&key(10), &key(11), &key(1), 5000), Ok(()));
    let before = l.clone();
    assert_eq!(l.transfer(&key(11), &key(11), &key(1), 5000), Ok(()));
    assert_eq!(l, before);
    assert_eq!(l.transfer(&key(11), &key(11), &key(1), 5001), Err(CustomError::InsufficientFunds));
    assert_eq!(l.transfer(&key(11), &key(11), &key(2), 1), Err(CustomError::UnauthorizedSigner));
    assert_eq!(l, before);
}

#[test]
fn transfer_is_refused_for_each_reason() {
    let mut l = Ledger::new(key(0));
    assert_eq!(l.create_token(&key(10), &key(11), &key(1), 5000), Ok(()));
    assert_eq!(l.open_token_account(&key(12), &key(10), &key(2)), Ok(()));
    assert_eq!(l.create_token(&key(20), &key(21), &key(2), u64::MAX), Ok(()));
    let before = l.clone();
    assert_eq!(l.transfer(&key(99), &key(12), &key(1), 1), Err(CustomError::RecordNotFound));
    assert_eq!(l.transfer(&key(11), &key(99), &key(1), 1), Err(CustomError::RecordNotFound));
    assert_eq!(l.transfer(&key(11), &key(12), &key(2), 1), Err(CustomError::UnauthorizedSigner));
    assert_eq!(l.transfer(&key(11), &key(21), &key(1), 1), Err(CustomError::TypeMismatch));
    assert_eq!(l.transfer(&key(11), &key(12), &key(1), 5001), Err(CustomError::InsufficientFunds));
    assert_eq!(l, before);
}
