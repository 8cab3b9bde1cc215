use escrow::address::Address;
use escrow::context::{GetNFT, InitCounter, InitializeSolEscrow, InitializeTokenEscrow, Retrieve};
use escrow::engine::{
    get_nft_at, init_counter_at, initialize_sol_escrow_at, initialize_token_escrow_at, retrieve_at,
};
use escrow::ledger::Ledger;
use escrow::records::{CustomError, UserEscrowCounter};

fn key(n: u8) -> Address {
    Address { bytes: [n; 32] }
}

const D: u8 = 1;
const E: u8 = 2;
const R: u8 = 7;
const T: u8 = 10;
const D_T: u8 = 11;
const E_T: u8 = 12;
const SLOT: u8 = 13;
const D_R: u8 = 14;
const E_R: u8 = 15;

const COUNTER: u8 = 30;
const RECORD: u8 = 31;
const CLAIM: u8 = 32;

fn at(n: u8) -> Option<(Address, u8)> {
    Some((key(n), 200))
}

fn token_deposit() -> InitializeTokenEscrow {
    InitializeTokenEscrow {
        user: key(D),
        token_mint: key(T),
        user_token_ata: key(D_T),
        nft_mint: key(R),
        escrow_token_ata: key(SLOT),
    }
}

fn ledger_with_tokens() -> Ledger {
    let mut l = Ledger::new(key(0));
    assert_eq!(l.create_token(&key(T), &key(D_T), &key(D), 5000), Ok(()));
    assert_eq!(init_counter_at(&mut l, &InitCounter { user: key(D) }, at(COUNTER)), Ok(key(COUNTER)));
    l
}

fn ledger_with_receipt() -> Ledger {
    let mut l = ledger_with_tokens();
    assert_eq!(
        initialize_token_escrow_at(&mut l, &token_deposit(), 1000, at(COUNTER), at(RECORD)),
        Ok((key(RECORD), 0))
    );
    let issue = GetNFT { user: key(D), escrow_index: 0, user_nft_ata: key(D_R) };
    assert_eq!(get_nft_at(&mut l, &issue, at(RECORD), at(CLAIM)), Ok((key(R), key(CLAIM))));
    l
}

fn claim_of_d() -> Retrieve {
    Retrieve { user: key(D), nft_mint: key(R), escrow: key(RECORD), user_nft_ata: key(D_R), user_token_ata: key(D_T) }
}

#[test]
fn counter_goes_where_it_is_told() {
    let mut l = Ledger::new(key(0));
    assert_eq!(init_counter_at(&mut l, &InitCounter { user: key(D) }, Some((key(COUNTER), 9))), Ok(key(COUNTER)));
    assert_eq!(
        l.counter(&key(COUNTER)),
        Some(UserEscrowCounter { user: key(D), counter: 0, previous_counter: 0, bump: 9 })
    );
    assert_eq!(l.program(), key(0));
}

#[test]
fn nothing_is_opened_without_a_location() {
    let mut l = ledger_with_tokens();
    let before = l.clone();
    assert_eq!(init_counter_at(&mut l, &InitCounter { user: key(E) }, None), Err(CustomError::RecordNotFound));
    assert_eq!(
        initialize_token_escrow_at(&mut l, &token_deposit(), 1, None, at(RECORD)),
        Err(CustomError::RecordNotFound)
    );
    assert_eq!(
        initialize_token_escrow_at(&mut l, &token_deposit(), 1, at(COUNTER), None),
        Err(CustomError::RecordNotFound)
    );
    let sol = InitializeSolEscrow { user: key(D), nft_mint: key(R) };
    assert_eq!(initialize_sol_escrow_at(&mut l, &sol, 0, None, at(RECORD)), Err(CustomError::RecordNotFound));
    assert_eq!(initialize_sol_escrow_at(&mut l, &sol, 0, at(COUNTER), None), Err(CustomError::RecordNotFound));
    assert_eq!(l, before);
}

#[test]
fn a_taken_location_is_not_overwritten() {
    let mut l = ledger_with_receipt();
    let before = l.clone();
    assert_eq!(
        init_counter_at(&mut l, &InitCounter { user: key(E) }, at(COUNTER)),
        Err(CustomError::AlreadyInitialized)
    );
    let again = InitializeTokenEscrow { nft_mint: key(8), escrow_token_ata: key(18), ..token_deposit() };
    assert_eq!(
        initialize_token_escrow_at(&mut l, &again, 1, at(COUNTER), at(RECORD)),
        Err(CustomError::AlreadyInitialized)
    );
    let sol = InitializeSolEscrow { user: key(D), nft_mint: key(8) };
    assert_eq!(initialize_sol_escrow_at(&mut l, &sol, 0, at(COUNTER), at(RECORD)), Err(CustomError::AlreadyInitialized));
    assert_eq!(l, before);
    // a second record for a second receipt, whose metadata would land on the first
    assert_eq!(initialize_token_escrow_at(&mut l, &again, 1, at(COUNTER), at(41)), Ok((key(41), 1)));
    let before = l.clone();
    let issue = GetNFT { user: key(D), escrow_index: 1, user_nft_ata: key(24) };
    assert_eq!(get_nft_at(&mut l, &issue, at(41), at(CLAIM)), Err(CustomError::AlreadyInitialized));
    assert_eq!(get_nft_at(&mut l, &issue, at(41), None), Err(CustomError::RecordNotFound));
    assert_eq!(l, before);
}

#[test]
fn only_the_depositor_is_issued_the_receipt() {
    let mut l = ledger_with_tokens();
    assert!(initialize_token_escrow_at(&mut l, &token_deposit(), 1000, at(COUNTER), at(RECORD)).is_ok());
    let before = l.clone();
    let issue = GetNFT { user: key(E), escrow_index: 0, user_nft_ata: key(E_R) };
    assert_eq!(get_nft_at(&mut l, &issue, at(RECORD), at(CLAIM)), Err(CustomError::UnauthorizedSigner));
    assert_eq!(get_nft_at(&mut l, &issue, None, at(CLAIM)), Err(CustomError::RecordNotFound));
    assert_eq!(get_nft_at(&mut l, &issue, at(40), at(CLAIM)), Err(CustomError::RecordNotFound));
    assert_eq!(l, before);
}

#[test]
fn deposits_move_the_counter_on() {
    let mut l = Ledger::new(key(0));
    assert_eq!(l.create_token(&key(T), &key(D_T), &key(D), 5000), Ok(()));
    assert_eq!(l.fund(&key(D), 5000), Ok(()));
    assert!(init_counter_at(&mut l, &InitCounter { user: key(D) }, at(COUNTER)).is_ok());
    // two deposits move the counter from 0 to 2
    let sol = InitializeSolEscrow { user: key(D), nft_mint: key(50) };
    assert_eq!(initialize_sol_escrow_at(&mut l, &sol, 1, at(COUNTER), at(51)), Ok((key(51), 0)));
    let sol = InitializeSolEscrow { user: key(D), nft_mint: key(52) };
    assert_eq!(initialize_sol_escrow_at(&mut l, &sol, 1, at(COUNTER), at(53)), Ok((key(53), 1)));
    assert_eq!(l.counter(&key(COUNTER)).unwrap().counter, 2);
    assert_eq!(l.counter(&key(COUNTER)).unwrap().previous_counter, 1);
    assert_eq!(l.wallet(&key(D)), 4998);
}

#[test]
fn the_record_must_lie_where_its_seeds_say() {
    let mut l = ledger_with_receipt();
    let before = l.clone();
    // the location derived for the record is another one
    assert_eq!(retrieve_at(&mut l, &claim_of_d(), at(CLAIM), at(40)), Err(CustomError::RecordNotFound));
    assert_eq!(retrieve_at(&mut l, &claim_of_d(), at(CLAIM), None), Err(CustomError::RecordNotFound));
    // the metadata is looked for elsewhere
    assert_eq!(retrieve_at(&mut l, &claim_of_d(), at(40), at(RECORD)), Err(CustomError::RecordNotFound));
    assert_eq!(retrieve_at(&mut l, &claim_of_d(), None, at(RECORD)), Err(CustomError::RecordNotFound));
    assert_eq!(l, before);
    assert_eq!(retrieve_at(&mut l, &claim_of_d(), at(CLAIM), at(RECORD)), Ok((1000, key(D_T))));
}

#[test]
fn a_receipt_opens_no_other_record() {
    let mut l = ledger_with_receipt();
    let again = InitializeTokenEscrow { nft_mint: key(8), escrow_token_ata: key(18), ..token_deposit() };
    assert_eq!(initialize_token_escrow_at(&mut l, &again, 3000, at(COUNTER), at(41)), Ok((key(41), 1)));
    let issue = GetNFT { user: key(D), escrow_index: 1, user_nft_ata: key(24) };
    assert_eq!(get_nft_at(&mut l, &issue, at(41), at(42)), Ok((key(8), key(42))));
    let before = l.clone();
    // the first receipt, shown for the second record
    let claim = Retrieve { escrow: key(41), ..claim_of_d() };
    assert_eq!(retrieve_at(&mut l, &claim, at(CLAIM), at(41)), Err(CustomError::UnauthorizedSigner));
    // the second receipt type named, the first receipt shown
    let claim = Retrieve { nft_mint: key(8), escrow: key(41), ..claim_of_d() };
    assert_eq!(retrieve_at(&mut l, &claim, at(42), at(41)), Err(CustomError::UnauthorizedSigner));
    // the metadata of the first receipt is not that of the second
    assert_eq!(retrieve_at(&mut l, &claim, at(CLAIM), at(41)), Err(CustomError::RecordNotFound));
    assert_eq!(l, before);
}

#[test]
fn retrieval_removes_the_records_and_nothing_else() {
    let mut l = ledger_with_receipt();
    let again = InitializeTokenEscrow { nft_mint: key(8), escrow_token_ata: key(18), ..token_deposit() };
    assert!(initialize_token_escrow_at(&mut l, &again, 3000, at(COUNTER), at(41)).is_ok());
    assert_eq!(retrieve_at(&mut l, &claim_of_d(), at(CLAIM), at(RECORD)), Ok((1000, key(D_T))));
    assert_eq!(l.escrow(&key(RECORD)), None);
    assert_eq!(l.metadata(&key(CLAIM)), None);
    assert_eq!(l.custody_slot(&key(SLOT)), None);
    assert_eq!(l.escrow(&key(41)).unwrap().token_amount, 3000);
    assert_eq!(l.custody_slot(&key(18)).unwrap().amount, 3000);
    assert_eq!(l.counter(&key(COUNTER)).unwrap().counter, 2);
    assert_eq!(l.token_account(&key(D_T)).unwrap().amount, 2000);
}
