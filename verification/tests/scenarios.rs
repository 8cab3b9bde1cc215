use escrow::address::Address;
use escrow::context::{GetNFT, InitCounter, InitializeSolEscrow, InitializeTokenEscrow, Retrieve};
use escrow::engine::{get_nft, init_counter, initialize_sol_escrow, initialize_token_escrow, retrieve};
use escrow::ledger::Ledger;
use escrow::records::{AssetKind, CustodySlot, CustomError, Escrow, Mint, TokenAccount, TokenMetadata, UserEscrowCounter};

fn key(n: u8) -> Address {
    Address { bytes: [n; 32] }
}

fn program() -> Address {
    Address {
        bytes: [
            108, 220, 25, 40, 60, 234, 35, 66, 137, 226, 33, 54, 222, 83, 66, 70, 231, 38, 194, 170, 124, 104, 114,
            140, 31, 59, 24, 140, 72, 54, 20, 19,
        ],
    }
}

/// The location of the counter of `key(1)`.
fn counter_of_d() -> Address {
    Address {
        bytes: [
            199, 24, 221, 200, 184, 52, 201, 56, 82, 204, 56, 204, 198, 97, 14, 210, 19, 146, 66, 198, 233, 118,
            217, 110, 238, 138, 145, 54, 23, 136, 243, 6,
        ],
    }
}

/// The location of the first escrow record of `key(1)`.
fn first_escrow_of_d() -> Address {
    Address {
        bytes: [
            93, 135, 69, 6, 220, 226, 155, 142, 222, 134, 14, 12, 114, 250, 5, 39, 4, 228, 144, 205, 61, 124, 154,
            205, 58, 222, 244, 40, 249, 254, 20, 91,
        ],
    }
}

/// The location of the second escrow record of `key(1)`.
fn second_escrow_of_d() -> Address {
    Address {
        bytes: [
            75, 242, 54, 162, 144, 55, 7, 13, 49, 224, 198, 246, 156, 115, 173, 255, 124, 167, 104, 244, 193, 182,
            101, 212, 89, 137, 93, 243, 114, 5, 36, 233,
        ],
    }
}

/// The location of the claim metadata of the receipt type `key(7)`.
fn metadata_of_r() -> Address {
    Address {
        bytes: [
            155, 118, 42, 210, 80, 84, 169, 91, 24, 108, 53, 37, 45, 163, 43, 234, 14, 68, 192, 231, 99, 98, 253,
            69, 151, 183, 180, 86, 228, 74, 37, 90,
        ],
    }
}

const D: u8 = 1;
const E: u8 = 2;
const R: u8 = 7;
const T: u8 = 10;
const D_T: u8 = 11;
const E_T: u8 = 12;
const SLOT: u8 = 13;
const D_R: u8 = 14;
const E_R: u8 = 15;

fn token_deposit() -> InitializeTokenEscrow {
    InitializeTokenEscrow {
        user: key(D),
        token_mint: key(T),
        user_token_ata: key(D_T),
        nft_mint: key(R),
        escrow_token_ata: key(SLOT),
    }
}

/// A ledger in which `key(1)` holds 5000 units of `key(10)` and has a counter.
fn ledger_with_tokens() -> Ledger {
    let mut l = Ledger::new(program());
    assert_eq!(l.create_token(&key(T), &key(D_T), &key(D), 5000), Ok(()));
    assert_eq!(init_counter(&mut l, &InitCounter { user: key(D) }), Ok(counter_of_d()));
    l
}

#[test]
fn token_deposit_is_retrieved_by_the_party_that_got_the_receipt() {
    let mut l = ledger_with_tokens();

    assert_eq!(initialize_token_escrow(&mut l, &token_deposit(), 1000), Ok((first_escrow_of_d(), 0)));
    assert_eq!(l.token_account(&key(D_T)).unwrap().amount, 4000);
    assert_eq!(
        l.custody_slot(&key(SLOT)),
        Some(CustodySlot { owner: first_escrow_of_d(), mint: key(T), amount: 1000 })
    );
    assert_eq!(
        l.escrow(&first_escrow_of_d()),
        Some(Escrow {
            authority: key(D),
            bump: 254,
            asset: AssetKind::FungibleToken { token_mint: key(T), escrow_token_ata: key(SLOT) },
            token_amount: 1000,
            nft_mint: key(R),
            nft_acquired: false,
        })
    );
    assert_eq!(
        l.counter(&counter_of_d()),
        Some(UserEscrowCounter { user: key(D), counter: 1, previous_counter: 0, bump: 253 })
    );
    assert_eq!(l.mint(&key(R)), Some(Mint { issuer: first_escrow_of_d(), supply: 0 }));

    let issue = GetNFT { user: key(D), escrow_index: 0, user_nft_ata: key(D_R) };
    assert_eq!(get_nft(&mut l, &issue), Ok((key(R), metadata_of_r())));
    assert_eq!(l.token_account(&key(D_R)), Some(TokenAccount { mint: key(R), owner: key(D), amount: 1 }));
    assert_eq!(l.mint(&key(R)), Some(Mint { issuer: first_escrow_of_d(), supply: 1 }));
    assert_eq!(
        l.metadata(&metadata_of_r()),
        Some(TokenMetadata {
            nft_mint: key(R),
            escrow_number: 0,
            escrowed_token_mint: Some(key(T)),
            escrowed_amount: 1000,
            bump: 254,
        })
    );
    assert!(l.escrow(&first_escrow_of_d()).unwrap().nft_acquired);

    assert_eq!(l.open_token_account(&key(E_R), &key(R), &key(E)), Ok(()));
    assert_eq!(l.transfer(&key(D_R), &key(E_R), &key(D), 1), Ok(()));
    assert_eq!(l.open_token_account(&key(E_T), &key(T), &key(E)), Ok(()));

    let claim = Retrieve {
        user: key(E),
        nft_mint: key(R),
        escrow: first_escrow_of_d(),
        user_nft_ata: key(E_R),
        user_token_ata: key(E_T),
    };
    assert_eq!(retrieve(&mut l, &claim), Ok((1000, key(E_T))));
    assert_eq!(l.token_account(&key(E_R)).unwrap().amount, 0);
    assert_eq!(l.mint(&key(R)).unwrap().supply, 0);
    assert_eq!(l.custody_slot(&key(SLOT)), None);
    assert_eq!(l.token_account(&key(E_T)).unwrap().amount, 1000);
    assert_eq!(l.token_account(&key(D_T)).unwrap().amount, 4000);
    assert_eq!(l.escrow(&first_escrow_of_d()), None);
    assert_eq!(l.metadata(&metadata_of_r()), None);
}

#[test]
fn native_deposit_is_held_by_the_record_and_released_on_closure() {
    let mut l = Ledger::new(program());
    assert_eq!(l.fund(&key(D), 100), Ok(()));
    assert_eq!(init_counter(&mut l, &InitCounter { user: key(D) }), Ok(counter_of_d()));

    let deposit = InitializeSolEscrow { user: key(D), nft_mint: key(R) };
    assert_eq!(initialize_sol_escrow(&mut l, &deposit, 5), Ok((first_escrow_of_d(), 0)));
    assert_eq!(l.wallet(&key(D)), 95);
    assert_eq!(
        l.escrow(&first_escrow_of_d()),
        Some(Escrow {
            authority: key(D),
            bump: 254,
            asset: AssetKind::NativeCoin,
            token_amount: 5,
            nft_mint: key(R),
            nft_acquired: false,
        })
    );
    assert_eq!(l.custody_slot(&key(SLOT)), None);

    let issue = GetNFT { user: key(D), escrow_index: 0, user_nft_ata: key(D_R) };
    assert_eq!(get_nft(&mut l, &issue), Ok((key(R), metadata_of_r())));
    assert_eq!(l.metadata(&metadata_of_r()).unwrap().escrowed_token_mint, None);
    assert_eq!(l.metadata(&metadata_of_r()).unwrap().escrowed_amount, 5);

    assert_eq!(l.open_token_account(&key(E_R), &key(R), &key(E)), Ok(()));
    assert_eq!(l.transfer(&key(D_R), &key(E_R), &key(D), 1), Ok(()));
    assert_eq!(l.fund(&key(E), 7), Ok(()));

    let claim = Retrieve {
        user: key(E),
        nft_mint: key(R),
        escrow: first_escrow_of_d(),
        user_nft_ata: key(E_R),
        user_token_ata: key(E_T),
    };
    assert_eq!(retrieve(&mut l, &claim), Ok((5, key(E))));
    assert_eq!(l.wallet(&key(E)), 12);
    assert_eq!(l.wallet(&key(D)), 95);
    assert_eq!(l.escrow(&first_escrow_of_d()), None);
    assert_eq!(l.metadata(&metadata_of_r()), None);
    assert_eq!(l.token_account(&key(E_R)).unwrap().amount, 0);
    assert_eq!(l.mint(&key(R)).unwrap().supply, 0);
}

#[test]
fn init_counter_twice_fails_the_second_time() {
    let mut l = Ledger::new(program());
    assert_eq!(init_counter(&mut l, &InitCounter { user: key(D) }), Ok(counter_of_d()));
    assert_eq!(
        l.counter(&counter_of_d()),
        Some(UserEscrowCounter { user: key(D), counter: 0, previous_counter: 0, bump: 253 })
    );
    let before = l.clone();
    assert_eq!(init_counter(&mut l, &InitCounter { user: key(D) }), Err(CustomError::AlreadyInitialized));
    assert_eq!(l, before);
    // another depositor is not in the way
    assert!(init_counter(&mut l, &InitCounter { user: key(E) }).is_ok());
    assert_eq!(init_counter(&mut l, &InitCounter { user: key(E) }), Err(CustomError::AlreadyInitialized));
}

#[test]
fn init_counter_twice_keeps_a_counter_that_moved_on() {
    let mut l = ledger_with_tokens();
    assert!(initialize_token_escrow(&mut l, &token_deposit(), 10).is_ok());
    let before = l.clone();
    assert_eq!(init_counter(&mut l, &InitCounter { user: key(D) }), Err(CustomError::AlreadyInitialized));
    assert_eq!(l, before);
    assert_eq!(l.counter(&counter_of_d()).unwrap().counter, 1);
}

#[test]
fn token_deposit_moves_exactly_the_amount() {
    let mut l = ledger_with_tokens();
    let before = l.token_account(&key(D_T)).unwrap().amount;
    let (at, _) = initialize_token_escrow(&mut l, &token_deposit(), 1234).unwrap();
    let after = l.token_account(&key(D_T)).unwrap().amount;
    let in_slot = l.custody_slot(&key(SLOT)).unwrap().amount;
    let in_record = if l.escrow(&at).unwrap().is_solana() { l.escrow(&at).unwrap().token_amount } else { 0 };
    assert_eq!(in_slot + in_record, before - after);
    assert_eq!(in_slot + in_record, 1234);
}

#[test]
fn native_deposit_moves_exactly_the_amount() {
    let mut l = Ledger::new(program());
    assert_eq!(l.fund(&key(D), 1_000_000), Ok(()));
    assert!(init_counter(&mut l, &InitCounter { user: key(D) }).is_ok());
    let before = l.wallet(&key(D));
    let (at, _) = initialize_sol_escrow(&mut l, &InitializeSolEscrow { user: key(D), nft_mint: key(R) }, 999).unwrap();
    let after = l.wallet(&key(D));
    let in_record = if l.escrow(&at).unwrap().is_solana() { l.escrow(&at).unwrap().token_amount } else { 0 };
    assert_eq!(in_record, before - after);
    assert_eq!(in_record, 999);
}

#[test]
fn receipt_is_issued_once() {
    let mut l = ledger_with_tokens();
    assert!(initialize_token_escrow(&mut l, &token_deposit(), 1000).is_ok());
    let issue = GetNFT { user: key(D), escrow_index: 0, user_nft_ata: key(D_R) };
    assert_eq!(get_nft(&mut l, &issue), Ok((key(R), metadata_of_r())));
    let before = l.clone();
    assert_eq!(get_nft(&mut l, &issue), Err(CustomError::ReceiptAlreadyIssued));
    assert_eq!(l, before);
    assert_eq!(l.mint(&key(R)).unwrap().supply, 1);
    // nor into another balance account
    let again = GetNFT { user: key(D), escrow_index: 0, user_nft_ata: key(E_R) };
    assert_eq!(get_nft(&mut l, &again), Err(CustomError::ReceiptAlreadyIssued));
    assert_eq!(l.token_account(&key(E_R)), None);
    assert_eq!(l.mint(&key(R)).unwrap().supply, 1);
}

#[test]
fn depositor_gets_back_exactly_what_was_deposited() {
    let mut l = ledger_with_tokens();
    assert!(initialize_token_escrow(&mut l, &token_deposit(), 777).is_ok());
    assert_eq!(l.token_account(&key(D_T)).unwrap().amount, 4223);
    let issue = GetNFT { user: key(D), escrow_index: 0, user_nft_ata: key(D_R) };
    assert!(get_nft(&mut l, &issue).is_ok());
    let claim = Retrieve {
        user: key(D),
        nft_mint: key(R),
        escrow: first_escrow_of_d(),
        user_nft_ata: key(D_R),
        user_token_ata: key(D_T),
    };
    assert_eq!(retrieve(&mut l, &claim), Ok((777, key(D_T))));
    assert_eq!(l.token_account(&key(D_T)).unwrap().amount, 5000);
    assert_eq!(l.token_account(&key(D_R)).unwrap().amount, 0);
    assert_eq!(l.mint(&key(R)).unwrap().supply, 0);
    // the receipt cannot be used again
    assert_eq!(retrieve(&mut l, &claim), Err(CustomError::RecordNotFound));
}

#[test]
fn retrieval_without_the_receipt_is_refused() {
    let mut l = ledger_with_tokens();
    assert!(initialize_token_escrow(&mut l, &token_deposit(), 1000).is_ok());
    let issue = GetNFT { user: key(D), escrow_index: 0, user_nft_ata: key(D_R) };
    assert!(get_nft(&mut l, &issue).is_ok());
    assert_eq!(l.open_token_account(&key(E_R), &key(R), &key(E)), Ok(()));
    assert_eq!(l.open_token_account(&key(E_T), &key(T), &key(E)), Ok(()));
    let before = l.clone();

    // E has a balance account of the receipt type, but it is empty
    let claim = Retrieve {
        user: key(E),
        nft_mint: key(R),
        escrow: first_escrow_of_d(),
        user_nft_ata: key(E_R),
        user_token_ata: key(E_T),
    };
    assert_eq!(retrieve(&mut l, &claim), Err(CustomError::UnauthorizedSigner));
    assert_eq!(l, before);

    // E points at the depositor's balance account, which E does not own
    let claim = Retrieve { user_nft_ata: key(D_R), ..claim };
    assert_eq!(retrieve(&mut l, &claim), Err(CustomError::UnauthorizedSigner));
    assert_eq!(l, before);

    // E names a balance account that does not exist
    let claim = Retrieve { user_nft_ata: key(99), ..claim };
    assert_eq!(retrieve(&mut l, &claim), Err(CustomError::UnauthorizedSigner));
    assert_eq!(l, before);

    assert!(l.escrow(&first_escrow_of_d()).is_some());
    assert!(l.metadata(&metadata_of_r()).is_some());
    assert_eq!(l.custody_slot(&key(SLOT)).unwrap().amount, 1000);
}

#[test]
fn second_deposit_gets_the_next_index() {
    let mut l = ledger_with_tokens();
    assert_eq!(initialize_token_escrow(&mut l, &token_deposit(), 1), Ok((first_escrow_of_d(), 0)));
    let again = InitializeTokenEscrow { nft_mint: key(8), escrow_token_ata: key(18), ..token_deposit() };
    assert_eq!(initialize_token_escrow(&mut l, &again, 2), Ok((second_escrow_of_d(), 1)));
    assert_eq!(
        l.counter(&counter_of_d()),
        Some(UserEscrowCounter { user: key(D), counter: 2, previous_counter: 1, bump: 253 })
    );
    assert_eq!(l.token_account(&key(D_T)).unwrap().amount, 4997);
    assert_eq!(l.escrow(&first_escrow_of_d()).unwrap().token_amount, 1);
    assert_eq!(l.escrow(&second_escrow_of_d()).unwrap().token_amount, 2);
}
