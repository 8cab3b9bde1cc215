use vstd::prelude::*;
use crate::address::Address;
use crate::context::{GetNFT, InitCounter, InitializeSolEscrow, InitializeTokenEscrow, Location, Retrieve};
use crate::ledger::{Ledger, Stores};
use crate::locate::{counter_address, escrow_address, metadata_address};
use crate::model::{
    get_nft_model, get_nft_spec, init_counter_model, init_counter_spec, initialize_sol_escrow_spec,
    initialize_token_escrow_spec, retrieve_model, retrieve_spec, sol_escrow_model, token_escrow_model,
};
use crate::preserve::{
    lemma_get_nft_keeps_wf, lemma_init_counter_keeps_wf, lemma_retrieve_keeps_wf, lemma_sol_escrow_keeps_wf,
    lemma_token_escrow_keeps_wf,
};
use crate::records::{AssetKind, CustodySlot, CustomError, Escrow, Mint, TokenAccount, TokenMetadata, UserEscrowCounter};

verus! {

/// The body of `init_counter_at`, on the stores of a ledger.
fn init_counter_in(stores: &mut Stores, ctx: &InitCounter, at: Location) -> (r: Result<Address, CustomError>)
    requires
        old(stores)@.wf(),
    ensures
        final(stores)@.wf(),
        (r, final(stores)@) == init_counter_model(old(stores)@, *ctx, at),
{
    let (address, bump) = match at {
        Some(location) => location,
        None => {
            return Err(CustomError::RecordNotFound);
        },
    };
    if stores.counter(&address).is_some() {
        return Err(CustomError::AlreadyInitialized);
    }
    proof {
        lemma_init_counter_keeps_wf(stores@, *ctx, at);
    }
    stores.put_counter(address, UserEscrowCounter::new(ctx.user, bump));
    Ok(address)
}

/// Opens the sequence counter of `ctx.user` at the location `at`. Refused
/// where there is no location or a counter is already there.
pub fn init_counter_at(ledger: &mut Ledger, ctx: &InitCounter, at: Location) -> (r: Result<Address, CustomError>)
    ensures
        final(ledger)@.wf(),
        (r, final(ledger)@) == init_counter_model(old(ledger)@, *ctx, at),
{
    let mut stores = ledger.checkout();
    let r = init_counter_in(&mut stores, ctx, at);
    ledger.commit(stores);
    r
}

/// Opens the sequence counter of `ctx.user`, with both indices at zero, at
/// the location derived from the depositor, and returns that location. A
/// second call for the same depositor is refused with `AlreadyInitialized`
/// and changes nothing.
pub fn init_counter(ledger: &mut Ledger, ctx: &InitCounter) -> (r: Result<Address, CustomError>)
    ensures
        final(ledger)@.wf(),
        (r, final(ledger)@) == init_counter_spec(old(ledger)@, *ctx),
{
    let program = ledger.program();
    let at = counter_address(&program, &ctx.user);
    init_counter_at(ledger, ctx, at)
}

/// The body of `initialize_token_escrow_at`, on the stores of a ledger.
fn initialize_token_escrow_in(
    stores: &mut Stores,
    ctx: &InitializeTokenEscrow,
    token_amount: u64,
    counter_at: Location,
    escrow_at: Location,
) -> (r: Result<(Address, u64), CustomError>)
    requires
        old(stores)@.wf(),
    ensures
        final(stores)@.wf(),
        (r, final(stores)@) == token_escrow_model(old(stores)@, *ctx, token_amount, counter_at, escrow_at),
{
    let counter_address = match counter_at {
        Some(location) => location.0,
        None => {
            return Err(CustomError::RecordNotFound);
        },
    };
    let counter = match stores.counter(&counter_address) {
        Some(counter) => counter,
        None => {
            return Err(CustomError::RecordNotFound);
        },
    };
    if stores.mint(&ctx.token_mint).is_none() {
        return Err(CustomError::InvalidSourceAccount);
    }
    let source = match stores.token_account(&ctx.user_token_ata) {
        Some(account) => account,
        None => {
            return Err(CustomError::InvalidSourceAccount);
        },
    };
    if !source.is_source_for(&ctx.token_mint, &ctx.user) {
        return Err(CustomError::InvalidSourceAccount);
    }
    if stores.mint(&ctx.nft_mint).is_some() {
        return Err(CustomError::AlreadyInitialized);
    }
    let (escrow_address, bump) = match escrow_at {
        Some(location) => location,
        None => {
            return Err(CustomError::RecordNotFound);
        },
    };
    if stores.escrow(&escrow_address).is_some() {
        return Err(CustomError::AlreadyInitialized);
    }
    if stores.custody_slot(&ctx.escrow_token_ata).is_some() {
        return Err(CustomError::AlreadyInitialized);
    }
    let advanced = match counter.advance() {
        Some(advanced) => advanced,
        None => {
            return Err(CustomError::Overflow);
        },
    };
    if source.amount < token_amount {
        return Err(CustomError::InsufficientFunds);
    }
    proof {
        lemma_token_escrow_keeps_wf(stores@, *ctx, token_amount, counter_at, escrow_at);
    }
    stores.put_counter(counter_address, advanced);
    stores.put_escrow(
        escrow_address,
        Escrow::new_token(ctx.user, bump, ctx.token_mint, ctx.escrow_token_ata, token_amount, ctx.nft_mint),
    );
    stores.put_custody(
        ctx.escrow_token_ata,
        CustodySlot { owner: escrow_address, mint: ctx.token_mint, amount: token_amount },
    );
    stores.put_mint(ctx.nft_mint, Mint { issuer: escrow_address, supply: 0 });
    stores.put_token_account(
        ctx.user_token_ata,
        TokenAccount { mint: source.mint, owner: source.owner, amount: source.amount - token_amount },
    );
    Ok((escrow_address, counter.counter))
}

/// A token deposit on given locations: `counter_at` is where the depositor's
/// counter lies, `escrow_at` where the new escrow record goes.
pub fn initialize_token_escrow_at(
    ledger: &mut Ledger,
    ctx: &InitializeTokenEscrow,
    token_amount: u64,
    counter_at: Location,
    escrow_at: Location,
) -> (r: Result<(Address, u64), CustomError>)
    ensures
        final(ledger)@.wf(),
        (r, final(ledger)@) == token_escrow_model(old(ledger)@, *ctx, token_amount, counter_at, escrow_at),
{
    let mut stores = ledger.checkout();
    let r = initialize_token_escrow_in(&mut stores, ctx, token_amount, counter_at, escrow_at);
    ledger.commit(stores);
    r
}

/// Deposits `token_amount` units of `ctx.token_mint` from the depositor's
/// balance account into a new custody slot, under a new escrow record at the
/// location derived from the depositor and the next sequence index, and
/// advances the depositor's counter. Returns the record's location and index.
pub fn initialize_token_escrow(ledger: &mut Ledger, ctx: &InitializeTokenEscrow, token_amount: u64) -> (r: Result<
    (Address, u64),
    CustomError,
>)
    ensures
        final(ledger)@.wf(),
        (r, final(ledger)@) == initialize_token_escrow_spec(old(ledger)@, *ctx, token_amount),
{
    let program = ledger.program();
    let counter_at = counter_address(&program, &ctx.user);
    let counter = match counter_at {
        Some(location) => match ledger.counter(&location.0) {
            Some(counter) => counter,
            None => {
                return Err(CustomError::RecordNotFound);
            },
        },
        None => {
            return Err(CustomError::RecordNotFound);
        },
    };
    let escrow_at = escrow_address(&program, &ctx.user, counter.counter);
    initialize_token_escrow_at(ledger, ctx, token_amount, counter_at, escrow_at)
}

/// The body of `initialize_sol_escrow_at`, on the stores of a ledger.
fn initialize_sol_escrow_in(
    stores: &mut Stores,
    ctx: &InitializeSolEscrow,
    token_amount: u64,
    counter_at: Location,
    escrow_at: Location,
) -> (r: Result<(Address, u64), CustomError>)
    requires
        old(stores)@.wf(),
    ensures
        final(stores)@.wf(),
        (r, final(stores)@) == sol_escrow_model(old(stores)@, *ctx, token_amount, counter_at, escrow_at),
{
    let counter_address = match counter_at {
        Some(location) => location.0,
        None => {
            return Err(CustomError::RecordNotFound);
        },
    };
    let counter = match stores.counter(&counter_address) {
        Some(counter) => counter,
        None => {
            return Err(CustomError::RecordNotFound);
        },
    };
    if stores.mint(&ctx.nft_mint).is_some() {
        return Err(CustomError::AlreadyInitialized);
    }
    let (escrow_address, bump) = match escrow_at {
        Some(location) => location,
        None => {
            return Err(CustomError::RecordNotFound);
        },
    };
    if stores.escrow(&escrow_address).is_some() {
        return Err(CustomError::AlreadyInitialized);
    }
    let advanced = match counter.advance() {
        Some(advanced) => advanced,
        None => {
            return Err(CustomError::Overflow);
        },
    };
    let balance = stores.wallet(&ctx.user);
    if balance < token_amount {
        return Err(CustomError::InsufficientFunds);
    }
    proof {
        lemma_sol_escrow_keeps_wf(stores@, *ctx, token_amount, counter_at, escrow_at);
    }
    stores.put_counter(counter_address, advanced);
    stores.put_escrow(escrow_address, Escrow::new_sol(ctx.user, bump, token_amount, ctx.nft_mint));
    stores.put_mint(ctx.nft_mint, Mint { issuer: escrow_address, supply: 0 });
    stores.put_wallet(ctx.user, balance - token_amount);
    Ok((escrow_address, counter.counter))
}

/// A native-coin deposit on given locations.
pub fn initialize_sol_escrow_at(
    ledger: &mut Ledger,
    ctx: &InitializeSolEscrow,
    token_amount: u64,
    counter_at: Location,
    escrow_at: Location,
) -> (r: Result<(Address, u64), CustomError>)
    ensures
        final(ledger)@.wf(),
        (r, final(ledger)@) == sol_escrow_model(old(ledger)@, *ctx, token_amount, counter_at, escrow_at),
{
    let mut stores = ledger.checkout();
    let r = initialize_sol_escrow_in(&mut stores, ctx, token_amount, counter_at, escrow_at);
    ledger.commit(stores);
    r
}

/// Deposits `token_amount` of native coin from the depositor's wallet into a
/// new escrow record, which holds it itself, and advances the depositor's
/// counter. Returns the record's location and index.
pub fn initialize_sol_escrow(ledger: &mut Ledger, ctx: &InitializeSolEscrow, token_amount: u64) -> (r: Result<
    (Address, u64),
    CustomError,
>)
    ensures
        final(ledger)@.wf(),
        (r, final(ledger)@) == initialize_sol_escrow_spec(old(ledger)@, *ctx, token_amount),
{
    let program = ledger.program();
    let counter_at = counter_address(&program, &ctx.user);
    let counter = match counter_at {
        Some(location) => match ledger.counter(&location.0) {
            Some(counter) => counter,
            None => {
                return Err(CustomError::RecordNotFound);
            },
        },
        None => {
            return Err(CustomError::RecordNotFound);
        },
    };
    let escrow_at = escrow_address(&program, &ctx.user, counter.counter);
    initialize_sol_escrow_at(ledger, ctx, token_amount, counter_at, escrow_at)
}

/// The body of `get_nft_at`, on the stores of a ledger.
fn get_nft_in(stores: &mut Stores, ctx: &GetNFT, escrow_at: Location, metadata_at: Location) -> (r: Result<
    (Address, Address),
    CustomError,
>)
    requires
        old(stores)@.wf(),
    ensures
        final(stores)@.wf(),
        (r, final(stores)@) == get_nft_model(old(stores)@, *ctx, escrow_at, metadata_at),
{
    let escrow_address = match escrow_at {
        Some(location) => location.0,
        None => {
            return Err(CustomError::RecordNotFound);
        },
    };
    let escrow = match stores.escrow(&escrow_address) {
        Some(escrow) => escrow,
        None => {
            return Err(CustomError::RecordNotFound);
        },
    };
    if !(escrow.authority == ctx.user) {
        return Err(CustomError::UnauthorizedSigner);
    }
    let issued = match escrow.mark_issued() {
        Some(issued) => issued,
        None => {
            return Err(CustomError::ReceiptAlreadyIssued);
        },
    };
    let (metadata_address, bump) = match metadata_at {
        Some(location) => location,
        None => {
            return Err(CustomError::RecordNotFound);
        },
    };
    if stores.metadata(&metadata_address).is_some() {
        return Err(CustomError::AlreadyInitialized);
    }
    if stores.token_account(&ctx.user_nft_ata).is_some() {
        return Err(CustomError::AlreadyInitialized);
    }
    proof {
        lemma_get_nft_keeps_wf(stores@, *ctx, escrow_at, metadata_at);
    }
    stores.put_escrow(escrow_address, issued);
    stores.put_metadata(metadata_address, TokenMetadata::new(&escrow, ctx.escrow_index, bump));
    stores.put_mint(escrow.nft_mint, Mint { issuer: escrow_address, supply: 1 });
    stores.put_token_account(
        ctx.user_nft_ata,
        TokenAccount { mint: escrow.nft_mint, owner: ctx.user, amount: 1 },
    );
    Ok((escrow.nft_mint, metadata_address))
}

/// The issuance of a receipt on given locations: `escrow_at` is where the
/// escrow record lies, `metadata_at` where the claim metadata goes.
pub fn get_nft_at(ledger: &mut Ledger, ctx: &GetNFT, escrow_at: Location, metadata_at: Location) -> (r: Result<
    (Address, Address),
    CustomError,
>)
    ensures
        final(ledger)@.wf(),
        (r, final(ledger)@) == get_nft_model(old(ledger)@, *ctx, escrow_at, metadata_at),
{
    let mut stores = ledger.checkout();
    let r = get_nft_in(&mut stores, ctx, escrow_at, metadata_at);
    ledger.commit(stores);
    r
}

/// Issues the receipt for the escrow record of `ctx.user` numbered
/// `ctx.escrow_index`: one unit of the record's receipt type comes into
/// existence in a new balance account of the depositor, the claim metadata
/// is written at the location derived from the receipt type, and the record
/// is marked. Returns the receipt type and the metadata's location. Where
/// the record is marked already, the call is refused with
/// `ReceiptAlreadyIssued` and nothing is changed.
pub fn get_nft(ledger: &mut Ledger, ctx: &GetNFT) -> (r: Result<(Address, Address), CustomError>)
    ensures
        final(ledger)@.wf(),
        (r, final(ledger)@) == get_nft_spec(old(ledger)@, *ctx),
{
    let program = ledger.program();
    let escrow_at = escrow_address(&program, &ctx.user, ctx.escrow_index);
    let escrow = match escrow_at {
        Some(location) => match ledger.escrow(&location.0) {
            Some(escrow) => escrow,
            None => {
                return Err(CustomError::RecordNotFound);
            },
        },
        None => {
            return Err(CustomError::RecordNotFound);
        },
    };
    let metadata_at = metadata_address(&program, &escrow.nft_mint);
    get_nft_at(ledger, ctx, escrow_at, metadata_at)
}

/// The body of `retrieve_at`, on the stores of a ledger.
fn retrieve_in(stores: &mut Stores, ctx: &Retrieve, metadata_at: Location, escrow_at: Location) -> (r: Result<
    (u64, Address),
    CustomError,
>)
    requires
        old(stores)@.wf(),
    ensures
        final(stores)@.wf(),
        (r, final(stores)@) == retrieve_model(old(stores)@, *ctx, metadata_at, escrow_at),
{
    let metadata_address = match metadata_at {
        Some(location) => location.0,
        None => {
            return Err(CustomError::RecordNotFound);
        },
    };
    let metadata = match stores.metadata(&metadata_address) {
        Some(metadata) => metadata,
        None => {
            return Err(CustomError::RecordNotFound);
        },
    };
    if !(metadata.nft_mint == ctx.nft_mint) {
        return Err(CustomError::RecordNotFound);
    }
    let escrow = match stores.escrow(&ctx.escrow) {
        Some(escrow) => escrow,
        None => {
            return Err(CustomError::RecordNotFound);
        },
    };
    match escrow_at {
        Some(location) => {
            if !(location.0 == ctx.escrow) {
                return Err(CustomError::RecordNotFound);
            }
        },
        None => {
            return Err(CustomError::RecordNotFound);
        },
    }
    if !(escrow.nft_mint == ctx.nft_mint) {
        return Err(CustomError::UnauthorizedSigner);
    }
    let holding = match stores.token_account(&ctx.user_nft_ata) {
        Some(account) => account,
        None => {
            return Err(CustomError::UnauthorizedSigner);
        },
    };
    if !holding.is_receipt_of(&ctx.nft_mint, &ctx.user) {
        return Err(CustomError::UnauthorizedSigner);
    }
    let burnt = TokenAccount { mint: holding.mint, owner: holding.owner, amount: 0 };
    proof {
        lemma_retrieve_keeps_wf(stores@, *ctx, metadata_at, escrow_at);
        assert(stores@.escrow_wf(ctx.escrow));
    }
    match escrow.asset {
        AssetKind::NativeCoin => {
            let balance = stores.wallet(&ctx.user);
            if balance > u64::MAX - escrow.token_amount {
                return Err(CustomError::Overflow);
            }
            stores.put_token_account(ctx.user_nft_ata, burnt);
            stores.put_mint(ctx.nft_mint, Mint { issuer: ctx.escrow, supply: 0 });
            stores.put_wallet(ctx.user, balance + escrow.token_amount);
            stores.take_metadata(&metadata_address);
            stores.take_escrow(&ctx.escrow);
            Ok((escrow.token_amount, ctx.user))
        },
        AssetKind::FungibleToken { token_mint, escrow_token_ata } => {
            let target = if ctx.user_token_ata == ctx.user_nft_ata {
                burnt
            } else {
                match stores.token_account(&ctx.user_token_ata) {
                    Some(account) => account,
                    None => {
                        return Err(CustomError::TypeMismatch);
                    },
                }
            };
            match target.check_destination(&token_mint, &ctx.user) {
                Ok(()) => {},
                Err(refusal) => {
                    return Err(refusal);
                },
            }
            if target.amount > u64::MAX - escrow.token_amount {
                return Err(CustomError::Overflow);
            }
            stores.put_token_account(ctx.user_nft_ata, burnt);
            stores.put_mint(ctx.nft_mint, Mint { issuer: ctx.escrow, supply: 0 });
            stores.put_token_account(
                ctx.user_token_ata,
                TokenAccount { mint: target.mint, owner: target.owner, amount: target.amount + escrow.token_amount },
            );
            stores.take_custody(&escrow_token_ata);
            stores.take_metadata(&metadata_address);
            stores.take_escrow(&ctx.escrow);
            Ok((escrow.token_amount, ctx.user_token_ata))
        },
    }
}

/// A retrieval on given locations: `metadata_at` is where the claim metadata
/// lies, `escrow_at` the location derived for the escrow record, which must
/// be the one that `ctx.escrow` names.
pub fn retrieve_at(ledger: &mut Ledger, ctx: &Retrieve, metadata_at: Location, escrow_at: Location) -> (r: Result<
    (u64, Address),
    CustomError,
>)
    ensures
        final(ledger)@.wf(),
        (r, final(ledger)@) == retrieve_model(old(ledger)@, *ctx, metadata_at, escrow_at),
{
    let mut stores = ledger.checkout();
    let r = retrieve_in(&mut stores, ctx, metadata_at, escrow_at);
    ledger.commit(stores);
    r
}

/// Retrieves the asset of the escrow record at `ctx.escrow` for the bearer
/// of its receipt. The receipt held in `ctx.user_nft_ata` is destroyed; the
/// escrowed amount goes to the bearer's wallet, or for a token to
/// `ctx.user_token_ata`; the custody slot, the claim metadata and the escrow
/// record are removed. Returns the amount released and where it went. The
/// depositor is read from the record, and the record must lie at the
/// location derived from that depositor and the index in the metadata.
pub fn retrieve(ledger: &mut Ledger, ctx: &Retrieve) -> (r: Result<(u64, Address), CustomError>)
    ensures
        final(ledger)@.wf(),
        (r, final(ledger)@) == retrieve_spec(old(ledger)@, *ctx),
{
    let program = ledger.program();
    let metadata_at = metadata_address(&program, &ctx.nft_mint);
    let metadata = match metadata_at {
        Some(location) => match ledger.metadata(&location.0) {
            Some(metadata) => metadata,
            None => {
                return Err(CustomError::RecordNotFound);
            },
        },
        None => {
            return Err(CustomError::RecordNotFound);
        },
    };
    let escrow = match ledger.escrow(&ctx.escrow) {
        Some(escrow) => escrow,
        None => {
            return Err(CustomError::RecordNotFound);
        },
    };
    let escrow_at = escrow_address(&program, &escrow.authority, metadata.escrow_number);
    retrieve_at(ledger, ctx, metadata_at, escrow_at)
}

} // verus!
