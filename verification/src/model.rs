use vstd::prelude::*;
use crate::address::Address;
use crate::context::{GetNFT, InitCounter, InitializeSolEscrow, InitializeTokenEscrow, Location, Retrieve};
use crate::locate::{counter_location, escrow_location, metadata_location};
use crate::records::{AssetKind, CustodySlot, CustomError, Escrow, Mint, TokenAccount, TokenMetadata, UserEscrowCounter};
use crate::state::LedgerState;

verus! {

/// The address of a location that is known to exist.
pub open spec fn address_of(at: Location) -> Address {
    at.unwrap().0
}

/// The bump seed of a location that is known to exist.
pub open spec fn bump_of(at: Location) -> u8 {
    at.unwrap().1
}

/// Whether `at` is a location at which `m` keeps a record.
pub open spec fn present<V>(m: Map<Address, V>, at: Location) -> bool {
    at is Some && m.contains_key(address_of(at))
}

// ---------------------------------------------------------------- counters

/// Why a counter cannot be opened at `at`, if it cannot.
pub open spec fn init_counter_refusal(s: LedgerState, at: Location) -> Option<CustomError> {
    if at is None {
        Some(CustomError::RecordNotFound)
    } else if s.counters.contains_key(address_of(at)) {
        Some(CustomError::AlreadyInitialized)
    } else {
        None
    }
}

/// The ledger after a counter for `ctx.user` was opened at `at`.
pub open spec fn init_counter_effect(s: LedgerState, ctx: InitCounter, at: Location) -> LedgerState {
    LedgerState {
        counters: s.counters.insert(address_of(at), UserEscrowCounter::fresh(ctx.user, bump_of(at))),
        ..s
    }
}

/// Opening a sequence counter at the location `at`: the location of the new
/// counter and the ledger afterwards, or the refusal and the ledger as it was.
pub open spec fn init_counter_model(s: LedgerState, ctx: InitCounter, at: Location) -> (
    Result<Address, CustomError>,
    LedgerState,
) {
    match init_counter_refusal(s, at) {
        Some(e) => (Err(e), s),
        None => (Ok(address_of(at)), init_counter_effect(s, ctx, at)),
    }
}

/// Opening the sequence counter of `ctx.user` at its derived location.
pub open spec fn init_counter_spec(s: LedgerState, ctx: InitCounter) -> (Result<Address, CustomError>, LedgerState) {
    init_counter_model(s, ctx, counter_location(s.program, ctx.user))
}

// ---------------------------------------------------------------- deposits

/// Why a token deposit is refused, if it is. `counter_at` is the location of
/// the depositor's counter, `escrow_at` that of the record to create.
pub open spec fn token_escrow_refusal(
    s: LedgerState,
    ctx: InitializeTokenEscrow,
    token_amount: u64,
    counter_at: Location,
    escrow_at: Location,
) -> Option<CustomError> {
    if !present(s.counters, counter_at) {
        Some(CustomError::RecordNotFound)
    } else if !s.mints.contains_key(ctx.token_mint) {
        Some(CustomError::InvalidSourceAccount)
    } else if !s.token_accounts.contains_key(ctx.user_token_ata) {
        Some(CustomError::InvalidSourceAccount)
    } else if !s.token_accounts[ctx.user_token_ata].source_for(ctx.token_mint, ctx.user) {
        Some(CustomError::InvalidSourceAccount)
    } else if s.mints.contains_key(ctx.nft_mint) {
        Some(CustomError::AlreadyInitialized)
    } else if escrow_at is None {
        Some(CustomError::RecordNotFound)
    } else if s.escrows.contains_key(address_of(escrow_at)) {
        Some(CustomError::AlreadyInitialized)
    } else if s.custody.contains_key(ctx.escrow_token_ata) {
        Some(CustomError::AlreadyInitialized)
    } else if s.counters[address_of(counter_at)].counter == u64::MAX {
        Some(CustomError::Overflow)
    } else if s.token_accounts[ctx.user_token_ata].amount < token_amount {
        Some(CustomError::InsufficientFunds)
    } else {
        None
    }
}

/// The ledger after a token deposit that is not refused.
pub open spec fn token_escrow_effect(
    s: LedgerState,
    ctx: InitializeTokenEscrow,
    token_amount: u64,
    counter_at: Location,
    escrow_at: Location,
) -> LedgerState {
    let source = s.token_accounts[ctx.user_token_ata];
    LedgerState {
        counters: s.counters.insert(address_of(counter_at), s.counters[address_of(counter_at)].advanced()),
        escrows: s.escrows.insert(
            address_of(escrow_at),
            Escrow::token(
                ctx.user,
                bump_of(escrow_at),
                ctx.token_mint,
                ctx.escrow_token_ata,
                token_amount,
                ctx.nft_mint,
            ),
        ),
        custody: s.custody.insert(
            ctx.escrow_token_ata,
            CustodySlot { owner: address_of(escrow_at), mint: ctx.token_mint, amount: token_amount },
        ),
        mints: s.mints.insert(ctx.nft_mint, Mint { issuer: address_of(escrow_at), supply: 0 }),
        token_accounts: s.token_accounts.insert(
            ctx.user_token_ata,
            source.with_amount((source.amount - token_amount) as u64),
        ),
        ..s
    }
}

/// A token deposit on given locations: the location and the sequence index
/// of the new escrow record and the ledger afterwards, or the refusal and
/// the ledger as it was.
pub open spec fn token_escrow_model(
    s: LedgerState,
    ctx: InitializeTokenEscrow,
    token_amount: u64,
    counter_at: Location,
    escrow_at: Location,
) -> (Result<(Address, u64), CustomError>, LedgerState) {
    match token_escrow_refusal(s, ctx, token_amount, counter_at, escrow_at) {
        Some(e) => (Err(e), s),
        None => (
            Ok((address_of(escrow_at), s.counters[address_of(counter_at)].counter)),
            token_escrow_effect(s, ctx, token_amount, counter_at, escrow_at),
        ),
    }
}

/// A token deposit: the counter is the depositor's, and the record goes to
/// the location derived from the depositor and the counter's next index.
pub open spec fn initialize_token_escrow_spec(s: LedgerState, ctx: InitializeTokenEscrow, token_amount: u64) -> (
    Result<(Address, u64), CustomError>,
    LedgerState,
) {
    let counter_at = counter_location(s.program, ctx.user);
    if present(s.counters, counter_at) {
        token_escrow_model(
            s,
            ctx,
            token_amount,
            counter_at,
            escrow_location(s.program, ctx.user, s.counters[address_of(counter_at)].counter),
        )
    } else {
        (Err(CustomError::RecordNotFound), s)
    }
}

/// Why a native-coin deposit is refused, if it is.
pub open spec fn sol_escrow_refusal(
    s: LedgerState,
    ctx: InitializeSolEscrow,
    token_amount: u64,
    counter_at: Location,
    escrow_at: Location,
) -> Option<CustomError> {
    if !present(s.counters, counter_at) {
        Some(CustomError::RecordNotFound)
    } else if s.mints.contains_key(ctx.nft_mint) {
        Some(CustomError::AlreadyInitialized)
    } else if escrow_at is None {
        Some(CustomError::RecordNotFound)
    } else if s.escrows.contains_key(address_of(escrow_at)) {
        Some(CustomError::AlreadyInitialized)
    } else if s.counters[address_of(counter_at)].counter == u64::MAX {
        Some(CustomError::Overflow)
    } else if s.wallet(ctx.user) < token_amount {
        Some(CustomError::InsufficientFunds)
    } else {
        None
    }
}

/// The ledger after a native-coin deposit that is not refused.
pub open spec fn sol_escrow_effect(
    s: LedgerState,
    ctx: InitializeSolEscrow,
    token_amount: u64,
    counter_at: Location,
    escrow_at: Location,
) -> LedgerState {
    LedgerState {
        counters: s.counters.insert(address_of(counter_at), s.counters[address_of(counter_at)].advanced()),
        escrows: s.escrows.insert(
            address_of(escrow_at),
            Escrow::sol(ctx.user, bump_of(escrow_at), token_amount, ctx.nft_mint),
        ),
        mints: s.mints.insert(ctx.nft_mint, Mint { issuer: address_of(escrow_at), supply: 0 }),
        wallets: s.wallets.insert(ctx.user, (s.wallet(ctx.user) - token_amount) as u64),
        ..s
    }
}

/// A native-coin deposit on given locations.
pub open spec fn sol_escrow_model(
    s: LedgerState,
    ctx: InitializeSolEscrow,
    token_amount: u64,
    counter_at: Location,
    escrow_at: Location,
) -> (Result<(Address, u64), CustomError>, LedgerState) {
    match sol_escrow_refusal(s, ctx, token_amount, counter_at, escrow_at) {
        Some(e) => (Err(e), s),
        None => (
            Ok((address_of(escrow_at), s.counters[address_of(counter_at)].counter)),
            sol_escrow_effect(s, ctx, token_amount, counter_at, escrow_at),
        ),
    }
}

/// A native-coin deposit at the derived locations.
pub open spec fn initialize_sol_escrow_spec(s: LedgerState, ctx: InitializeSolEscrow, token_amount: u64) -> (
    Result<(Address, u64), CustomError>,
    LedgerState,
) {
    let counter_at = counter_location(s.program, ctx.user);
    if present(s.counters, counter_at) {
        sol_escrow_model(
            s,
            ctx,
            token_amount,
            counter_at,
            escrow_location(s.program, ctx.user, s.counters[address_of(counter_at)].counter),
        )
    } else {
        (Err(CustomError::RecordNotFound), s)
    }
}

// ---------------------------------------------------------------- issuance

/// Why the issuance of a receipt is refused, if it is. `escrow_at` is the
/// location of the escrow record, `metadata_at` that of the claim metadata
/// to create.
pub open spec fn get_nft_refusal(s: LedgerState, ctx: GetNFT, escrow_at: Location, metadata_at: Location) -> Option<
    CustomError,
> {
    if !present(s.escrows, escrow_at) {
        Some(CustomError::RecordNotFound)
    } else if s.escrows[address_of(escrow_at)].authority != ctx.user {
        Some(CustomError::UnauthorizedSigner)
    } else if s.escrows[address_of(escrow_at)].nft_acquired {
        Some(CustomError::ReceiptAlreadyIssued)
    } else if metadata_at is None {
        Some(CustomError::RecordNotFound)
    } else if s.metadata.contains_key(address_of(metadata_at)) {
        Some(CustomError::AlreadyInitialized)
    } else if s.token_accounts.contains_key(ctx.user_nft_ata) {
        Some(CustomError::AlreadyInitialized)
    } else {
        None
    }
}

/// The ledger after an issuance that is not refused: one unit of the receipt
/// type exists, in a new balance account of the depositor; the claim
/// metadata is written; the escrow record is marked.
pub open spec fn get_nft_effect(s: LedgerState, ctx: GetNFT, escrow_at: Location, metadata_at: Location) -> LedgerState {
    let e = s.escrows[address_of(escrow_at)];
    LedgerState {
        escrows: s.escrows.insert(address_of(escrow_at), e.issued()),
        metadata: s.metadata.insert(
            address_of(metadata_at),
            TokenMetadata::of(e, ctx.escrow_index, bump_of(metadata_at)),
        ),
        mints: s.mints.insert(e.nft_mint, Mint { issuer: address_of(escrow_at), supply: 1 }),
        token_accounts: s.token_accounts.insert(
            ctx.user_nft_ata,
            TokenAccount { mint: e.nft_mint, owner: ctx.user, amount: 1 },
        ),
        ..s
    }
}

/// The issuance of a receipt on given locations: the receipt token type and
/// the location of the claim metadata, and the ledger afterwards.
pub open spec fn get_nft_model(s: LedgerState, ctx: GetNFT, escrow_at: Location, metadata_at: Location) -> (
    Result<(Address, Address), CustomError>,
    LedgerState,
) {
    match get_nft_refusal(s, ctx, escrow_at, metadata_at) {
        Some(e) => (Err(e), s),
        None => (
            Ok((s.escrows[address_of(escrow_at)].nft_mint, address_of(metadata_at))),
            get_nft_effect(s, ctx, escrow_at, metadata_at),
        ),
    }
}

/// The issuance of a receipt for the escrow record derived from the
/// depositor and the index; the metadata goes to the location derived from
/// the record's receipt type.
pub open spec fn get_nft_spec(s: LedgerState, ctx: GetNFT) -> (Result<(Address, Address), CustomError>, LedgerState) {
    let escrow_at = escrow_location(s.program, ctx.user, ctx.escrow_index);
    if present(s.escrows, escrow_at) {
        get_nft_model(
            s,
            ctx,
            escrow_at,
            metadata_location(s.program, s.escrows[address_of(escrow_at)].nft_mint),
        )
    } else {
        (Err(CustomError::RecordNotFound), s)
    }
}

// --------------------------------------------------------------- retrieval

/// Whether `ctx.user` holds the receipt: the balance account named exists,
/// is of the receipt type, is owned by the bearer and holds exactly one unit.
pub open spec fn holds_receipt(s: LedgerState, ctx: Retrieve) -> bool {
    &&& s.token_accounts.contains_key(ctx.user_nft_ata)
    &&& s.token_accounts[ctx.user_nft_ata].receipt_of(ctx.nft_mint, ctx.user)
}

/// The balance accounts once the receipt held in `ctx.user_nft_ata` is
/// destroyed.
pub open spec fn accounts_after_burn(s: LedgerState, ctx: Retrieve) -> Map<Address, TokenAccount> {
    s.token_accounts.insert(ctx.user_nft_ata, s.token_accounts[ctx.user_nft_ata].with_amount(0))
}

/// Why the records that a retrieval refers to do not fit together, if they
/// do not. `metadata_at` is the location of the claim metadata, `escrow_at`
/// the location derived for the escrow record.
pub open spec fn retrieve_record_refusal(s: LedgerState, ctx: Retrieve, metadata_at: Location, escrow_at: Location) -> Option<
    CustomError,
> {
    if !present(s.metadata, metadata_at) {
        Some(CustomError::RecordNotFound)
    } else if s.metadata[address_of(metadata_at)].nft_mint != ctx.nft_mint {
        Some(CustomError::RecordNotFound)
    } else if !s.escrows.contains_key(ctx.escrow) {
        Some(CustomError::RecordNotFound)
    } else if escrow_at is None || address_of(escrow_at) != ctx.escrow {
        Some(CustomError::RecordNotFound)
    } else if s.escrows[ctx.escrow].nft_mint != ctx.nft_mint {
        Some(CustomError::UnauthorizedSigner)
    } else {
        None
    }
}

/// Why the asset cannot be released to the bearer, if it cannot.
pub open spec fn retrieve_release_refusal(s: LedgerState, ctx: Retrieve) -> Option<CustomError> {
    let e = s.escrows[ctx.escrow];
    match e.asset {
        AssetKind::NativeCoin => if s.wallet(ctx.user) + e.token_amount > u64::MAX {
            Some(CustomError::Overflow)
        } else {
            None
        },
        AssetKind::FungibleToken { token_mint, escrow_token_ata } => {
            let accounts = accounts_after_burn(s, ctx);
            if !accounts.contains_key(ctx.user_token_ata) {
                Some(CustomError::TypeMismatch)
            } else if accounts[ctx.user_token_ata].destination_refusal(token_mint, ctx.user) is Some {
                accounts[ctx.user_token_ata].destination_refusal(token_mint, ctx.user)
            } else if accounts[ctx.user_token_ata].amount + e.token_amount > u64::MAX {
                Some(CustomError::Overflow)
            } else {
                None
            }
        },
    }
}

/// Why a retrieval is refused, if it is.
pub open spec fn retrieve_refusal(s: LedgerState, ctx: Retrieve, metadata_at: Location, escrow_at: Location) -> Option<
    CustomError,
> {
    if retrieve_record_refusal(s, ctx, metadata_at, escrow_at) is Some {
        retrieve_record_refusal(s, ctx, metadata_at, escrow_at)
    } else if !holds_receipt(s, ctx) {
        Some(CustomError::UnauthorizedSigner)
    } else {
        retrieve_release_refusal(s, ctx)
    }
}

/// The balance account or the wallet that a retrieval releases to.
pub open spec fn retrieve_destination(s: LedgerState, ctx: Retrieve) -> Address {
    match s.escrows[ctx.escrow].asset {
        AssetKind::NativeCoin => ctx.user,
        AssetKind::FungibleToken { token_mint, escrow_token_ata } => ctx.user_token_ata,
    }
}

/// The ledger after a retrieval that is not refused: the receipt is
/// destroyed, the asset is with the bearer, and the custody slot, the claim
/// metadata and the escrow record are gone.
pub open spec fn retrieve_effect(s: LedgerState, ctx: Retrieve, metadata_at: Location) -> LedgerState {
    let e = s.escrows[ctx.escrow];
    let burnt = accounts_after_burn(s, ctx);
    let mints = s.mints.insert(ctx.nft_mint, Mint { issuer: ctx.escrow, supply: 0 });
    let escrows = s.escrows.remove(ctx.escrow);
    let metadata = s.metadata.remove(address_of(metadata_at));
    match e.asset {
        AssetKind::NativeCoin => LedgerState {
            escrows,
            metadata,
            mints,
            token_accounts: burnt,
            wallets: s.wallets.insert(ctx.user, (s.wallet(ctx.user) + e.token_amount) as u64),
            ..s
        },
        AssetKind::FungibleToken { token_mint, escrow_token_ata } => LedgerState {
            escrows,
            metadata,
            mints,
            custody: s.custody.remove(escrow_token_ata),
            token_accounts: burnt.insert(
                ctx.user_token_ata,
                burnt[ctx.user_token_ata].with_amount((burnt[ctx.user_token_ata].amount + e.token_amount) as u64),
            ),
            ..s
        },
    }
}

/// A retrieval on given locations: the amount released and where it went,
/// and the ledger afterwards; or the refusal and the ledger as it was.
pub open spec fn retrieve_model(s: LedgerState, ctx: Retrieve, metadata_at: Location, escrow_at: Location) -> (
    Result<(u64, Address), CustomError>,
    LedgerState,
) {
    match retrieve_refusal(s, ctx, metadata_at, escrow_at) {
        Some(e) => (Err(e), s),
        None => (
            Ok((s.escrows[ctx.escrow].token_amount, retrieve_destination(s, ctx))),
            retrieve_effect(s, ctx, metadata_at),
        ),
    }
}

/// A retrieval: the claim metadata is looked up at the location derived from
/// the receipt type, and the escrow record named must lie at the location
/// derived from its own depositor and the index that the metadata holds.
pub open spec fn retrieve_spec(s: LedgerState, ctx: Retrieve) -> (Result<(u64, Address), CustomError>, LedgerState) {
    let metadata_at = metadata_location(s.program, ctx.nft_mint);
    if present(s.metadata, metadata_at) && s.escrows.contains_key(ctx.escrow) {
        retrieve_model(
            s,
            ctx,
            metadata_at,
            escrow_location(
                s.program,
                s.escrows[ctx.escrow].authority,
                s.metadata[address_of(metadata_at)].escrow_number,
            ),
        )
    } else {
        (Err(CustomError::RecordNotFound), s)
    }
}

// ------------------------------------------------------------------- host

/// Native coin arriving in a party's wallet.
pub open spec fn fund_model(s: LedgerState, who: Address, lamports: u64) -> (Result<(), CustomError>, LedgerState) {
    if s.wallet(who) + lamports > u64::MAX {
        (Err(CustomError::Overflow), s)
    } else {
        (Ok(()), LedgerState { wallets: s.wallets.insert(who, (s.wallet(who) + lamports) as u64), ..s })
    }
}

/// A new token type whose whole supply starts in a new balance account of
/// `owner`.
pub open spec fn create_token_model(s: LedgerState, mint: Address, account: Address, owner: Address, supply: u64) -> (
    Result<(), CustomError>,
    LedgerState,
) {
    if s.mints.contains_key(mint) || s.token_accounts.contains_key(account) {
        (Err(CustomError::AlreadyInitialized), s)
    } else {
        (
            Ok(()),
            LedgerState {
                mints: s.mints.insert(mint, Mint { issuer: owner, supply }),
                token_accounts: s.token_accounts.insert(account, TokenAccount { mint, owner, amount: supply }),
                ..s
            },
        )
    }
}

/// A new, empty balance account of an existing token type.
pub open spec fn open_token_account_model(s: LedgerState, account: Address, mint: Address, owner: Address) -> (
    Result<(), CustomError>,
    LedgerState,
) {
    if !s.mints.contains_key(mint) {
        (Err(CustomError::RecordNotFound), s)
    } else if s.token_accounts.contains_key(account) {
        (Err(CustomError::AlreadyInitialized), s)
    } else {
        (
            Ok(()),
            LedgerState {
                token_accounts: s.token_accounts.insert(account, TokenAccount { mint, owner, amount: 0 }),
                ..s
            },
        )
    }
}

/// Why a transfer between balance accounts is refused, if it is.
pub open spec fn transfer_refusal(s: LedgerState, from: Address, to: Address, authority: Address, amount: u64) -> Option<
    CustomError,
> {
    if !s.token_accounts.contains_key(from) || !s.token_accounts.contains_key(to) {
        Some(CustomError::RecordNotFound)
    } else if s.token_accounts[from].owner != authority {
        Some(CustomError::UnauthorizedSigner)
    } else if s.token_accounts[from].mint != s.token_accounts[to].mint {
        Some(CustomError::TypeMismatch)
    } else if s.token_accounts[from].amount < amount {
        Some(CustomError::InsufficientFunds)
    } else if from != to && s.token_accounts[to].amount + amount > u64::MAX {
        Some(CustomError::Overflow)
    } else {
        None
    }
}

/// A transfer of `amount` units between two balance accounts of one token
/// type, signed by the owner of the first. Between an account and itself it
/// changes nothing.
pub open spec fn transfer_model(s: LedgerState, from: Address, to: Address, authority: Address, amount: u64) -> (
    Result<(), CustomError>,
    LedgerState,
) {
    match transfer_refusal(s, from, to, authority, amount) {
        Some(e) => (Err(e), s),
        None => if from == to {
            (Ok(()), s)
        } else {
            let source = s.token_accounts[from];
            let target = s.token_accounts[to];
            (
                Ok(()),
                LedgerState {
                    token_accounts: s.token_accounts.insert(
                        from,
                        source.with_amount((source.amount - amount) as u64),
                    ).insert(to, target.with_amount((target.amount + amount) as u64)),
                    ..s
                },
            )
        },
    }
}

// ------------------------------------------------------------------ runs

/// One operation on the ledger, with everything it is applied to. The
/// operations of the engine carry the locations they work on.
#[allow(inconsistent_fields)]
pub enum Operation {
    InitCounter { ctx: InitCounter, at: Location },
    InitializeTokenEscrow { ctx: InitializeTokenEscrow, token_amount: u64, counter_at: Location, escrow_at: Location },
    InitializeSolEscrow { ctx: InitializeSolEscrow, token_amount: u64, counter_at: Location, escrow_at: Location },
    GetNFT { ctx: GetNFT, escrow_at: Location, metadata_at: Location },
    Retrieve { ctx: Retrieve, metadata_at: Location, escrow_at: Location },
    Fund { who: Address, lamports: u64 },
    CreateToken { mint: Address, account: Address, owner: Address, supply: u64 },
    OpenTokenAccount { account: Address, mint: Address, owner: Address },
    Transfer { from: Address, to: Address, authority: Address, amount: u64 },
}

/// The ledger after one operation, refused or not.
pub open spec fn step(s: LedgerState, op: Operation) -> LedgerState {
    match op {
        Operation::InitCounter { ctx, at } => init_counter_model(s, ctx, at).1,
        Operation::InitializeTokenEscrow { ctx, token_amount, counter_at, escrow_at } => token_escrow_model(
            s,
            ctx,
            token_amount,
            counter_at,
            escrow_at,
        ).1,
        Operation::InitializeSolEscrow { ctx, token_amount, counter_at, escrow_at } => sol_escrow_model(
            s,
            ctx,
            token_amount,
            counter_at,
            escrow_at,
        ).1,
        Operation::GetNFT { ctx, escrow_at, metadata_at } => get_nft_model(s, ctx, escrow_at, metadata_at).1,
        Operation::Retrieve { ctx, metadata_at, escrow_at } => retrieve_model(s, ctx, metadata_at, escrow_at).1,
        Operation::Fund { who, lamports } => fund_model(s, who, lamports).1,
        Operation::CreateToken { mint, account, owner, supply } => create_token_model(
            s,
            mint,
            account,
            owner,
            supply,
        ).1,
        Operation::OpenTokenAccount { account, mint, owner } => open_token_account_model(s, account, mint, owner).1,
        Operation::Transfer { from, to, authority, amount } => transfer_model(s, from, to, authority, amount).1,
    }
}

/// The ledger after a run of operations, one after the other.
pub open spec fn run(s: LedgerState, ops: Seq<Operation>) -> LedgerState
    decreases ops.len(),
{
    if ops.len() == 0 {
        s
    } else {
        step(run(s, ops.drop_last()), ops.last())
    }
}

} // verus!
