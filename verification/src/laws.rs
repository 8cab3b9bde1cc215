use vstd::prelude::*;
use crate::address::Address;
use crate::context::{GetNFT, InitCounter, InitializeSolEscrow, InitializeTokenEscrow, Location, Retrieve};
use crate::locate::{counter_location, escrow_location, metadata_location};
use crate::model::{
    address_of, get_nft_model, get_nft_spec, holds_receipt, init_counter_model, init_counter_spec,
    initialize_sol_escrow_spec, initialize_token_escrow_spec, retrieve_model, retrieve_record_refusal, retrieve_spec,
    sol_escrow_model, step, token_escrow_model, Operation,
};
use crate::placement::derived;
use crate::records::{AssetKind, CustomError};
use crate::state::LedgerState;

verus! {

/// Opening a counter twice: a second call right after the first changes
/// nothing, and wherever a location can be derived for the depositor's
/// counter it is refused with `AlreadyInitialized`. (Where none can be
/// derived, both calls are refused with `RecordNotFound`.)
pub proof fn lemma_init_counter_twice(s: LedgerState, ctx: InitCounter, at: Location)
    ensures
        init_counter_model(init_counter_model(s, ctx, at).1, ctx, at).1 == init_counter_model(s, ctx, at).1,
        at is Some ==> init_counter_model(init_counter_model(s, ctx, at).1, ctx, at).0 == Err::<
            Address,
            CustomError,
        >(CustomError::AlreadyInitialized),
        init_counter_spec(init_counter_spec(s, ctx).1, ctx).1 == init_counter_spec(s, ctx).1,
        counter_location(s.program, ctx.user) is Some ==> init_counter_spec(init_counter_spec(s, ctx).1, ctx).0
            == Err::<Address, CustomError>(CustomError::AlreadyInitialized),
        init_counter_spec(s, ctx).0 is Ok ==> init_counter_spec(init_counter_spec(s, ctx).1, ctx).0 == Err::<
            Address,
            CustomError,
        >(CustomError::AlreadyInitialized),
{
}

/// A refused operation changes nothing, whatever the operation and the
/// reason.
pub proof fn lemma_refusal_changes_nothing(
    s: LedgerState,
    open: InitCounter,
    token: InitializeTokenEscrow,
    sol: InitializeSolEscrow,
    token_amount: u64,
    issue: GetNFT,
    claim: Retrieve,
)
    ensures
        init_counter_spec(s, open).0 is Err ==> init_counter_spec(s, open).1 == s,
        initialize_token_escrow_spec(s, token, token_amount).0 is Err ==> initialize_token_escrow_spec(
            s,
            token,
            token_amount,
        ).1 == s,
        initialize_sol_escrow_spec(s, sol, token_amount).0 is Err ==> initialize_sol_escrow_spec(
            s,
            sol,
            token_amount,
        ).1 == s,
        get_nft_spec(s, issue).0 is Err ==> get_nft_spec(s, issue).1 == s,
        retrieve_spec(s, claim).0 is Err ==> retrieve_spec(s, claim).1 == s,
{
}

/// A token deposit creates and destroys no value: right after it, what the
/// new custody slot and the new escrow record hold together is what left
/// the depositor's balance account, and that is the amount deposited. The
/// record carries the index that the counter held, and the counter moved on
/// by one.
pub proof fn lemma_token_deposit_conserves(
    s: LedgerState,
    ctx: InitializeTokenEscrow,
    token_amount: u64,
    counter_at: Location,
    escrow_at: Location,
)
    requires
        s.wf(),
    ensures
        ({
            let (r, t) = token_escrow_model(s, ctx, token_amount, counter_at, escrow_at);
            r matches Ok(created) ==> {
                &&& t.custody_balance(ctx.escrow_token_ata) + t.escrow_balance(created.0) == s.token_balance(
                    ctx.user_token_ata,
                ) - t.token_balance(ctx.user_token_ata)
                &&& t.custody_balance(ctx.escrow_token_ata) == token_amount
                &&& t.escrow_balance(created.0) == 0
                &&& t.wallets == s.wallets
                &&& created.1 == s.counters[address_of(counter_at)].counter
                &&& t.counters[address_of(counter_at)].previous_counter == created.1
                &&& t.counters[address_of(counter_at)].counter == created.1 + 1
            }
        }),
        ({
            let (r, t) = initialize_token_escrow_spec(s, ctx, token_amount);
            r matches Ok(created) ==> {
                &&& t.custody_balance(ctx.escrow_token_ata) + t.escrow_balance(created.0) == s.token_balance(
                    ctx.user_token_ata,
                ) - t.token_balance(ctx.user_token_ata)
                &&& t.custody_balance(ctx.escrow_token_ata) == token_amount
            }
        }),
{
}

/// A native-coin deposit creates and destroys no value: right after it, the
/// new escrow record holds what left the depositor's wallet, which is the
/// amount deposited, and no custody slot is involved.
pub proof fn lemma_sol_deposit_conserves(
    s: LedgerState,
    ctx: InitializeSolEscrow,
    token_amount: u64,
    counter_at: Location,
    escrow_at: Location,
)
    requires
        s.wf(),
    ensures
        ({
            let (r, t) = sol_escrow_model(s, ctx, token_amount, counter_at, escrow_at);
            r matches Ok(created) ==> {
                &&& t.escrow_balance(created.0) == s.wallet(ctx.user) - t.wallet(ctx.user)
                &&& t.escrow_balance(created.0) == token_amount
                &&& t.custody == s.custody
                &&& t.token_accounts == s.token_accounts
                &&& created.1 == s.counters[address_of(counter_at)].counter
                &&& t.counters[address_of(counter_at)].previous_counter == created.1
                &&& t.counters[address_of(counter_at)].counter == created.1 + 1
            }
        }),
        ({
            let (r, t) = initialize_sol_escrow_spec(s, ctx, token_amount);
            r matches Ok(created) ==> {
                &&& t.escrow_balance(created.0) == s.wallet(ctx.user) - t.wallet(ctx.user)
                &&& t.escrow_balance(created.0) == token_amount
            }
        }),
{
}

/// A receipt is issued once: after an issuance that succeeded, one unit of
/// the receipt type exists, and the same call again is refused with
/// `ReceiptAlreadyIssued` and changes nothing, so that no second unit comes
/// into existence.
pub proof fn lemma_get_nft_once(s: LedgerState, ctx: GetNFT, escrow_at: Location, metadata_at: Location)
    requires
        s.wf(),
    ensures
        ({
            let (r, t) = get_nft_model(s, ctx, escrow_at, metadata_at);
            r matches Ok(issued) ==> {
                &&& t.supply(issued.0) == 1
                &&& t.token_accounts[ctx.user_nft_ata].amount == 1
                &&& get_nft_model(t, ctx, escrow_at, metadata_at) == (
                    Err::<(Address, Address), CustomError>(CustomError::ReceiptAlreadyIssued),
                    t,
                )
            }
        }),
        ({
            let (r, t) = get_nft_spec(s, ctx);
            r matches Ok(issued) ==> {
                &&& t.supply(issued.0) == 1
                &&& get_nft_spec(t, ctx) == (
                    Err::<(Address, Address), CustomError>(CustomError::ReceiptAlreadyIssued),
                    t,
                )
            }
        }),
{
}

/// What a retrieval that succeeded has done, in a well-formed ledger: it
/// released exactly the amount that the escrow record held; the bearer's
/// wallet, or for a token the destination balance account, grew by exactly
/// that amount; the receipt is gone from the bearer's account and no unit
/// of its type is left; the escrow record, its claim metadata and its
/// custody slot are gone.
pub proof fn lemma_retrieve_releases(s: LedgerState, ctx: Retrieve, metadata_at: Location, escrow_at: Location)
    requires
        s.wf(),
    ensures
        ({
            let (r, t) = retrieve_model(s, ctx, metadata_at, escrow_at);
            let e = s.escrows[ctx.escrow];
            r matches Ok(released) ==> {
                &&& released.0 == e.token_amount
                &&& t.token_balance(ctx.user_nft_ata) == 0
                &&& t.supply(ctx.nft_mint) == 0
                &&& !t.escrows.contains_key(ctx.escrow)
                &&& !t.metadata.contains_key(address_of(metadata_at))
                &&& match e.asset {
                    AssetKind::NativeCoin => {
                        &&& released.1 == ctx.user
                        &&& t.wallet(ctx.user) == s.wallet(ctx.user) + e.token_amount
                        &&& t.custody == s.custody
                    },
                    AssetKind::FungibleToken { token_mint, escrow_token_ata } => {
                        &&& released.1 == ctx.user_token_ata
                        &&& ctx.user_token_ata != ctx.user_nft_ata
                        &&& t.token_balance(ctx.user_token_ata) == s.token_balance(ctx.user_token_ata)
                            + e.token_amount
                        &&& s.custody_balance(escrow_token_ata) == e.token_amount
                        &&& !t.custody.contains_key(escrow_token_ata)
                        &&& t.wallets == s.wallets
                    },
                }
            }
        }),
{
}

/// The round trip of a token deposit. Let a deposit of `token_amount` have
/// created the escrow record, and let `s` be any later well-formed ledger
/// that still holds the record with that amount. Then a retrieval that
/// succeeds in `s` releases exactly `token_amount` to the bearer's balance
/// account, and afterwards the receipt exists no more.
pub proof fn lemma_round_trip_token(
    before: LedgerState,
    deposit: InitializeTokenEscrow,
    token_amount: u64,
    s: LedgerState,
    claim: Retrieve,
)
    requires
        before.wf(),
        s.wf(),
    ensures
        ({
            let (made, after) = initialize_token_escrow_spec(before, deposit, token_amount);
            let (r, t) = retrieve_spec(s, claim);
            made matches Ok(created) && created.0 == claim.escrow && s.escrows.contains_key(claim.escrow)
                && s.escrows[claim.escrow].asset == after.escrows[claim.escrow].asset && s.escrows[claim.escrow].token_amount
                == after.escrows[claim.escrow].token_amount && r is Ok ==> {
                &&& r == Ok::<(u64, Address), CustomError>((token_amount, claim.user_token_ata))
                &&& t.token_balance(claim.user_token_ata) == s.token_balance(claim.user_token_ata) + token_amount
                &&& t.token_balance(claim.user_nft_ata) == 0
                &&& t.supply(claim.nft_mint) == 0
                &&& !t.escrows.contains_key(claim.escrow)
            }
        }),
{
}

/// The round trip of a native-coin deposit: a retrieval that succeeds on
/// the record of a deposit of `token_amount` releases exactly that amount
/// to the bearer's wallet, and afterwards the receipt exists no more.
pub proof fn lemma_round_trip_sol(
    before: LedgerState,
    deposit: InitializeSolEscrow,
    token_amount: u64,
    s: LedgerState,
    claim: Retrieve,
)
    requires
        before.wf(),
        s.wf(),
    ensures
        ({
            let (made, after) = initialize_sol_escrow_spec(before, deposit, token_amount);
            let (r, t) = retrieve_spec(s, claim);
            made matches Ok(created) && created.0 == claim.escrow && s.escrows.contains_key(claim.escrow)
                && s.escrows[claim.escrow].asset == after.escrows[claim.escrow].asset && s.escrows[claim.escrow].token_amount
                == after.escrows[claim.escrow].token_amount && r is Ok ==> {
                &&& r == Ok::<(u64, Address), CustomError>((token_amount, claim.user))
                &&& t.wallet(claim.user) == s.wallet(claim.user) + token_amount
                &&& t.token_balance(claim.user_nft_ata) == 0
                &&& t.supply(claim.nft_mint) == 0
                &&& !t.escrows.contains_key(claim.escrow)
            }
        }),
{
}

/// Without the receipt there is no retrieval: where the caller does not
/// hold exactly one unit of the receipt type in the balance account named,
/// as its owner, the retrieval is refused and the escrow record, the claim
/// metadata and everything else stay as they are. Where the records that
/// the call refers to fit together, the refusal is `UnauthorizedSigner`.
pub proof fn lemma_retrieve_needs_receipt(s: LedgerState, ctx: Retrieve, metadata_at: Location, escrow_at: Location)
    ensures
        !holds_receipt(s, ctx) ==> retrieve_model(s, ctx, metadata_at, escrow_at).0 is Err,
        !holds_receipt(s, ctx) ==> retrieve_model(s, ctx, metadata_at, escrow_at).1 == s,
        !holds_receipt(s, ctx) && retrieve_record_refusal(s, ctx, metadata_at, escrow_at) is None ==> retrieve_model(
            s,
            ctx,
            metadata_at,
            escrow_at,
        ).0 == Err::<(u64, Address), CustomError>(CustomError::UnauthorizedSigner),
        !holds_receipt(s, ctx) ==> retrieve_spec(s, ctx).0 is Err,
        !holds_receipt(s, ctx) ==> retrieve_spec(s, ctx).1 == s,
{
}

/// A depositor can always take back a token deposit. Let a deposit of
/// `token_amount` succeed, then the issuance of its receipt to the
/// depositor. Then the depositor's retrieval into the balance account that
/// the deposit drew from succeeds and releases exactly `token_amount`: the
/// balance account holds again what it held before the deposit; escrow
/// records, claim metadata, custody slots and wallets are as they were
/// before the deposit; and of the receipt only its type is left, with no
/// unit in existence.
pub proof fn lemma_depositor_redeems_token(
    s: LedgerState,
    deposit: InitializeTokenEscrow,
    token_amount: u64,
    user_nft_ata: Address,
)
    requires
        s.wf(),
    ensures
        ({
            let (made, s1) = initialize_token_escrow_spec(s, deposit, token_amount);
            made matches Ok(created) ==> {
                let issue = GetNFT { user: deposit.user, escrow_index: created.1, user_nft_ata };
                let (issued, s2) = get_nft_spec(s1, issue);
                issued matches Ok(receipt) ==> {
                    let claim = Retrieve {
                        user: deposit.user,
                        nft_mint: receipt.0,
                        escrow: created.0,
                        user_nft_ata,
                        user_token_ata: deposit.user_token_ata,
                    };
                    let (r, s3) = retrieve_spec(s2, claim);
                    &&& receipt.0 == deposit.nft_mint
                    &&& r == Ok::<(u64, Address), CustomError>((token_amount, deposit.user_token_ata))
                    &&& s3.token_accounts[deposit.user_token_ata] == s.token_accounts[deposit.user_token_ata]
                    &&& s3.token_balance(user_nft_ata) == 0
                    &&& s3.supply(deposit.nft_mint) == 0
                    &&& s3.escrows == s.escrows
                    &&& s3.metadata == s.metadata
                    &&& s3.custody == s.custody
                    &&& s3.wallets == s.wallets
                }
            }
        }),
{
}

/// A depositor can always take back a native-coin deposit: after a deposit
/// of `token_amount` and the issuance of its receipt to the depositor, the
/// depositor's retrieval succeeds and releases exactly `token_amount`; the
/// depositor's wallet holds again what it held before the deposit, and
/// escrow records, claim metadata and custody slots are as they were.
pub proof fn lemma_depositor_redeems_sol(
    s: LedgerState,
    deposit: InitializeSolEscrow,
    token_amount: u64,
    user_nft_ata: Address,
    user_token_ata: Address,
)
    requires
        s.wf(),
    ensures
        ({
            let (made, s1) = initialize_sol_escrow_spec(s, deposit, token_amount);
            made matches Ok(created) ==> {
                let issue = GetNFT { user: deposit.user, escrow_index: created.1, user_nft_ata };
                let (issued, s2) = get_nft_spec(s1, issue);
                issued matches Ok(receipt) ==> {
                    let claim = Retrieve {
                        user: deposit.user,
                        nft_mint: receipt.0,
                        escrow: created.0,
                        user_nft_ata,
                        user_token_ata,
                    };
                    let (r, s3) = retrieve_spec(s2, claim);
                    &&& receipt.0 == deposit.nft_mint
                    &&& r == Ok::<(u64, Address), CustomError>((token_amount, deposit.user))
                    &&& s3.wallet(deposit.user) == s.wallet(deposit.user)
                    &&& s3.token_balance(user_nft_ata) == 0
                    &&& s3.supply(deposit.nft_mint) == 0
                    &&& s3.escrows == s.escrows
                    &&& s3.metadata == s.metadata
                    &&& s3.custody == s.custody
                }
            }
        }),
{
}

/// Whether every counter of `s` is still there in `t`, for the same
/// depositor, with a next index that is no smaller.
pub open spec fn counters_grow(s: LedgerState, t: LedgerState) -> bool {
    forall|a: Address| #[trigger]
        s.counters.contains_key(a) ==> {
            &&& t.counters.contains_key(a)
            &&& t.counters[a].user == s.counters[a].user
            &&& t.counters[a].counter >= s.counters[a].counter
        }
}

/// Each operation of the engine is one step of a run, on the locations
/// derived for it: what holds of every such step holds of it.
pub proof fn lemma_operations_are_steps(
    s: LedgerState,
    open: InitCounter,
    token: InitializeTokenEscrow,
    sol: InitializeSolEscrow,
    token_amount: u64,
    issue: GetNFT,
    claim: Retrieve,
)
    ensures
        exists|op: Operation|
            op is InitCounter && derived(s, op) && #[trigger] step(s, op) == init_counter_spec(s, open).1,
        exists|op: Operation|
            op is InitializeTokenEscrow && derived(s, op) && #[trigger] step(s, op)
                == initialize_token_escrow_spec(s, token, token_amount).1,
        exists|op: Operation|
            op is InitializeSolEscrow && derived(s, op) && #[trigger] step(s, op) == initialize_sol_escrow_spec(
                s,
                sol,
                token_amount,
            ).1,
        exists|op: Operation| op is GetNFT && derived(s, op) && #[trigger] step(s, op) == get_nft_spec(s, issue).1,
        exists|op: Operation|
            op is Retrieve && derived(s, op) && #[trigger] step(s, op) == retrieve_spec(s, claim).1,
{
    let counter_of = |user: Address| counter_location(s.program, user);
    let a = Operation::InitCounter { ctx: open, at: counter_of(open.user) };
    assert(derived(s, a) && step(s, a) == init_counter_spec(s, open).1);
    let b = Operation::InitializeTokenEscrow {
        ctx: token,
        token_amount,
        counter_at: counter_of(token.user),
        escrow_at: escrow_location(s.program, token.user, s.counters[address_of(counter_of(token.user))].counter),
    };
    assert(derived(s, b) && step(s, b) == initialize_token_escrow_spec(s, token, token_amount).1);
    let c = Operation::InitializeSolEscrow {
        ctx: sol,
        token_amount,
        counter_at: counter_of(sol.user),
        escrow_at: escrow_location(s.program, sol.user, s.counters[address_of(counter_of(sol.user))].counter),
    };
    assert(derived(s, c) && step(s, c) == initialize_sol_escrow_spec(s, sol, token_amount).1);
    let escrow_at = escrow_location(s.program, issue.user, issue.escrow_index);
    let d = Operation::GetNFT {
        ctx: issue,
        escrow_at,
        metadata_at: metadata_location(s.program, s.escrows[address_of(escrow_at)].nft_mint),
    };
    assert(derived(s, d) && step(s, d) == get_nft_spec(s, issue).1);
    let metadata_at = metadata_location(s.program, claim.nft_mint);
    let e = Operation::Retrieve {
        ctx: claim,
        metadata_at,
        escrow_at: escrow_location(
            s.program,
            s.escrows[claim.escrow].authority,
            s.metadata[address_of(metadata_at)].escrow_number,
        ),
    };
    assert(derived(s, e) && step(s, e) == retrieve_spec(s, claim).1);
}

/// A sequence counter is never destroyed and never runs backwards,
/// whatever operation is applied.
pub proof fn lemma_counters_grow(s: LedgerState, op: Operation)
    ensures
        counters_grow(s, step(s, op)),
{
}

/// Whether the escrow record at `a` in `s` has, in `t`, stayed as it was,
/// or been marked as issued for the first time with nothing else changed,
/// or been removed after it was marked.
pub open spec fn record_moved_on(s: LedgerState, t: LedgerState, a: Address) -> bool {
    s.escrows.contains_key(a) ==> {
        ||| t.escrows.contains_key(a) && t.escrows[a] == s.escrows[a]
        ||| t.escrows.contains_key(a) && !s.escrows[a].nft_acquired && t.escrows[a] == s.escrows[a].issued()
        ||| !t.escrows.contains_key(a) && s.escrows[a].nft_acquired
    }
}

/// The life of an escrow record: created, then marked once when its receipt
/// is issued, then removed by a retrieval. In a well-formed ledger no
/// operation changes a record in any other way; none removes a record that
/// was not marked, and none takes a mark back.
pub proof fn lemma_record_lifecycle(s: LedgerState, op: Operation, a: Address)
    requires
        s.wf(),
    ensures
        record_moved_on(s, step(s, op), a),
{
}

/// Whether the claim metadata at `at` in `s` has, in `t`, stayed as it was,
/// or been removed together with the escrow record it belonged to.
pub open spec fn metadata_moved_on(s: LedgerState, t: LedgerState, at: Address) -> bool {
    s.metadata.contains_key(at) ==> {
        ||| t.metadata.contains_key(at) && t.metadata[at] == s.metadata[at]
        ||| !t.metadata.contains_key(at) && !t.escrows.contains_key(s.mints[s.metadata[at].nft_mint].issuer)
    }
}

/// The life of claim metadata: written at issuance, never changed, and
/// removed only together with its escrow record.
pub proof fn lemma_metadata_lifecycle(s: LedgerState, op: Operation, at: Address)
    requires
        s.wf(),
    ensures
        metadata_moved_on(s, step(s, op), at),
{
}

/// The balance accounts, the wallets and the token types belong to the
/// parties: what the parties do with them leaves every escrow record, claim
/// metadata and custody slot as it is.
pub proof fn lemma_parties_leave_records(s: LedgerState, op: Operation)
    ensures
        op is Fund || op is CreateToken || op is OpenTokenAccount || op is Transfer ==> {
            &&& step(s, op).escrows == s.escrows
            &&& step(s, op).metadata == s.metadata
            &&& step(s, op).custody == s.custody
            &&& step(s, op).counters == s.counters
        },
{
}

/// No stage is skipped and none is taken twice: in a well-formed ledger an
/// escrow record whose receipt was not issued cannot be retrieved, and one
/// whose receipt was issued cannot be issued again.
pub proof fn lemma_stages_in_order(
    s: LedgerState,
    issue: GetNFT,
    claim: Retrieve,
    escrow_at: Location,
    metadata_at: Location,
)
    requires
        s.wf(),
    ensures
        s.escrows.contains_key(claim.escrow) && !s.escrows[claim.escrow].nft_acquired ==> retrieve_model(
            s,
            claim,
            metadata_at,
            escrow_at,
        ).0 is Err,
        s.escrows.contains_key(claim.escrow) && !s.escrows[claim.escrow].nft_acquired ==> retrieve_spec(s, claim).0
            is Err,
        escrow_at is Some && s.escrows.contains_key(address_of(escrow_at)) && s.escrows[address_of(
            escrow_at,
        )].nft_acquired ==> get_nft_model(s, issue, escrow_at, metadata_at).0 is Err,
{
}

} // verus!
