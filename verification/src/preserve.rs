use vstd::prelude::*;
use crate::address::Address;
use crate::context::{GetNFT, InitCounter, InitializeSolEscrow, InitializeTokenEscrow, Location, Retrieve};
use crate::model::{
    create_token_model, fund_model, get_nft_model, init_counter_model, open_token_account_model,
    retrieve_model, run, sol_escrow_model, step, token_escrow_model, transfer_model, Operation,
};
use crate::state::LedgerState;

verus! {

/// The empty ledger is well-formed.
pub proof fn lemma_empty_wf(program: Address)
    ensures
        LedgerState::empty(program).wf(),
{
}

/// Opening a counter keeps the ledger well-formed.
pub proof fn lemma_init_counter_keeps_wf(s: LedgerState, ctx: InitCounter, at: Location)
    requires
        s.wf(),
    ensures
        init_counter_model(s, ctx, at).1.wf(),
{
}

/// A token deposit keeps the ledger well-formed.
pub proof fn lemma_token_escrow_keeps_wf(
    s: LedgerState,
    ctx: InitializeTokenEscrow,
    token_amount: u64,
    counter_at: Location,
    escrow_at: Location,
)
    requires
        s.wf(),
    ensures
        token_escrow_model(s, ctx, token_amount, counter_at, escrow_at).1.wf(),
{
}

/// A native-coin deposit keeps the ledger well-formed.
pub proof fn lemma_sol_escrow_keeps_wf(
    s: LedgerState,
    ctx: InitializeSolEscrow,
    token_amount: u64,
    counter_at: Location,
    escrow_at: Location,
)
    requires
        s.wf(),
    ensures
        sol_escrow_model(s, ctx, token_amount, counter_at, escrow_at).1.wf(),
{
}

/// An issuance keeps the ledger well-formed.
pub proof fn lemma_get_nft_keeps_wf(s: LedgerState, ctx: GetNFT, escrow_at: Location, metadata_at: Location)
    requires
        s.wf(),
    ensures
        get_nft_model(s, ctx, escrow_at, metadata_at).1.wf(),
{
}

/// A retrieval keeps the ledger well-formed.
pub proof fn lemma_retrieve_keeps_wf(s: LedgerState, ctx: Retrieve, metadata_at: Location, escrow_at: Location)
    requires
        s.wf(),
    ensures
        retrieve_model(s, ctx, metadata_at, escrow_at).1.wf(),
{
}

/// Native coin arriving in a wallet keeps the ledger well-formed.
pub proof fn lemma_fund_keeps_wf(s: LedgerState, who: Address, lamports: u64)
    requires
        s.wf(),
    ensures
        fund_model(s, who, lamports).1.wf(),
{
}

/// A new token type keeps the ledger well-formed.
pub proof fn lemma_create_token_keeps_wf(s: LedgerState, mint: Address, account: Address, owner: Address, supply: u64)
    requires
        s.wf(),
    ensures
        create_token_model(s, mint, account, owner, supply).1.wf(),
{
}

/// A new balance account keeps the ledger well-formed.
pub proof fn lemma_open_token_account_keeps_wf(s: LedgerState, account: Address, mint: Address, owner: Address)
    requires
        s.wf(),
    ensures
        open_token_account_model(s, account, mint, owner).1.wf(),
{
}

/// A transfer between balance accounts keeps the ledger well-formed.
pub proof fn lemma_transfer_keeps_wf(s: LedgerState, from: Address, to: Address, authority: Address, amount: u64)
    requires
        s.wf(),
    ensures
        transfer_model(s, from, to, authority, amount).1.wf(),
{
}

/// Every operation keeps the ledger well-formed, whatever it is applied to
/// and whether it is refused or not.
pub proof fn lemma_step_keeps_wf(s: LedgerState, op: Operation)
    requires
        s.wf(),
    ensures
        step(s, op).wf(),
{
    match op {
        Operation::InitCounter { ctx, at } => lemma_init_counter_keeps_wf(s, ctx, at),
        Operation::InitializeTokenEscrow { ctx, token_amount, counter_at, escrow_at } => lemma_token_escrow_keeps_wf(
            s,
            ctx,
            token_amount,
            counter_at,
            escrow_at,
        ),
        Operation::InitializeSolEscrow { ctx, token_amount, counter_at, escrow_at } => lemma_sol_escrow_keeps_wf(
            s,
            ctx,
            token_amount,
            counter_at,
            escrow_at,
        ),
        Operation::GetNFT { ctx, escrow_at, metadata_at } => lemma_get_nft_keeps_wf(s, ctx, escrow_at, metadata_at),
        Operation::Retrieve { ctx, metadata_at, escrow_at } => lemma_retrieve_keeps_wf(s, ctx, metadata_at, escrow_at),
        Operation::Fund { who, lamports } => lemma_fund_keeps_wf(s, who, lamports),
        Operation::CreateToken { mint, account, owner, supply } => lemma_create_token_keeps_wf(
            s,
            mint,
            account,
            owner,
            supply,
        ),
        Operation::OpenTokenAccount { account, mint, owner } => lemma_open_token_account_keeps_wf(
            s,
            account,
            mint,
            owner,
        ),
        Operation::Transfer { from, to, authority, amount } => lemma_transfer_keeps_wf(s, from, to, authority, amount),
    }
}

/// Every ledger that a run of operations reaches from the empty ledger is
/// well-formed.
pub proof fn lemma_run_keeps_wf(program: Address, ops: Seq<Operation>)
    ensures
        run(LedgerState::empty(program), ops).wf(),
    decreases ops.len(),
{
    if ops.len() == 0 {
        lemma_empty_wf(program);
    } else {
        lemma_run_keeps_wf(program, ops.drop_last());
        lemma_step_keeps_wf(run(LedgerState::empty(program), ops.drop_last()), ops.last());
    }
}

} // verus!
