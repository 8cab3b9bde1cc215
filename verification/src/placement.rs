use vstd::prelude::*;
use crate::address::Address;
use crate::context::Retrieve;
use crate::locate::{counter_location, escrow_location, metadata_location};
use crate::model::{
    address_of, holds_receipt, present, retrieve_destination, retrieve_release_refusal, retrieve_spec, run, step,
    Operation,
};
use crate::preserve::{lemma_empty_wf, lemma_run_keeps_wf, lemma_step_keeps_wf};
use crate::records::CustomError;
use crate::state::LedgerState;

verus! {

/// Whether every record lies where anyone can compute it from public
/// identifiers: each counter at the location derived from its depositor;
/// each claim metadata at the location derived from its receipt type; and
/// the escrow record that a claim metadata belongs to at the location
/// derived from the record's depositor and the index in the metadata.
pub open spec fn placed(s: LedgerState) -> bool {
    &&& forall|a: Address| #[trigger]
        s.counters.contains_key(a) ==> counter_location(s.program, s.counters[a].user) == Some(
            (a, s.counters[a].bump),
        )
    &&& forall|at: Address| #[trigger]
        s.metadata.contains_key(at) ==> {
            let m = s.metadata[at];
            let record_at = s.mints[m.nft_mint].issuer;
            let found = escrow_location(s.program, s.escrows[record_at].authority, m.escrow_number);
            &&& metadata_location(s.program, m.nft_mint) == Some((at, m.bump))
            &&& found is Some
            &&& address_of(found) == record_at
        }
}

/// Whether an operation of the engine works on the locations derived for it
/// in the ledger `s`. The operations of the parties name no location.
pub open spec fn derived(s: LedgerState, op: Operation) -> bool {
    match op {
        Operation::InitCounter { ctx, at } => at == counter_location(s.program, ctx.user),
        Operation::InitializeTokenEscrow { ctx, token_amount, counter_at, escrow_at } => {
            &&& counter_at == counter_location(s.program, ctx.user)
            &&& present(s.counters, counter_at) ==> escrow_at == escrow_location(
                s.program,
                ctx.user,
                s.counters[address_of(counter_at)].counter,
            )
        },
        Operation::InitializeSolEscrow { ctx, token_amount, counter_at, escrow_at } => {
            &&& counter_at == counter_location(s.program, ctx.user)
            &&& present(s.counters, counter_at) ==> escrow_at == escrow_location(
                s.program,
                ctx.user,
                s.counters[address_of(counter_at)].counter,
            )
        },
        Operation::GetNFT { ctx, escrow_at, metadata_at } => {
            &&& escrow_at == escrow_location(s.program, ctx.user, ctx.escrow_index)
            &&& present(s.escrows, escrow_at) ==> metadata_at == metadata_location(
                s.program,
                s.escrows[address_of(escrow_at)].nft_mint,
            )
        },
        Operation::Retrieve { ctx, metadata_at, escrow_at } => {
            &&& metadata_at == metadata_location(s.program, ctx.nft_mint)
            &&& present(s.metadata, metadata_at) && s.escrows.contains_key(ctx.escrow) ==> escrow_at
                == escrow_location(
                s.program,
                s.escrows[ctx.escrow].authority,
                s.metadata[address_of(metadata_at)].escrow_number,
            )
        },
        _ => true,
    }
}

/// Whether every operation of a run works on the locations derived for it
/// in the ledger that the run has reached by then.
pub open spec fn derived_run(s: LedgerState, ops: Seq<Operation>) -> bool
    decreases ops.len(),
{
    if ops.len() == 0 {
        true
    } else {
        derived_run(s, ops.drop_last()) && derived(run(s, ops.drop_last()), ops.last())
    }
}

/// An operation on its derived locations leaves every record where anyone
/// can compute it.
pub proof fn lemma_step_keeps_placed(s: LedgerState, op: Operation)
    requires
        s.wf(),
    ensures
        placed(s) && derived(s, op) ==> placed(step(s, op)),
        step(s, op).program == s.program,
{
    if placed(s) && derived(s, op) {
        let t = step(s, op);
        lemma_step_keeps_wf(s, op);
        assert forall|at: Address| #[trigger] t.metadata.contains_key(at) implies {
            let m = t.metadata[at];
            let record_at = t.mints[m.nft_mint].issuer;
            let found = escrow_location(t.program, t.escrows[record_at].authority, m.escrow_number);
            &&& metadata_location(t.program, m.nft_mint) == Some((at, m.bump))
            &&& found is Some
            &&& address_of(found) == record_at
        } by {
            assert(t.metadata_wf_at(at));
            if s.metadata.contains_key(at) {
                assert(s.metadata_wf_at(at));
                assert(s.escrow_wf(s.mints[s.metadata[at].nft_mint].issuer));
            }
        }
    }
}

/// Every ledger that a run of operations on their derived locations reaches
/// from the empty ledger is well-formed and has every record where anyone
/// can compute it.
pub proof fn lemma_run_keeps_placed(program: Address, ops: Seq<Operation>)
    ensures
        run(LedgerState::empty(program), ops).wf(),
        run(LedgerState::empty(program), ops).program == program,
        derived_run(LedgerState::empty(program), ops) ==> placed(run(LedgerState::empty(program), ops)),
    decreases ops.len(),
{
    lemma_run_keeps_wf(program, ops);
    if ops.len() == 0 {
        lemma_empty_wf(program);
    } else {
        let before = run(LedgerState::empty(program), ops.drop_last());
        lemma_run_keeps_placed(program, ops.drop_last());
        lemma_step_keeps_placed(before, ops.last());
    }
}

/// A receipt is always redeemable for exactly what it was issued against.
/// Take a well-formed ledger with every record in its place, and any claim
/// metadata in it. Whoever holds the receipt of that metadata, names the
/// escrow record that the receipt type is registered to, and can take the
/// asset (a destination of the escrowed type that is the bearer's own, and
/// room for the amount), retrieves the amount that the metadata shows.
pub proof fn lemma_receipt_is_redeemable(s: LedgerState, at: Address, ctx: Retrieve)
    requires
        s.wf(),
    ensures
        placed(s) && s.metadata.contains_key(at) && ctx.nft_mint == s.metadata[at].nft_mint && ctx.escrow
            == s.mints[ctx.nft_mint].issuer && holds_receipt(s, ctx) && retrieve_release_refusal(s, ctx)
            is None ==> retrieve_spec(s, ctx).0 == Ok::<(u64, Address), CustomError>(
            (s.metadata[at].escrowed_amount, retrieve_destination(s, ctx)),
        ),
{
    if placed(s) && s.metadata.contains_key(at) && ctx.nft_mint == s.metadata[at].nft_mint {
        assert(s.metadata_wf_at(at));
    }
}

} // verus!
