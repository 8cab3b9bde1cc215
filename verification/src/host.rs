use vstd::prelude::*;
use crate::address::Address;
use crate::ledger::{Ledger, Stores};
use crate::model::{create_token_model, fund_model, open_token_account_model, transfer_model};
use crate::preserve::{
    lemma_create_token_keeps_wf, lemma_fund_keeps_wf, lemma_open_token_account_keeps_wf, lemma_transfer_keeps_wf,
};
use crate::records::{CustomError, Mint, TokenAccount};

verus! {

/// The body of `Ledger::fund`, on the stores of a ledger.
fn fund_in(stores: &mut Stores, who: &Address, lamports: u64) -> (r: Result<(), CustomError>)
    requires
        old(stores)@.wf(),
    ensures
        final(stores)@.wf(),
        (r, final(stores)@) == fund_model(old(stores)@, *who, lamports),
{
    let balance = stores.wallet(who);
    if balance > u64::MAX - lamports {
        return Err(CustomError::Overflow);
    }
    proof {
        lemma_fund_keeps_wf(stores@, *who, lamports);
    }
    stores.put_wallet(*who, balance + lamports);
    Ok(())
}

/// The body of `Ledger::create_token`, on the stores of a ledger.
fn create_token_in(stores: &mut Stores, mint: &Address, account: &Address, owner: &Address, supply: u64) -> (r: Result<
    (),
    CustomError,
>)
    requires
        old(stores)@.wf(),
    ensures
        final(stores)@.wf(),
        (r, final(stores)@) == create_token_model(old(stores)@, *mint, *account, *owner, supply),
{
    if stores.mint(mint).is_some() || stores.token_account(account).is_some() {
        return Err(CustomError::AlreadyInitialized);
    }
    proof {
        lemma_create_token_keeps_wf(stores@, *mint, *account, *owner, supply);
    }
    stores.put_mint(*mint, Mint { issuer: *owner, supply });
    stores.put_token_account(*account, TokenAccount { mint: *mint, owner: *owner, amount: supply });
    Ok(())
}

/// The body of `Ledger::open_token_account`, on the stores of a ledger.
fn open_token_account_in(stores: &mut Stores, account: &Address, mint: &Address, owner: &Address) -> (r: Result<
    (),
    CustomError,
>)
    requires
        old(stores)@.wf(),
    ensures
        final(stores)@.wf(),
        (r, final(stores)@) == open_token_account_model(old(stores)@, *account, *mint, *owner),
{
    if stores.mint(mint).is_none() {
        return Err(CustomError::RecordNotFound);
    }
    if stores.token_account(account).is_some() {
        return Err(CustomError::AlreadyInitialized);
    }
    proof {
        lemma_open_token_account_keeps_wf(stores@, *account, *mint, *owner);
    }
    stores.put_token_account(*account, TokenAccount { mint: *mint, owner: *owner, amount: 0 });
    Ok(())
}

/// The body of `Ledger::transfer`, on the stores of a ledger.
fn transfer_in(stores: &mut Stores, from: &Address, to: &Address, authority: &Address, amount: u64) -> (r: Result<
    (),
    CustomError,
>)
    requires
        old(stores)@.wf(),
    ensures
        final(stores)@.wf(),
        (r, final(stores)@) == transfer_model(old(stores)@, *from, *to, *authority, amount),
{
    let source = match stores.token_account(from) {
        Some(account) => account,
        None => {
            return Err(CustomError::RecordNotFound);
        },
    };
    let target = match stores.token_account(to) {
        Some(account) => account,
        None => {
            return Err(CustomError::RecordNotFound);
        },
    };
    if !(source.owner == *authority) {
        return Err(CustomError::UnauthorizedSigner);
    }
    if !(source.mint == target.mint) {
        return Err(CustomError::TypeMismatch);
    }
    if source.amount < amount {
        return Err(CustomError::InsufficientFunds);
    }
    if *from == *to {
        return Ok(());
    }
    if target.amount > u64::MAX - amount {
        return Err(CustomError::Overflow);
    }
    proof {
        lemma_transfer_keeps_wf(stores@, *from, *to, *authority, amount);
    }
    stores.put_token_account(
        *from,
        TokenAccount { mint: source.mint, owner: source.owner, amount: source.amount - amount },
    );
    stores.put_token_account(
        *to,
        TokenAccount { mint: target.mint, owner: target.owner, amount: target.amount + amount },
    );
    Ok(())
}

impl Ledger {
    /// Native coin arrives in the wallet of `who`. Refused where the balance
    /// would leave the 64-bit range.
    pub fn fund(&mut self, who: &Address, lamports: u64) -> (r: Result<(), CustomError>)
        ensures
            final(self)@.wf(),
            (r, final(self)@) == fund_model(old(self)@, *who, lamports),
    {
        let mut stores = self.checkout();
        let r = fund_in(&mut stores, who, lamports);
        self.commit(stores);
        r
    }

    /// Creates the token type `mint` with its whole `supply` in the new
    /// balance account `account` of `owner`. Refused where the type or the
    /// account exists.
    pub fn create_token(&mut self, mint: &Address, account: &Address, owner: &Address, supply: u64) -> (r: Result<
        (),
        CustomError,
    >)
        ensures
            final(self)@.wf(),
            (r, final(self)@) == create_token_model(old(self)@, *mint, *account, *owner, supply),
    {
        let mut stores = self.checkout();
        let r = create_token_in(&mut stores, mint, account, owner, supply);
        self.commit(stores);
        r
    }

    /// Opens the empty balance account `account` of `owner` for the existing
    /// token type `mint`.
    pub fn open_token_account(&mut self, account: &Address, mint: &Address, owner: &Address) -> (r: Result<
        (),
        CustomError,
    >)
        ensures
            final(self)@.wf(),
            (r, final(self)@) == open_token_account_model(old(self)@, *account, *mint, *owner),
    {
        let mut stores = self.checkout();
        let r = open_token_account_in(&mut stores, account, mint, owner);
        self.commit(stores);
        r
    }

    /// Moves `amount` units from the balance account `from` to the balance
    /// account `to` of the same token type. `authority` is the signer, whom
    /// the host has checked, and must own `from`.
    pub fn transfer(&mut self, from: &Address, to: &Address, authority: &Address, amount: u64) -> (r: Result<
        (),
        CustomError,
    >)
        ensures
            final(self)@.wf(),
            (r, final(self)@) == transfer_model(old(self)@, *from, *to, *authority, amount),
    {
        let mut stores = self.checkout();
        let r = transfer_in(&mut stores, from, to, authority, amount);
        self.commit(stores);
        r
    }
}

} // verus!
