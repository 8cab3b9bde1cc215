use vstd::prelude::*;
use crate::address::Address;
use crate::records::{CustodySlot, Escrow, Mint, TokenAccount, TokenMetadata, UserEscrowCounter};
use crate::registry::Registry;
use crate::state::{lookup, LedgerState};

verus! {

/// The stores of a ledger, one per kind of record. An operation works on
/// them step by step; between the steps they need not obey the ledger's
/// invariant.
#[derive(Debug, PartialEq, Eq)]
pub(crate) struct Stores {
    program: Address,
    counters: Registry<UserEscrowCounter>,
    escrows: Registry<Escrow>,
    metadata: Registry<TokenMetadata>,
    custody: Registry<CustodySlot>,
    mints: Registry<Mint>,
    token_accounts: Registry<TokenAccount>,
    wallets: Registry<u64>,
}

impl View for Stores {
    type V = LedgerState;

    closed spec fn view(&self) -> LedgerState {
        LedgerState {
            program: self.program,
            counters: self.counters@,
            escrows: self.escrows@,
            metadata: self.metadata@,
            custody: self.custody@,
            mints: self.mints@,
            token_accounts: self.token_accounts@,
            wallets: self.wallets@,
        }
    }
}

impl Stores {
    /// Empty stores for `program`.
    pub(crate) fn new(program: Address) -> (stores: Stores)
        ensures
            stores@ == LedgerState::empty(program),
    {
        Stores {
            program,
            counters: Registry::new(),
            escrows: Registry::new(),
            metadata: Registry::new(),
            custody: Registry::new(),
            mints: Registry::new(),
            token_accounts: Registry::new(),
            wallets: Registry::new(),
        }
    }

    /// The program under which record locations are derived.
    pub(crate) fn program(&self) -> (p: Address)
        ensures
            p == self@.program,
    {
        self.program
    }

    /// The sequence counter at `at`, if any.
    pub(crate) fn counter(&self, at: &Address) -> (r: Option<UserEscrowCounter>)
        ensures
            r == lookup(self@.counters, *at),
    {
        self.counters.get(at)
    }

    /// The escrow record at `at`, if any.
    pub(crate) fn escrow(&self, at: &Address) -> (r: Option<Escrow>)
        ensures
            r == lookup(self@.escrows, *at),
    {
        self.escrows.get(at)
    }

    /// The claim metadata at `at`, if any.
    pub(crate) fn metadata(&self, at: &Address) -> (r: Option<TokenMetadata>)
        ensures
            r == lookup(self@.metadata, *at),
    {
        self.metadata.get(at)
    }

    /// The custody slot at `at`, if any.
    pub(crate) fn custody_slot(&self, at: &Address) -> (r: Option<CustodySlot>)
        ensures
            r == lookup(self@.custody, *at),
    {
        self.custody.get(at)
    }

    /// The token type `id`, if it exists.
    pub(crate) fn mint(&self, id: &Address) -> (r: Option<Mint>)
        ensures
            r == lookup(self@.mints, *id),
    {
        self.mints.get(id)
    }

    /// The balance account at `at`, if any.
    pub(crate) fn token_account(&self, at: &Address) -> (r: Option<TokenAccount>)
        ensures
            r == lookup(self@.token_accounts, *at),
    {
        self.token_accounts.get(at)
    }

    /// The native-coin balance of `who`.
    pub(crate) fn wallet(&self, who: &Address) -> (r: u64)
        ensures
            r == self@.wallet(*who),
    {
        match self.wallets.get(who) {
            Some(lamports) => lamports,
            None => 0,
        }
    }

    /// Writes the sequence counter at `at`.
    pub(crate) fn put_counter(&mut self, at: Address, counter: UserEscrowCounter)
        ensures
            final(self)@ == (LedgerState { counters: old(self)@.counters.insert(at, counter), ..old(self)@ }),
    {
        self.counters.put(at, counter);
    }

    /// Writes the escrow record at `at`.
    pub(crate) fn put_escrow(&mut self, at: Address, escrow: Escrow)
        ensures
            final(self)@ == (LedgerState { escrows: old(self)@.escrows.insert(at, escrow), ..old(self)@ }),
    {
        self.escrows.put(at, escrow);
    }

    /// Drops the escrow record at `at`.
    pub(crate) fn take_escrow(&mut self, at: &Address)
        ensures
            final(self)@ == (LedgerState { escrows: old(self)@.escrows.remove(*at), ..old(self)@ }),
    {
        self.escrows.take(at);
    }

    /// Writes the claim metadata at `at`.
    pub(crate) fn put_metadata(&mut self, at: Address, metadata: TokenMetadata)
        ensures
            final(self)@ == (LedgerState { metadata: old(self)@.metadata.insert(at, metadata), ..old(self)@ }),
    {
        self.metadata.put(at, metadata);
    }

    /// Drops the claim metadata at `at`.
    pub(crate) fn take_metadata(&mut self, at: &Address)
        ensures
            final(self)@ == (LedgerState { metadata: old(self)@.metadata.remove(*at), ..old(self)@ }),
    {
        self.metadata.take(at);
    }

    /// Writes the custody slot at `at`.
    pub(crate) fn put_custody(&mut self, at: Address, slot: CustodySlot)
        ensures
            final(self)@ == (LedgerState { custody: old(self)@.custody.insert(at, slot), ..old(self)@ }),
    {
        self.custody.put(at, slot);
    }

    /// Drops the custody slot at `at`.
    pub(crate) fn take_custody(&mut self, at: &Address)
        ensures
            final(self)@ == (LedgerState { custody: old(self)@.custody.remove(*at), ..old(self)@ }),
    {
        self.custody.take(at);
    }

    /// Writes the token type `id`.
    pub(crate) fn put_mint(&mut self, id: Address, mint: Mint)
        ensures
            final(self)@ == (LedgerState { mints: old(self)@.mints.insert(id, mint), ..old(self)@ }),
    {
        self.mints.put(id, mint);
    }

    /// Writes the balance account at `at`.
    pub(crate) fn put_token_account(&mut self, at: Address, account: TokenAccount)
        ensures
            final(self)@ == (LedgerState {
                token_accounts: old(self)@.token_accounts.insert(at, account),
                ..old(self)@
            }),
    {
        self.token_accounts.put(at, account);
    }

    /// Sets the native-coin balance of `who`.
    pub(crate) fn put_wallet(&mut self, who: Address, lamports: u64)
        ensures
            final(self)@ == (LedgerState { wallets: old(self)@.wallets.insert(who, lamports), ..old(self)@ }),
    {
        self.wallets.put(who, lamports);
    }
}

impl Clone for Stores {
    /// Stores that hold the same records.
    fn clone(&self) -> (copy: Self)
        ensures
            copy@ == self@,
    {
        Stores {
            program: self.program,
            counters: self.counters.clone(),
            escrows: self.escrows.clone(),
            metadata: self.metadata.clone(),
            custody: self.custody.clone(),
            mints: self.mints.clone(),
            token_accounts: self.token_accounts.clone(),
            wallets: self.wallets.clone(),
        }
    }
}

/// The ledger: the sequence counters, escrow records, claim metadata and
/// custody slots of the engine, together with the token types and the
/// balances of the parties that its operations move. Its view is a
/// `LedgerState`, which obeys the ledger's invariant at all times.
#[derive(Debug, PartialEq, Eq)]
pub struct Ledger {
    stores: Stores,
}

impl View for Ledger {
    type V = LedgerState;

    closed spec fn view(&self) -> LedgerState {
        self.stores@
    }
}

impl Ledger {
    /// What the stores hold obeys the ledger's invariant.
    #[verifier::type_invariant]
    spec fn inv(self) -> bool {
        self.stores@.wf()
    }

    /// A ledger of `program` with nothing in it.
    pub fn new(program: Address) -> (ledger: Ledger)
        ensures
            ledger@ == LedgerState::empty(program),
            ledger@.wf(),
    {
        Ledger { stores: Stores::new(program) }
    }

    /// The program under which record locations are derived. Every ledger
    /// is well-formed, and the call is a way to learn it.
    pub fn program(&self) -> (p: Address)
        ensures
            p == self@.program,
            self@.wf(),
    {
        proof {
            use_type_invariant(&*self);
        }
        self.stores.program()
    }

    /// The sequence counter at `at`, if any.
    pub fn counter(&self, at: &Address) -> (r: Option<UserEscrowCounter>)
        ensures
            r == lookup(self@.counters, *at),
    {
        self.stores.counter(at)
    }

    /// The escrow record at `at`, if any.
    pub fn escrow(&self, at: &Address) -> (r: Option<Escrow>)
        ensures
            r == lookup(self@.escrows, *at),
    {
        self.stores.escrow(at)
    }

    /// The claim metadata at `at`, if any.
    pub fn metadata(&self, at: &Address) -> (r: Option<TokenMetadata>)
        ensures
            r == lookup(self@.metadata, *at),
    {
        self.stores.metadata(at)
    }

    /// The custody slot at `at`, if any.
    pub fn custody_slot(&self, at: &Address) -> (r: Option<CustodySlot>)
        ensures
            r == lookup(self@.custody, *at),
    {
        self.stores.custody_slot(at)
    }

    /// The token type `id`, if it exists.
    pub fn mint(&self, id: &Address) -> (r: Option<Mint>)
        ensures
            r == lookup(self@.mints, *id),
    {
        self.stores.mint(id)
    }

    /// The balance account at `at`, if any.
    pub fn token_account(&self, at: &Address) -> (r: Option<TokenAccount>)
        ensures
            r == lookup(self@.token_accounts, *at),
    {
        self.stores.token_account(at)
    }

    /// The native-coin balance of `who`.
    pub fn wallet(&self, who: &Address) -> (r: u64)
        ensures
            r == self@.wallet(*who),
    {
        self.stores.wallet(who)
    }

    /// Hands the stores out for an operation to work on, and leaves the
    /// ledger empty until they are put back.
    pub(crate) fn checkout(&mut self) -> (stores: Stores)
        ensures
            stores@ == old(self)@,
            stores@.wf(),
            final(self)@ == LedgerState::empty(old(self)@.program),
    {
        proof {
            use_type_invariant(&*self);
        }
        let mut stores = Stores::new(self.stores.program());
        core::mem::swap(&mut stores, &mut self.stores);
        stores
    }

    /// Puts the stores back once an operation is done with them.
    pub(crate) fn commit(&mut self, stores: Stores)
        requires
            stores@.wf(),
        ensures
            final(self)@ == stores@,
            final(self)@.wf(),
    {
        self.stores = stores;
    }
}

impl Clone for Ledger {
    /// A ledger that holds the same records.
    fn clone(&self) -> (copy: Self)
        ensures
            copy@ == self@,
    {
        proof {
            use_type_invariant(&*self);
        }
        Ledger { stores: self.stores.clone() }
    }
}

} // verus!
