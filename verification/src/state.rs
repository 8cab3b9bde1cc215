use vstd::prelude::*;
use crate::address::Address;
use crate::records::{AssetKind, CustodySlot, Escrow, Mint, TokenAccount, TokenMetadata, UserEscrowCounter};

verus! {

/// The record that a map keeps under `key`, if any.
pub open spec fn lookup<V>(m: Map<Address, V>, key: Address) -> Option<V> {
    if m.contains_key(key) {
        Some(m[key])
    } else {
        None
    }
}

/// Everything the ledger holds, as mathematical maps from addresses.
#[verifier::ext_equal]
pub struct LedgerState {
    /// The program under which record locations are derived.
    pub program: Address,
    /// Sequence counters, by location.
    pub counters: Map<Address, UserEscrowCounter>,
    /// Escrow records, by location.
    pub escrows: Map<Address, Escrow>,
    /// Claim metadata, by location.
    pub metadata: Map<Address, TokenMetadata>,
    /// Custody slots, by address.
    pub custody: Map<Address, CustodySlot>,
    /// Token types, by id.
    pub mints: Map<Address, Mint>,
    /// Balance accounts of the parties, by address.
    pub token_accounts: Map<Address, TokenAccount>,
    /// Native-coin balances of the parties. A party without an entry has
    /// nothing.
    pub wallets: Map<Address, u64>,
}

impl LedgerState {
    /// The ledger of `program` with nothing in it.
    pub open spec fn empty(program: Address) -> LedgerState {
        LedgerState {
            program,
            counters: Map::empty(),
            escrows: Map::empty(),
            metadata: Map::empty(),
            custody: Map::empty(),
            mints: Map::empty(),
            token_accounts: Map::empty(),
            wallets: Map::empty(),
        }
    }

    /// The native-coin balance of a party.
    pub open spec fn wallet(self, who: Address) -> u64 {
        if self.wallets.contains_key(who) {
            self.wallets[who]
        } else {
            0
        }
    }

    /// The balance of a balance account; zero where there is none.
    pub open spec fn token_balance(self, account: Address) -> u64 {
        if self.token_accounts.contains_key(account) {
            self.token_accounts[account].amount
        } else {
            0
        }
    }

    /// The balance of a custody slot; zero where there is none.
    pub open spec fn custody_balance(self, slot: Address) -> u64 {
        if self.custody.contains_key(slot) {
            self.custody[slot].amount
        } else {
            0
        }
    }

    /// The native coin that the escrow record at `at` holds; zero where
    /// there is none.
    pub open spec fn escrow_balance(self, at: Address) -> u64 {
        if self.escrows.contains_key(at) {
            self.escrows[at].balance()
        } else {
            0
        }
    }

    /// The units of a token type in existence; zero for an unknown type.
    pub open spec fn supply(self, mint: Address) -> u64 {
        if self.mints.contains_key(mint) {
            self.mints[mint].supply
        } else {
            0
        }
    }

    /// Every counter obeys the counter rule.
    pub open spec fn counters_wf(self) -> bool {
        forall|a: Address| #[trigger] self.counters.contains_key(a) ==> self.counters[a].wf()
    }

    /// The escrow record at `a` has its receipt type registered to it, with
    /// one unit in existence exactly when the receipt was issued; and where
    /// it keeps tokens, its custody slot exists, belongs to it, and holds the
    /// recorded amount of the recorded type, which is not the receipt type.
    pub open spec fn escrow_wf(self, a: Address) -> bool {
        let e = self.escrows[a];
        &&& self.mints.contains_key(e.nft_mint)
        &&& self.mints[e.nft_mint] == (Mint {
            issuer: a,
            supply: if e.nft_acquired {
                1u64
            } else {
                0u64
            },
        })
        &&& match e.asset {
            AssetKind::NativeCoin => true,
            AssetKind::FungibleToken { token_mint, escrow_token_ata } => {
                &&& token_mint != e.nft_mint
                &&& self.custody.contains_key(escrow_token_ata)
                &&& self.custody[escrow_token_ata] == (CustodySlot {
                    owner: a,
                    mint: token_mint,
                    amount: e.token_amount,
                })
            },
        }
    }

    /// Every escrow record is consistent with the token types and the
    /// custody slots.
    pub open spec fn escrows_wf(self) -> bool {
        forall|a: Address| #[trigger] self.escrows.contains_key(a) ==> self.escrow_wf(a)
    }

    /// Every custody slot belongs to a live escrow record that names it.
    pub open spec fn custody_wf(self) -> bool {
        forall|slot: Address| #[trigger]
            self.custody.contains_key(slot) ==> {
                let owner = self.custody[slot].owner;
                &&& self.escrows.contains_key(owner)
                &&& self.escrows[owner].asset == (AssetKind::FungibleToken {
                    token_mint: self.custody[slot].mint,
                    escrow_token_ata: slot,
                })
            }
    }

    /// The claim metadata at `at` belongs to a live escrow record: its
    /// receipt type is registered to a record that carries the same receipt
    /// type, is marked as issued, and holds the asset and the amount that the
    /// metadata shows.
    pub open spec fn metadata_wf_at(self, at: Address) -> bool {
        let m = self.metadata[at];
        &&& self.mints.contains_key(m.nft_mint)
        &&& self.escrows.contains_key(self.mints[m.nft_mint].issuer)
        &&& {
            let e = self.escrows[self.mints[m.nft_mint].issuer];
            &&& e.nft_mint == m.nft_mint
            &&& e.nft_acquired
            &&& m.escrowed_amount == e.token_amount
            &&& m.escrowed_token_mint == e.spec_token_mint()
        }
    }

    /// Every claim metadata belongs to a live, issued escrow record, and no
    /// receipt type has metadata at two locations.
    pub open spec fn metadata_wf(self) -> bool {
        &&& forall|at: Address| #[trigger] self.metadata.contains_key(at) ==> self.metadata_wf_at(at)
        &&& forall|at: Address, other: Address|
            #![trigger self.metadata.contains_key(at), self.metadata.contains_key(other)]
            self.metadata.contains_key(at) && self.metadata.contains_key(other) && self.metadata[at].nft_mint
                == self.metadata[other].nft_mint ==> at == other
    }

    /// The ledger's invariant.
    pub open spec fn wf(self) -> bool {
        &&& self.counters_wf()
        &&& self.escrows_wf()
        &&& self.custody_wf()
        &&& self.metadata_wf()
    }
}

} // verus!
