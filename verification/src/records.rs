use vstd::prelude::*;
use crate::address::Address;

verus! {

/// Why an operation was refused. A refused operation changes nothing.
#[derive(Clone, Copy, Debug, PartialEq, Eq, Structural)]
pub enum CustomError {
    /// The location to be created already holds a record.
    AlreadyInitialized,
    /// The token type to deposit does not exist, or the source balance
    /// account is missing, of another token type, or not owned by the
    /// depositor.
    InvalidSourceAccount,
    /// A receipt was already issued for the escrow record.
    ReceiptAlreadyIssued,
    /// A counter, escrow record or claim metadata that the operation refers
    /// to does not exist, or no location can be derived for it.
    RecordNotFound,
    /// The balance account to release or transfer to is missing or of
    /// another token type.
    TypeMismatch,
    /// The caller is not the authority or the bearer that the operation needs.
    UnauthorizedSigner,
    /// The balance to draw from is smaller than the amount.
    InsufficientFunds,
    /// A balance or a sequence index would leave the 64-bit range.
    Overflow,
}

/// The per-depositor sequence counter.
#[derive(Clone, Copy, Debug, PartialEq, Eq)]
pub struct UserEscrowCounter {
    /// The depositor that owns the counter.
    pub user: Address,
    /// The index that the next deposit will use.
    pub counter: u64,
    /// The index that the latest deposit used.
    pub previous_counter: u64,
    /// The bump seed of the counter's own location.
    pub bump: u8,
}

impl UserEscrowCounter {
    /// The counter of a depositor that has not deposited yet.
    pub open spec fn fresh(user: Address, bump: u8) -> UserEscrowCounter {
        UserEscrowCounter { user, counter: 0, previous_counter: 0, bump }
    }

    /// The counter after one more deposit.
    pub open spec fn advanced(self) -> UserEscrowCounter {
        UserEscrowCounter {
            user: self.user,
            counter: (self.counter + 1) as u64,
            previous_counter: self.counter,
            bump: self.bump,
        }
    }

    /// Before the first deposit both indices are zero; afterwards the next
    /// index is one more than the latest.
    pub open spec fn wf(self) -> bool {
        (self.counter == 0 && self.previous_counter == 0) || self.counter == self.previous_counter + 1
    }

    /// Makes the counter of a depositor that has not deposited yet.
    pub fn new(user: Address, bump: u8) -> (c: UserEscrowCounter)
        ensures
            c == Self::fresh(user, bump),
            c.wf(),
    {
        UserEscrowCounter { user, counter: 0, previous_counter: 0, bump }
    }

    /// Records one more deposit: the latest index becomes the one that was
    /// next, and the next index grows by one. `None` when the next index
    /// would not fit in 64 bits.
    pub fn advance(&self) -> (r: Option<UserEscrowCounter>)
        ensures
            r == (if self.counter < u64::MAX {
                Some(self.advanced())
            } else {
                None
            }),
            r matches Some(c) ==> c.wf(),
    {
        if self.counter < u64::MAX {
            Some(
                UserEscrowCounter {
                    user: self.user,
                    counter: self.counter + 1,
                    previous_counter: self.counter,
                    bump: self.bump,
                },
            )
        } else {
            None
        }
    }
}

/// What an escrow record keeps in custody.
#[derive(Clone, Copy, Debug, PartialEq, Eq)]
pub enum AssetKind {
    /// Native coin, held by the escrow record itself.
    NativeCoin,
    /// Units of a token type, held in a custody slot.
    FungibleToken { token_mint: Address, escrow_token_ata: Address },
}

/// One deposit.
#[derive(Clone, Copy, Debug, PartialEq, Eq)]
pub struct Escrow {
    /// The depositor.
    pub authority: Address,
    /// The bump seed of the record's own location.
    pub bump: u8,
    /// The kind of asset, with the token type and the custody slot where the
    /// asset is a token.
    pub asset: AssetKind,
    /// The amount in custody, in the asset's smallest unit.
    pub token_amount: u64,
    /// The receipt token type tied to this record.
    pub nft_mint: Address,
    /// Whether the receipt was issued.
    pub nft_acquired: bool,
}

impl Escrow {
    /// The record of a fresh token deposit.
    pub open spec fn token(
        authority: Address,
        bump: u8,
        token_mint: Address,
        escrow_token_ata: Address,
        token_amount: u64,
        nft_mint: Address,
    ) -> Escrow {
        Escrow {
            authority,
            bump,
            asset: AssetKind::FungibleToken { token_mint, escrow_token_ata },
            token_amount,
            nft_mint,
            nft_acquired: false,
        }
    }

    /// The record of a fresh native-coin deposit.
    pub open spec fn sol(authority: Address, bump: u8, token_amount: u64, nft_mint: Address) -> Escrow {
        Escrow { authority, bump, asset: AssetKind::NativeCoin, token_amount, nft_mint, nft_acquired: false }
    }

    /// The record once its receipt is issued.
    pub open spec fn issued(self) -> Escrow {
        Escrow {
            authority: self.authority,
            bump: self.bump,
            asset: self.asset,
            token_amount: self.token_amount,
            nft_mint: self.nft_mint,
            nft_acquired: true,
        }
    }

    /// Whether the record holds native coin.
    pub open spec fn spec_is_solana(&self) -> bool {
        self.asset is NativeCoin
    }

    /// The native coin that the record itself holds.
    pub open spec fn balance(self) -> u64 {
        if self.asset is NativeCoin {
            self.token_amount
        } else {
            0
        }
    }

    /// The escrowed token type, where the asset is a token.
    pub open spec fn spec_token_mint(&self) -> Option<Address> {
        match self.asset {
            AssetKind::NativeCoin => None,
            AssetKind::FungibleToken { token_mint, escrow_token_ata } => Some(token_mint),
        }
    }

    /// Makes the record of a fresh token deposit.
    pub fn new_token(
        authority: Address,
        bump: u8,
        token_mint: Address,
        escrow_token_ata: Address,
        token_amount: u64,
        nft_mint: Address,
    ) -> (e: Escrow)
        ensures
            e == Escrow::token(authority, bump, token_mint, escrow_token_ata, token_amount, nft_mint),
    {
        Escrow {
            authority,
            bump,
            asset: AssetKind::FungibleToken { token_mint, escrow_token_ata },
            token_amount,
            nft_mint,
            nft_acquired: false,
        }
    }

    /// Makes the record of a fresh native-coin deposit.
    pub fn new_sol(authority: Address, bump: u8, token_amount: u64, nft_mint: Address) -> (e: Escrow)
        ensures
            e == Escrow::sol(authority, bump, token_amount, nft_mint),
    {
        Escrow { authority, bump, asset: AssetKind::NativeCoin, token_amount, nft_mint, nft_acquired: false }
    }

    /// Marks the receipt as issued. `None` where it was issued before: the
    /// mark is set once.
    pub fn mark_issued(&self) -> (r: Option<Escrow>)
        ensures
            r == (if self.nft_acquired {
                None
            } else {
                Some(self.issued())
            }),
    {
        if self.nft_acquired {
            None
        } else {
            Some(
                Escrow {
                    authority: self.authority,
                    bump: self.bump,
                    asset: self.asset,
                    token_amount: self.token_amount,
                    nft_mint: self.nft_mint,
                    nft_acquired: true,
                },
            )
        }
    }

    /// Whether the record holds native coin.
    #[verifier::when_used_as_spec(spec_is_solana)]
    pub fn is_solana(&self) -> (r: bool)
        ensures
            r == self.spec_is_solana(),
    {
        match self.asset {
            AssetKind::NativeCoin => true,
            AssetKind::FungibleToken { .. } => false,
        }
    }

    /// The escrowed token type, where the asset is a token.
    #[verifier::when_used_as_spec(spec_token_mint)]
    pub fn token_mint(&self) -> (r: Option<Address>)
        ensures
            r == self.spec_token_mint(),
    {
        match self.asset {
            AssetKind::NativeCoin => None,
            AssetKind::FungibleToken { token_mint, escrow_token_ata } => Some(token_mint),
        }
    }
}

/// The claim metadata of an issued receipt.
#[derive(Clone, Copy, Debug, PartialEq, Eq)]
pub struct TokenMetadata {
    /// The receipt token type that the metadata belongs to.
    pub nft_mint: Address,
    /// The sequence index of the escrow record, copied at issuance.
    pub escrow_number: u64,
    /// The escrowed token type; nothing where the asset is native coin.
    pub escrowed_token_mint: Option<Address>,
    /// The escrowed amount, copied at issuance.
    pub escrowed_amount: u64,
    /// The bump seed of the metadata's own location.
    pub bump: u8,
}

impl TokenMetadata {
    /// The metadata that issuance writes for `escrow`, numbered `escrow_number`.
    pub open spec fn of(escrow: Escrow, escrow_number: u64, bump: u8) -> TokenMetadata {
        TokenMetadata {
            nft_mint: escrow.nft_mint,
            escrow_number,
            escrowed_token_mint: escrow.spec_token_mint(),
            escrowed_amount: escrow.token_amount,
            bump,
        }
    }

    /// Writes the metadata that issuance keeps for `escrow`.
    pub fn new(escrow: &Escrow, escrow_number: u64, bump: u8) -> (m: TokenMetadata)
        ensures
            m == TokenMetadata::of(*escrow, escrow_number, bump),
    {
        TokenMetadata {
            nft_mint: escrow.nft_mint,
            escrow_number,
            escrowed_token_mint: escrow.token_mint(),
            escrowed_amount: escrow.token_amount,
            bump,
        }
    }
}

/// A balance account: units of one token type, owned by one party.
#[derive(Clone, Copy, Debug, PartialEq, Eq)]
pub struct TokenAccount {
    pub mint: Address,
    pub owner: Address,
    pub amount: u64,
}

impl TokenAccount {
    /// The account with another balance.
    pub open spec fn with_amount(self, amount: u64) -> TokenAccount {
        TokenAccount { mint: self.mint, owner: self.owner, amount }
    }

    /// Whether a deposit of `token_mint` by `user` may draw from the account:
    /// it is of that token type and `user` owns it.
    pub open spec fn source_for(self, token_mint: Address, user: Address) -> bool {
        self.mint == token_mint && self.owner == user
    }

    /// Whether the account shows `bearer` to hold the receipt `nft_mint`: it
    /// is of that type, `bearer` owns it, and it holds exactly one unit.
    pub open spec fn receipt_of(self, nft_mint: Address, bearer: Address) -> bool {
        self == (TokenAccount { mint: nft_mint, owner: bearer, amount: 1 })
    }

    /// Whether tokens of `token_mint` may be released into the account for
    /// `bearer`, and if not, why: another token type is a `TypeMismatch`,
    /// another owner an `UnauthorizedSigner`.
    pub open spec fn destination_refusal(self, token_mint: Address, bearer: Address) -> Option<CustomError> {
        if self.mint != token_mint {
            Some(CustomError::TypeMismatch)
        } else if self.owner != bearer {
            Some(CustomError::UnauthorizedSigner)
        } else {
            None
        }
    }

    /// Tests `source_for`.
    pub fn is_source_for(&self, token_mint: &Address, user: &Address) -> (r: bool)
        ensures
            r == self.source_for(*token_mint, *user),
    {
        self.mint == *token_mint && self.owner == *user
    }

    /// Tests `receipt_of`.
    pub fn is_receipt_of(&self, nft_mint: &Address, bearer: &Address) -> (r: bool)
        ensures
            r == self.receipt_of(*nft_mint, *bearer),
    {
        self.mint == *nft_mint && self.owner == *bearer && self.amount == 1
    }

    /// Tests whether the account can take released tokens of `token_mint`
    /// for `bearer`.
    pub fn check_destination(&self, token_mint: &Address, bearer: &Address) -> (r: Result<(), CustomError>)
        ensures
            r == (match self.destination_refusal(*token_mint, *bearer) {
                Some(e) => Err::<(), CustomError>(e),
                None => Ok::<(), CustomError>(()),
            }),
    {
        if !(self.mint == *token_mint) {
            Err(CustomError::TypeMismatch)
        } else if !(self.owner == *bearer) {
            Err(CustomError::UnauthorizedSigner)
        } else {
            Ok(())
        }
    }
}

/// A custody slot: the balance that one escrow record keeps for one token
/// deposit. No party owns it.
#[derive(Clone, Copy, Debug, PartialEq, Eq)]
pub struct CustodySlot {
    /// The location of the escrow record that the slot belongs to.
    pub owner: Address,
    pub mint: Address,
    pub amount: u64,
}

/// A token type.
#[derive(Clone, Copy, Debug, PartialEq, Eq)]
pub struct Mint {
    /// Who the type was created for: a party, or for a receipt type the
    /// location of its escrow record.
    pub issuer: Address,
    /// The units in existence.
    pub supply: u64,
}

} // verus!
