use vstd::prelude::*;
use crate::address::Address;

verus! {

/// A derived location: an address and the bump seed that goes with it.
pub type Location = Option<(Address, u8)>;

/// What opening a sequence counter names.
#[derive(Clone, Copy, Debug, PartialEq, Eq)]
pub struct InitCounter {
    /// The depositor, whose signature the host has checked.
    pub user: Address,
}

/// What a token deposit names.
#[derive(Clone, Copy, Debug, PartialEq, Eq)]
pub struct InitializeTokenEscrow {
    /// The depositor, whose signature the host has checked.
    pub user: Address,
    /// The token type to deposit.
    pub token_mint: Address,
    /// The balance account to draw from.
    pub user_token_ata: Address,
    /// The receipt token type to create for the deposit.
    pub nft_mint: Address,
    /// The custody slot to create for the deposit.
    pub escrow_token_ata: Address,
}

/// What a native-coin deposit names.
#[derive(Clone, Copy, Debug, PartialEq, Eq)]
pub struct InitializeSolEscrow {
    /// The depositor, whose signature the host has checked.
    pub user: Address,
    /// The receipt token type to create for the deposit.
    pub nft_mint: Address,
}

/// What the issuance of a receipt names.
#[derive(Clone, Copy, Debug, PartialEq, Eq)]
pub struct GetNFT {
    /// The depositor, whose signature the host has checked.
    pub user: Address,
    /// The sequence index of the escrow record.
    pub escrow_index: u64,
    /// The balance account to create for the receipt.
    pub user_nft_ata: Address,
}

/// What a retrieval names.
#[derive(Clone, Copy, Debug, PartialEq, Eq)]
pub struct Retrieve {
    /// The bearer, whose signature the host has checked.
    pub user: Address,
    /// The receipt token type.
    pub nft_mint: Address,
    /// The location of the escrow record.
    pub escrow: Address,
    /// The balance account in which the bearer holds the receipt.
    pub user_nft_ata: Address,
    /// The balance account to release tokens to. Not looked at where the
    /// escrowed asset is native coin.
    pub user_token_ata: Address,
}

} // verus!
