use vstd::prelude::*;
use crate::pubkey::Pubkey;

verus! {

/// Emitted when the receipt program is initialized.
#[derive(Clone, Copy, Debug, PartialEq, Eq)]
pub struct ProgramInitialized {
    pub authority: Pubkey,
    pub collection_mint: Pubkey,
}

/// Emitted when a receipt NFT is minted.
#[derive(Clone, Debug, PartialEq, Eq)]
pub struct NFTMinted {
    pub escrow_id: String,
    pub mint: Pubkey,
    pub recipient: Pubkey,
    pub uri: String,
    pub token_id: u64,
}

/// Emitted when a batch mint is accepted.
#[derive(Clone, Copy, Debug, PartialEq, Eq)]
pub struct BatchMintInitiated {
    pub count: u64,
    pub minter: Pubkey,
}

/// Emitted when the escrow program address changes.
#[derive(Clone, Copy, Debug, PartialEq, Eq)]
pub struct EscrowProgramUpdated {
    pub old_program: Pubkey,
    pub new_program: Pubkey,
}

/// Emitted when a receipt NFT is burned.
#[derive(Clone, Debug, PartialEq, Eq)]
pub struct ReceiptBurned {
    pub escrow_id: String,
    pub mint: Pubkey,
    pub burned_by: Pubkey,
}

} // verus!
