use vstd::prelude::*;
use crate::pubkey::Pubkey;

verus! {

/// Maximum escrow ID length in bytes.
pub const MAX_ESCROW_ID_LEN: usize = 64;

/// Maximum metadata URI length in bytes.
pub const MAX_URI_LEN: usize = 256;

/// Maximum name length in bytes.
pub const MAX_NAME_LEN: usize = 32;

/// Maximum symbol length in bytes.
pub const MAX_SYMBOL_LEN: usize = 10;

/// Maximum number of receipts in one batch.
pub const MAX_BATCH_MINT: usize = 5;

/// NFT collection name.
pub const COLLECTION_NAME: &'static str = "TicketDaddy Receipts";

/// NFT collection symbol; every receipt carries it.
pub const COLLECTION_SYMBOL: &'static str = "TDRECEIPT";

/// Every receipt NFT is a single token: minted as one, burned as one.
pub const RECEIPT_TOKEN_AMOUNT: u64 = 1;

/// Seller fee basis points (royalties): 2.5%.
pub const SELLER_FEE_BASIS_POINTS: u16 = 250;

/// Global settings and statistics of the receipt program.
#[derive(Clone, Copy, Debug, PartialEq, Eq)]
pub struct ProgramState {
    /// Program authority (admin).
    pub authority: Pubkey,
    /// Escrow program allowed to mint.
    pub escrow_program: Pubkey,
    /// Collection NFT mint.
    pub collection_mint: Pubkey,
    /// Total NFTs minted.
    pub total_minted: u64,
    /// Whether the program is paused.
    pub is_paused: bool,
    /// State PDA bump.
    pub bump: u8,
    /// Collection mint PDA bump.
    pub collection_bump: u8,
}

/// The record that ties a receipt NFT to its escrow.
#[derive(Clone, Debug, PartialEq, Eq)]
pub struct Receipt {
    /// Escrow ID this receipt is linked to.
    pub escrow_id: String,
    /// NFT mint address.
    pub mint: Pubkey,
    /// The holder the NFT was minted to.
    pub owner: Pubkey,
    /// Timestamp when minted.
    pub minted_at: i64,
    /// PDA bump.
    pub bump: u8,
}

/// A creator listed in an NFT's metadata.
#[derive(Clone, Copy, Debug, PartialEq, Eq)]
pub struct Creator {
    pub address: Pubkey,
    pub verified: bool,
    pub share: u8,
}

/// The collection an NFT claims to belong to.
#[derive(Clone, Copy, Debug, PartialEq, Eq)]
pub struct Collection {
    pub verified: bool,
    pub key: Pubkey,
}

/// The metadata written for an NFT.
#[derive(Clone, Debug, PartialEq, Eq)]
pub struct MetadataData {
    pub name: String,
    pub symbol: String,
    pub uri: String,
    pub seller_fee_basis_points: u16,
    pub creators: Vec<Creator>,
    pub collection: Option<Collection>,
}

/// How an NFT is minted: how many tokens go to its holder, its metadata,
/// whether that metadata stays mutable and is signed by its update
/// authority, and the supply cap of its master edition.
#[derive(Clone, Debug, PartialEq, Eq)]
pub struct NftMintPlan {
    pub mint_amount: u64,
    pub data: MetadataData,
    pub is_mutable: bool,
    pub update_authority_is_signer: bool,
    pub max_supply: Option<u64>,
}

} // verus!
