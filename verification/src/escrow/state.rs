use vstd::prelude::*;
use crate::pubkey::Pubkey;

verus! {

/// Platform fee: 5% = 500 basis points.
pub const PLATFORM_FEE_BASIS_POINTS: u64 = 500;

/// Basis points denominator.
pub const BASIS_POINTS_DENOMINATOR: u64 = 10000;

/// Minimum escrow duration: 10 minutes.
pub const MIN_ESCROW_DURATION: i64 = 600;

/// Maximum escrow duration: 30 days.
pub const MAX_ESCROW_DURATION: i64 = 30 * 24 * 60 * 60;

/// Maximum release time from now: 1 year.
pub const MAX_RELEASE_TIME: i64 = 365 * 24 * 60 * 60;

/// Minimum escrow amount: 0.001 SOL in lamports.
pub const MIN_SOL_AMOUNT: u64 = 1_000_000;

/// Maximum business ID length in bytes.
pub const MAX_BUSINESS_ID_LEN: usize = 64;

/// Maximum escrow ID length in bytes.
pub const MAX_ESCROW_ID_LEN: usize = 64;

/// Maximum business name length in bytes.
pub const MAX_BUSINESS_NAME_LEN: usize = 128;

/// Maximum metadata URI length in bytes.
pub const MAX_METADATA_URI_LEN: usize = 256;

/// Maximum product type fee: 50% = 5000 basis points.
pub const MAX_PRODUCT_TYPE_FEE: u64 = 5000;

/// Number of product types.
pub const PRODUCT_TYPE_COUNT: usize = 9;

/// Maximum batch size for batch operations.
pub const MAX_BATCH_SIZE: usize = 10;

/// The address that marks an escrow of native SOL (all zero bytes).
pub open spec fn spec_native_sol() -> Pubkey {
    Pubkey::spec_zeroed()
}

/// The address that marks an escrow of native SOL (all zero bytes).
pub fn native_sol() -> (key: Pubkey)
    ensures
        key == spec_native_sol(),
{
    Pubkey::default()
}

/// Global settings and statistics of the escrow program.
#[derive(Clone, Copy, Debug, PartialEq, Eq)]
pub struct ProgramState {
    /// Program authority (admin).
    pub authority: Pubkey,
    /// Platform wallet for fee collection.
    pub platform_wallet: Pubkey,
    /// Default escrow duration in seconds.
    pub escrow_duration: i64,
    /// NFT program for minting receipts.
    pub nft_program: Pubkey,
    /// Total escrows created.
    pub total_escrows: u64,
    /// Total volume processed.
    pub total_volume: u64,
    /// Whether the program is paused.
    pub is_paused: bool,
    /// PDA bump.
    pub bump: u8,
    /// Product-type-specific fees in basis points (0 = use the default fee).
    pub product_type_fees: [u64; 9],
}

/// Registration status of a business.
#[derive(Clone, Copy, Debug, PartialEq, Eq, Structural)]
pub enum BusinessStatus {
    Pending,
    Active,
    Suspended,
}

/// Lifecycle status of an escrow.
#[derive(Clone, Copy, Debug, PartialEq, Eq, Structural)]
pub enum TransactionStatus {
    Pending,
    Active,
    Paused,
    Completed,
    Refunded,
    Failed,
}

/// Product type for variable fee calculation; its index is the `u8` that
/// escrows record.
#[derive(Clone, Copy, Debug, PartialEq, Eq, Structural)]
pub enum ProductType {
    General,
    Event,
    Experience,
    Stay,
    Travel,
    PpvStream,
    Restaurant,
    Membership,
    Pass,
}

/// The index of each product type, in declaration order.
pub open spec fn spec_product_type_index(p: ProductType) -> u8 {
    match p {
        ProductType::General => 0,
        ProductType::Event => 1,
        ProductType::Experience => 2,
        ProductType::Stay => 3,
        ProductType::Travel => 4,
        ProductType::PpvStream => 5,
        ProductType::Restaurant => 6,
        ProductType::Membership => 7,
        ProductType::Pass => 8,
    }
}

impl ProductType {
    /// The index that identifies this product type in escrows and fee tables.
    pub fn index(&self) -> (i: u8)
        ensures
            i == spec_product_type_index(*self),
            (i as usize) < PRODUCT_TYPE_COUNT,
    {
        match self {
            ProductType::General => 0,
            ProductType::Event => 1,
            ProductType::Experience => 2,
            ProductType::Stay => 3,
            ProductType::Travel => 4,
            ProductType::PpvStream => 5,
            ProductType::Restaurant => 6,
            ProductType::Membership => 7,
            ProductType::Pass => 8,
        }
    }

    /// The product type with the given index, if there is one.
    pub fn from_index(i: u8) -> (p: Option<ProductType>)
        ensures
            p matches Some(q) ==> spec_product_type_index(q) == i,
            p is Some <==> (i as usize) < PRODUCT_TYPE_COUNT,
    {
        match i {
            0 => Some(ProductType::General),
            1 => Some(ProductType::Event),
            2 => Some(ProductType::Experience),
            3 => Some(ProductType::Stay),
            4 => Some(ProductType::Travel),
            5 => Some(ProductType::PpvStream),
            6 => Some(ProductType::Restaurant),
            7 => Some(ProductType::Membership),
            8 => Some(ProductType::Pass),
            _ => None,
        }
    }
}

/// A registered business.
#[derive(Clone, Debug, PartialEq, Eq)]
pub struct Business {
    /// Unique business identifier.
    pub business_id: String,
    /// Business wallet address.
    pub wallet_address: Pubkey,
    /// Business display name.
    pub business_name: String,
    /// Business status.
    pub status: BusinessStatus,
    /// Registration timestamp.
    pub registration_date: i64,
    /// Total transactions count.
    pub total_transactions: u64,
    /// Total volume processed.
    pub total_volume: u64,
    /// Whether NFT receipts are enabled.
    pub nft_enabled: bool,
    /// PDA bump.
    pub bump: u8,
}

/// One escrowed payment.
#[derive(Clone, Debug, PartialEq, Eq)]
pub struct Escrow {
    /// Unique escrow identifier.
    pub escrow_id: String,
    /// Customer address.
    pub customer: Pubkey,
    /// Business identifier.
    pub business_id: String,
    /// Token address (the native-SOL marker for SOL, the mint for SPL tokens).
    pub token_address: Pubkey,
    /// Total amount escrowed.
    pub amount: u64,
    /// Amount to be paid to the business.
    pub business_payout: u64,
    /// Platform fee amount.
    pub platform_fee: u64,
    /// Transaction status.
    pub status: TransactionStatus,
    /// Creation timestamp.
    pub created_at: i64,
    /// Release timestamp.
    pub release_at: i64,
    /// Who processed the refund, if refunded.
    pub refunded_by: Option<Pubkey>,
    /// NFT token ID, if minted.
    pub nft_token_id: Option<u64>,
    /// NFT metadata URI.
    pub nft_metadata_uri: Option<String>,
    /// PDA bump.
    pub bump: u8,
    /// Product type index for fee calculation.
    pub product_type: u8,
    /// Subscription ID for membership and pass recurring billing.
    pub subscription_id: Option<String>,
}

impl Escrow {
    /// The payout and the fee together are the escrowed amount.
    pub open spec fn amounts_balance(&self) -> bool {
        self.business_payout + self.platform_fee == self.amount
    }

    /// An escrow whose funds are still held: it may be paused, resumed,
    /// refunded or rescheduled.
    pub open spec fn is_open(&self) -> bool {
        self.status == TransactionStatus::Active || self.status == TransactionStatus::Paused
    }
}

/// Whitelist entry for an SPL token.
#[derive(Clone, Debug, PartialEq, Eq)]
pub struct TokenConfig {
    /// Token mint address.
    pub token_mint: Pubkey,
    /// Whether the token is currently whitelisted.
    pub is_active: bool,
    /// Minimum escrow amount for this token.
    pub min_amount: u64,
    /// Token decimals.
    pub decimals: u8,
    /// Token symbol.
    pub symbol: String,
    /// PDA bump.
    pub bump: u8,
}

} // verus!
