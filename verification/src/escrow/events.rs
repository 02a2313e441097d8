use vstd::prelude::*;
use crate::pubkey::Pubkey;

verus! {

/// Emitted when the program is initialized.
#[derive(Clone, Copy, Debug, PartialEq, Eq)]
pub struct ProgramInitialized {
    pub authority: Pubkey,
    pub platform_wallet: Pubkey,
    pub escrow_duration: i64,
}

/// Emitted when a business is registered.
#[derive(Clone, Debug, PartialEq, Eq)]
pub struct BusinessRegistered {
    pub business_id: String,
    pub wallet_address: Pubkey,
    pub business_name: String,
}

/// Emitted when a business changes its wallet.
#[derive(Clone, Debug, PartialEq, Eq)]
pub struct BusinessWalletUpdated {
    pub business_id: String,
    pub old_wallet: Pubkey,
    pub new_wallet: Pubkey,
}

/// Emitted when a business is suspended.
#[derive(Clone, Debug, PartialEq, Eq)]
pub struct BusinessSuspended {
    pub business_id: String,
    pub suspended_by: Pubkey,
}

/// Emitted when a suspended business is activated again.
#[derive(Clone, Debug, PartialEq, Eq)]
pub struct BusinessActivated {
    pub business_id: String,
    pub activated_by: Pubkey,
}

/// Emitted when NFT receipts are switched on for a business.
#[derive(Clone, Debug, PartialEq, Eq)]
pub struct BusinessNFTEnabled {
    pub business_id: String,
    pub updated_by: Pubkey,
}

/// Emitted when NFT receipts are switched off for a business.
#[derive(Clone, Debug, PartialEq, Eq)]
pub struct BusinessNFTDisabled {
    pub business_id: String,
    pub updated_by: Pubkey,
}

/// The event of a change of a business's NFT-receipt setting.
#[derive(Clone, Debug, PartialEq, Eq)]
pub enum BusinessNFTToggled {
    Enabled(BusinessNFTEnabled),
    Disabled(BusinessNFTDisabled),
}

/// Emitted when an escrow is created.
#[derive(Clone, Debug, PartialEq, Eq)]
pub struct EscrowCreated {
    pub escrow_id: String,
    pub customer: Pubkey,
    pub business_id: String,
    pub token_address: Pubkey,
    pub amount: u64,
}

/// Emitted when an escrow's funds are released.
#[derive(Clone, Debug, PartialEq, Eq)]
pub struct FundsReleased {
    pub escrow_id: String,
    pub business_wallet: Pubkey,
    pub platform_wallet: Pubkey,
    pub business_amount: u64,
    pub platform_amount: u64,
}

/// Emitted when an escrow is refunded.
#[derive(Clone, Debug, PartialEq, Eq)]
pub struct RefundProcessed {
    pub escrow_id: String,
    pub customer: Pubkey,
    pub amount: u64,
    pub refunded_by: Pubkey,
}

/// Emitted when an escrow is paused.
#[derive(Clone, Debug, PartialEq, Eq)]
pub struct TransactionPaused {
    pub escrow_id: String,
    pub paused_by: Pubkey,
}

/// Emitted when a paused escrow is resumed.
#[derive(Clone, Debug, PartialEq, Eq)]
pub struct TransactionResumed {
    pub escrow_id: String,
    pub resumed_by: Pubkey,
}

/// Emitted when an escrow's release time is extended.
#[derive(Clone, Debug, PartialEq, Eq)]
pub struct EscrowReleaseTimeUpdated {
    pub escrow_id: String,
    pub old_release_at: i64,
    pub new_release_at: i64,
    pub updated_by: Pubkey,
}

/// Emitted when the default escrow duration changes.
#[derive(Clone, Copy, Debug, PartialEq, Eq)]
pub struct EscrowDurationUpdated {
    pub old_duration: i64,
    pub new_duration: i64,
}

/// Emitted when the platform wallet changes.
#[derive(Clone, Copy, Debug, PartialEq, Eq)]
pub struct PlatformWalletUpdated {
    pub old_wallet: Pubkey,
    pub new_wallet: Pubkey,
}

/// Emitted when the NFT program address changes.
#[derive(Clone, Copy, Debug, PartialEq, Eq)]
pub struct NFTContractUpdated {
    pub old_contract: Pubkey,
    pub new_contract: Pubkey,
}

/// Emitted when an NFT receipt is minted for an escrow.
#[derive(Clone, Debug, PartialEq, Eq)]
pub struct NFTMintedForEscrow {
    pub escrow_id: String,
    pub token_id: u64,
    pub owner: Pubkey,
    pub metadata_uri: String,
}

/// Emitted when a product type's fee changes.
#[derive(Clone, Copy, Debug, PartialEq, Eq)]
pub struct ProductTypeFeeUpdated {
    pub product_type: u8,
    pub old_fee: u64,
    pub new_fee: u64,
}

/// Emitted when the admin overrides an escrow's release time.
#[derive(Clone, Debug, PartialEq, Eq)]
pub struct AdminReleaseTimeOverride {
    pub escrow_id: String,
    pub old_release_at: i64,
    pub new_release_at: i64,
    pub admin: Pubkey,
}

/// Emitted when an escrow is linked to a subscription.
#[derive(Clone, Debug, PartialEq, Eq)]
pub struct SubscriptionEscrowLinked {
    pub escrow_id: String,
    pub subscription_id: String,
}

/// Emitted when a token is whitelisted.
#[derive(Clone, Debug, PartialEq, Eq)]
pub struct TokenWhitelisted {
    pub token_mint: Pubkey,
    pub min_amount: u64,
    pub symbol: String,
}

/// Emitted when a token is removed from the whitelist.
#[derive(Clone, Copy, Debug, PartialEq, Eq)]
pub struct TokenRemoved {
    pub token_mint: Pubkey,
}

} // verus!
