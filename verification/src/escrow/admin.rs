use vstd::prelude::*;
use crate::pubkey::Pubkey;
use crate::escrow::error::EscrowError;
use crate::escrow::events::{
    EscrowDurationUpdated, NFTContractUpdated, PlatformWalletUpdated, ProductTypeFeeUpdated,
    ProgramInitialized, TokenRemoved, TokenWhitelisted,
};
use crate::outcome::applied;
use crate::escrow::state::{
    ProgramState, TokenConfig, MAX_ESCROW_DURATION, MAX_PRODUCT_TYPE_FEE, MIN_ESCROW_DURATION,
    PRODUCT_TYPE_COUNT,
};

verus! {

/// An escrow duration the program accepts: ten minutes to thirty days.
pub open spec fn valid_escrow_duration(duration: i64) -> bool {
    MIN_ESCROW_DURATION <= duration <= MAX_ESCROW_DURATION
}

/// Initializing the program: the duration must be valid; the new state has
/// no NFT program yet (the zero key), no escrows, is not paused, and has no
/// product-specific fees.
pub open spec fn spec_initialize(
    authority: Pubkey,
    platform_wallet: Pubkey,
    escrow_duration: i64,
    bump: u8,
) -> Result<(ProgramState, ProgramInitialized), EscrowError> {
    if !valid_escrow_duration(escrow_duration) {
        Err(EscrowError::InvalidEscrowDuration)
    } else {
        Ok(
            (
                ProgramState {
                    authority,
                    platform_wallet,
                    escrow_duration,
                    nft_program: Pubkey::spec_zeroed(),
                    total_escrows: 0,
                    total_volume: 0,
                    is_paused: false,
                    bump,
                    product_type_fees: vstd::array::spec_array_fill_for_copy_type(0u64),
                },
                ProgramInitialized { authority, platform_wallet, escrow_duration },
            ),
        )
    }
}

/// Sets up the program state.
pub fn initialize(
    authority: Pubkey,
    platform_wallet: Pubkey,
    escrow_duration: i64,
    bump: u8,
) -> (res: Result<(ProgramState, ProgramInitialized), EscrowError>)
    ensures
        res == spec_initialize(authority, platform_wallet, escrow_duration, bump),
{
    if !(escrow_duration >= MIN_ESCROW_DURATION && escrow_duration <= MAX_ESCROW_DURATION) {
        return Err(EscrowError::InvalidEscrowDuration);
    }
    let state = ProgramState {
        authority,
        platform_wallet,
        escrow_duration,
        nft_program: Pubkey::default(),
        total_escrows: 0,
        total_volume: 0,
        is_paused: false,
        bump,
        product_type_fees: [0u64; 9],
    };
    Ok((state, ProgramInitialized { authority, platform_wallet, escrow_duration }))
}

/// Setting a product type's fee: the type must exist and the rate be at
/// most 50%; only that entry of the fee table changes.
pub open spec fn spec_set_product_type_fee(
    state: ProgramState,
    product_type: u8,
    fee_bps: u64,
) -> Result<(ProgramState, ProductTypeFeeUpdated), EscrowError> {
    if product_type as usize >= PRODUCT_TYPE_COUNT {
        Err(EscrowError::InvalidProductType)
    } else if fee_bps > MAX_PRODUCT_TYPE_FEE {
        Err(EscrowError::InvalidProductTypeFee)
    } else {
        Ok(
            (
                ProgramState {
                    product_type_fees: vstd::array::spec_array_update(
                        state.product_type_fees,
                        product_type as int,
                        fee_bps,
                    ),
                    ..state
                },
                ProductTypeFeeUpdated {
                    product_type,
                    old_fee: state.product_type_fees@[product_type as int],
                    new_fee: fee_bps,
                },
            ),
        )
    }
}

/// Sets the fee rate of one product type (0 restores the default rate).
pub fn set_product_type_fee(
    state: &mut ProgramState,
    product_type: u8,
    fee_bps: u64,
) -> (res: Result<ProductTypeFeeUpdated, EscrowError>)
    ensures
        applied(*old(state), *final(state), res, spec_set_product_type_fee(*old(state), product_type, fee_bps)),
{
    if (product_type as usize) >= PRODUCT_TYPE_COUNT {
        return Err(EscrowError::InvalidProductType);
    }
    if fee_bps > MAX_PRODUCT_TYPE_FEE {
        return Err(EscrowError::InvalidProductTypeFee);
    }
    let idx = product_type as usize;
    let old_fee = state.product_type_fees[idx];
    state.product_type_fees[idx] = fee_bps;
    Ok(ProductTypeFeeUpdated { product_type, old_fee, new_fee: fee_bps })
}

/// Changing the default escrow duration: the new one must be valid.
pub open spec fn spec_update_escrow_duration(
    state: ProgramState,
    new_duration: i64,
) -> Result<(ProgramState, EscrowDurationUpdated), EscrowError> {
    if !valid_escrow_duration(new_duration) {
        Err(EscrowError::InvalidEscrowDuration)
    } else {
        Ok(
            (
                ProgramState { escrow_duration: new_duration, ..state },
                EscrowDurationUpdated { old_duration: state.escrow_duration, new_duration },
            ),
        )
    }
}

/// Sets the default escrow duration.
pub fn update_escrow_duration(state: &mut ProgramState, new_duration: i64) -> (res: Result<EscrowDurationUpdated, EscrowError>)
    ensures
        applied(*old(state), *final(state), res, spec_update_escrow_duration(*old(state), new_duration)),
{
    if !(new_duration >= MIN_ESCROW_DURATION && new_duration <= MAX_ESCROW_DURATION) {
        return Err(EscrowError::InvalidEscrowDuration);
    }
    let old_duration = state.escrow_duration;
    state.escrow_duration = new_duration;
    Ok(EscrowDurationUpdated { old_duration, new_duration })
}

/// Changing the platform wallet: the new wallet must differ from the old.
pub open spec fn spec_update_platform_wallet(
    state: ProgramState,
    new_wallet: Pubkey,
) -> Result<(ProgramState, PlatformWalletUpdated), EscrowError> {
    if state.platform_wallet == new_wallet {
        Err(EscrowError::SameWalletAddress)
    } else {
        Ok(
            (
                ProgramState { platform_wallet: new_wallet, ..state },
                PlatformWalletUpdated { old_wallet: state.platform_wallet, new_wallet },
            ),
        )
    }
}

/// Sets the wallet that collects platform fees.
pub fn update_platform_wallet(state: &mut ProgramState, new_wallet: Pubkey) -> (res: Result<PlatformWalletUpdated, EscrowError>)
    ensures
        applied(*old(state), *final(state), res, spec_update_platform_wallet(*old(state), new_wallet)),
{
    let old_wallet = state.platform_wallet;
    if old_wallet == new_wallet {
        return Err(EscrowError::SameWalletAddress);
    }
    state.platform_wallet = new_wallet;
    Ok(PlatformWalletUpdated { old_wallet, new_wallet })
}

/// Sets the NFT program address; this always succeeds.
pub fn update_nft_program(state: &mut ProgramState, nft_program: Pubkey) -> (event: NFTContractUpdated)
    ensures
        *final(state) == (ProgramState { nft_program, ..*old(state) }),
        event == (NFTContractUpdated { old_contract: old(state).nft_program, new_contract: nft_program }),
{
    let old_contract = state.nft_program;
    state.nft_program = nft_program;
    NFTContractUpdated { old_contract, new_contract: nft_program }
}

/// Pauses the program.
pub fn pause(state: &mut ProgramState)
    ensures
        *final(state) == (ProgramState { is_paused: true, ..*old(state) }),
{
    state.is_paused = true;
}

/// Unpauses the program.
pub fn unpause(state: &mut ProgramState)
    ensures
        *final(state) == (ProgramState { is_paused: false, ..*old(state) }),
{
    state.is_paused = false;
}

/// Hands the program's authority to a new key.
pub fn transfer_authority(state: &mut ProgramState, new_authority: Pubkey)
    ensures
        *final(state) == (ProgramState { authority: new_authority, ..*old(state) }),
{
    state.authority = new_authority;
}

/// Whitelists an SPL token: the token's configuration is (re)written as an
/// active entry with the given minimum amount, decimals and symbol.
pub fn whitelist_token(
    token_mint: Pubkey,
    min_amount: u64,
    decimals: u8,
    symbol: String,
    bump: u8,
) -> (res: (TokenConfig, TokenWhitelisted))
    ensures
        res.0 == (TokenConfig { token_mint, is_active: true, min_amount, decimals, symbol, bump }),
        res.1 == (TokenWhitelisted { token_mint, min_amount, symbol }),
{
    let event = TokenWhitelisted { token_mint, min_amount, symbol: symbol.clone() };
    (TokenConfig { token_mint, is_active: true, min_amount, decimals, symbol, bump }, event)
}

/// Removes a token from the whitelist; its configuration stays but is
/// marked inactive.
pub fn remove_token(config: &mut TokenConfig) -> (event: TokenRemoved)
    ensures
        *final(config) == (TokenConfig { is_active: false, ..*old(config) }),
        event == (TokenRemoved { token_mint: old(config).token_mint }),
{
    config.is_active = false;
    TokenRemoved { token_mint: config.token_mint }
}

} // verus!
