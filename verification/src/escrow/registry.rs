use vstd::prelude::*;
use crate::pubkey::Pubkey;
use crate::text::{byte_len, utf8_byte_len};
use crate::escrow::error::EscrowError;
use crate::escrow::events::{
    BusinessActivated, BusinessNFTDisabled, BusinessNFTEnabled, BusinessNFTToggled,
    BusinessRegistered, BusinessSuspended, BusinessWalletUpdated,
};
use crate::outcome::applied;
use crate::escrow::state::{
    Business, BusinessStatus, ProgramState, MAX_BUSINESS_ID_LEN, MAX_BUSINESS_NAME_LEN,
};

verus! {

/// Registering a business: the id and the name must fit their limits and
/// the program must not be paused; the new business is active, has NFT
/// receipts on, and no transactions yet.
pub open spec fn spec_register_business(
    state: ProgramState,
    business_wallet: Pubkey,
    business_id: String,
    business_name: String,
    now: i64,
    bump: u8,
) -> Result<(Business, BusinessRegistered), EscrowError> {
    if byte_len(business_id@) > MAX_BUSINESS_ID_LEN {
        Err(EscrowError::BusinessIdTooLong)
    } else if byte_len(business_name@) > MAX_BUSINESS_NAME_LEN {
        Err(EscrowError::BusinessNameTooLong)
    } else if state.is_paused {
        Err(EscrowError::ProgramPaused)
    } else {
        Ok(
            (
                Business {
                    business_id,
                    wallet_address: business_wallet,
                    business_name,
                    status: BusinessStatus::Active,
                    registration_date: now,
                    total_transactions: 0,
                    total_volume: 0,
                    nft_enabled: true,
                    bump,
                },
                BusinessRegistered { business_id, wallet_address: business_wallet, business_name },
            ),
        )
    }
}

/// Registers a new business with the given wallet.
pub fn register_business(
    state: &ProgramState,
    business_wallet: Pubkey,
    business_id: String,
    business_name: String,
    now: i64,
    bump: u8,
) -> (res: Result<(Business, BusinessRegistered), EscrowError>)
    ensures
        res == spec_register_business(*state, business_wallet, business_id, business_name, now, bump),
{
    if utf8_byte_len(&business_id) > MAX_BUSINESS_ID_LEN {
        return Err(EscrowError::BusinessIdTooLong);
    }
    if utf8_byte_len(&business_name) > MAX_BUSINESS_NAME_LEN {
        return Err(EscrowError::BusinessNameTooLong);
    }
    if state.is_paused {
        return Err(EscrowError::ProgramPaused);
    }
    let event = BusinessRegistered {
        business_id: business_id.clone(),
        wallet_address: business_wallet,
        business_name: business_name.clone(),
    };
    let business = Business {
        business_id,
        wallet_address: business_wallet,
        business_name,
        status: BusinessStatus::Active,
        registration_date: now,
        total_transactions: 0,
        total_volume: 0,
        nft_enabled: true,
        bump,
    };
    Ok((business, event))
}

/// Changing a business's wallet: the new wallet must differ from the old.
pub open spec fn spec_update_business_wallet(
    business: Business,
    new_wallet: Pubkey,
) -> Result<(Business, BusinessWalletUpdated), EscrowError> {
    if business.wallet_address == new_wallet {
        Err(EscrowError::SameWalletAddress)
    } else {
        Ok(
            (
                Business { wallet_address: new_wallet, ..business },
                BusinessWalletUpdated {
                    business_id: business.business_id,
                    old_wallet: business.wallet_address,
                    new_wallet,
                },
            ),
        )
    }
}

/// Points a business at a new wallet.
pub fn update_business_wallet(business: &mut Business, new_wallet: Pubkey) -> (res: Result<BusinessWalletUpdated, EscrowError>)
    ensures
        applied(*old(business), *final(business), res, spec_update_business_wallet(*old(business), new_wallet)),
{
    let old_wallet = business.wallet_address;
    if old_wallet == new_wallet {
        return Err(EscrowError::SameWalletAddress);
    }
    business.wallet_address = new_wallet;
    Ok(BusinessWalletUpdated { business_id: business.business_id.clone(), old_wallet, new_wallet })
}

/// Suspending a business: refused when it is already suspended.
pub open spec fn spec_suspend_business(business: Business, authority: Pubkey) -> Result<(Business, BusinessSuspended), EscrowError> {
    if business.status == BusinessStatus::Suspended {
        Err(EscrowError::BusinessAlreadySuspended)
    } else {
        Ok(
            (
                Business { status: BusinessStatus::Suspended, ..business },
                BusinessSuspended { business_id: business.business_id, suspended_by: authority },
            ),
        )
    }
}

/// Suspends a business; a suspended business cannot take new escrows.
pub fn suspend_business(business: &mut Business, authority: Pubkey) -> (res: Result<BusinessSuspended, EscrowError>)
    ensures
        applied(*old(business), *final(business), res, spec_suspend_business(*old(business), authority)),
{
    if business.status == BusinessStatus::Suspended {
        return Err(EscrowError::BusinessAlreadySuspended);
    }
    business.status = BusinessStatus::Suspended;
    Ok(BusinessSuspended { business_id: business.business_id.clone(), suspended_by: authority })
}

/// Activating a business: only a suspended business can be activated.
pub open spec fn spec_activate_business(business: Business, authority: Pubkey) -> Result<(Business, BusinessActivated), EscrowError> {
    if business.status != BusinessStatus::Suspended {
        Err(EscrowError::BusinessNotSuspended)
    } else {
        Ok(
            (
                Business { status: BusinessStatus::Active, ..business },
                BusinessActivated { business_id: business.business_id, activated_by: authority },
            ),
        )
    }
}

/// Activates a suspended business.
pub fn activate_business(business: &mut Business, authority: Pubkey) -> (res: Result<BusinessActivated, EscrowError>)
    ensures
        applied(*old(business), *final(business), res, spec_activate_business(*old(business), authority)),
{
    if business.status != BusinessStatus::Suspended {
        return Err(EscrowError::BusinessNotSuspended);
    }
    business.status = BusinessStatus::Active;
    Ok(BusinessActivated { business_id: business.business_id.clone(), activated_by: authority })
}

/// Switches NFT receipts on or off for a business; this always succeeds.
pub fn set_business_nft_enabled(business: &mut Business, enabled: bool, authority: Pubkey) -> (event: BusinessNFTToggled)
    ensures
        *final(business) == (Business { nft_enabled: enabled, ..*old(business) }),
        event == (if enabled {
            BusinessNFTToggled::Enabled(
                BusinessNFTEnabled { business_id: old(business).business_id, updated_by: authority },
            )
        } else {
            BusinessNFTToggled::Disabled(
                BusinessNFTDisabled { business_id: old(business).business_id, updated_by: authority },
            )
        }),
{
    business.nft_enabled = enabled;
    if enabled {
        BusinessNFTToggled::Enabled(
            BusinessNFTEnabled { business_id: business.business_id.clone(), updated_by: authority },
        )
    } else {
        BusinessNFTToggled::Disabled(
            BusinessNFTDisabled { business_id: business.business_id.clone(), updated_by: authority },
        )
    }
}

} // verus!
