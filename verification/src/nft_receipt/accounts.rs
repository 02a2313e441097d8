use vstd::prelude::*;
use crate::pubkey::Pubkey;
use crate::constraints::ConstraintError;
use crate::nft_receipt::state::{ProgramState, Receipt};

verus! {

/// The admin gate of the receipt program: the signer must be the program
/// state's authority.
pub fn check_authority(state: &ProgramState, signer: Pubkey) -> (res: Result<(), ConstraintError>)
    ensures
        res == (if signer == state.authority {
            Ok::<(), ConstraintError>(())
        } else {
            Err::<(), ConstraintError>(ConstraintError::HasOne)
        }),
{
    if state.authority == signer {
        Ok(())
    } else {
        Err(ConstraintError::HasOne)
    }
}

/// The accounts of a burn: the mint and the token account must be those of
/// the receipt's NFT.
pub fn check_burn_accounts(receipt: &Receipt, receipt_mint: Pubkey, token_account_mint: Pubkey) -> (res: Result<(), ConstraintError>)
    ensures
        res == (if receipt_mint == receipt.mint && token_account_mint == receipt.mint {
            Ok::<(), ConstraintError>(())
        } else {
            Err::<(), ConstraintError>(ConstraintError::Raw)
        }),
{
    if receipt_mint != receipt.mint {
        return Err(ConstraintError::Raw);
    }
    if token_account_mint != receipt.mint {
        return Err(ConstraintError::Raw);
    }
    Ok(())
}

} // verus!
