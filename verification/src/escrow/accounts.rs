use vstd::prelude::*;
use crate::pubkey::Pubkey;
use crate::constraints::ConstraintError;
use crate::escrow::state::{Escrow, ProgramState};

verus! {

/// The admin gate of the escrow program: the signer must be the program
/// state's authority. Every admin-only instruction passes it first.
pub fn check_authority(state: &ProgramState, signer: Pubkey) -> (res: Result<(), ConstraintError>)
    ensures
        res == (if signer == state.authority {
            Ok::<(), ConstraintError>(())
        } else {
            Err::<(), ConstraintError>(ConstraintError::HasOne)
        }),
{
    if state.authority == signer {
        Ok(())
    } else {
        Err(ConstraintError::HasOne)
    }
}

/// The accounts of an SPL refund: the signer must be the authority, the
/// escrow's token account must belong to the escrow, and the receiving token
/// account must belong to the escrow's customer (checked in that order).
pub fn check_refund_spl_accounts(
    state: &ProgramState,
    signer: Pubkey,
    escrow_key: Pubkey,
    escrow: &Escrow,
    escrow_token_owner: Pubkey,
    customer_token_owner: Pubkey,
) -> (res: Result<(), ConstraintError>)
    ensures
        res == (if signer != state.authority {
            Err::<(), ConstraintError>(ConstraintError::HasOne)
        } else if escrow_token_owner != escrow_key || customer_token_owner != escrow.customer {
            Err::<(), ConstraintError>(ConstraintError::Raw)
        } else {
            Ok::<(), ConstraintError>(())
        }),
{
    check_authority(state, signer)?;
    if escrow_token_owner != escrow_key {
        return Err(ConstraintError::Raw);
    }
    if customer_token_owner != escrow.customer {
        return Err(ConstraintError::Raw);
    }
    Ok(())
}

} // verus!
