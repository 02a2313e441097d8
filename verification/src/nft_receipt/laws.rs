use vstd::prelude::*;
use crate::pubkey::Pubkey;
use crate::nft_receipt::error::NFTError;
use crate::nft_receipt::instructions::{batch_mint_error, may_burn, may_mint, mint_error};
use crate::nft_receipt::state::{ProgramState, Receipt, MAX_BATCH_MINT};

verus! {

/// While the receipt program is paused nothing is minted, singly or in a
/// batch.
pub proof fn law_paused_program_mints_nothing(
    state: ProgramState,
    minter: Pubkey,
    escrow_id: Seq<char>,
    name: Seq<char>,
    uri: Seq<char>,
    ids: nat,
    names: nat,
    uris: nat,
)
    requires
        state.is_paused,
    ensures
        mint_error(state, minter, escrow_id, name, uri) == Some(NFTError::ProgramPaused),
        batch_mint_error(state, ids, names, uris) == Some(NFTError::ProgramPaused),
{
}

/// Only the authority or the escrow program can mint a receipt.
pub proof fn law_only_authorized_minters(
    state: ProgramState,
    minter: Pubkey,
    escrow_id: Seq<char>,
    name: Seq<char>,
    uri: Seq<char>,
)
    ensures
        mint_error(state, minter, escrow_id, name, uri) is None ==> may_mint(state, minter),
        !may_mint(state, minter) ==> mint_error(state, minter, escrow_id, name, uri) is Some,
{
}

/// An accepted batch has matching lists of at most five entries.
pub proof fn law_batch_is_bounded(state: ProgramState, ids: nat, names: nat, uris: nat)
    ensures
        batch_mint_error(state, ids, names, uris) is None ==> ids == names && names == uris && ids
            <= MAX_BATCH_MINT,
{
}

/// The holder a receipt was minted to, the authority and the escrow program
/// may always burn it.
pub proof fn law_burners(state: ProgramState, receipt: Receipt)
    ensures
        may_burn(state, receipt, receipt.owner),
        may_burn(state, receipt, state.authority),
        may_burn(state, receipt, state.escrow_program),
{
}

} // verus!
