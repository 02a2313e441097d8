//! What each receipt instruction accepts and what it does, stated directly
//! in terms of its inputs and results (limits written out as numbers).

use vstd::prelude::*;
use crate::pubkey::Pubkey;
use crate::text::byte_len;
use crate::nft_receipt::error::NFTError;
use crate::nft_receipt::instructions::{
    batch_mint_error, initialize_error, may_burn, may_mint, mint_error, spec_mint_plan,
};
use crate::nft_receipt::state::{Collection, Creator, NftMintPlan, ProgramState, Receipt};

verus! {

/// Initialization accepts exactly a collection name of at most 32 bytes, a
/// symbol of at most 10 and a URI of at most 256, checked in that order.
pub proof fn rule_initialize_limits(name: Seq<char>, symbol: Seq<char>, uri: Seq<char>)
    ensures
        initialize_error(name, symbol, uri) is None <==> byte_len(name) <= 32 && byte_len(symbol) <= 10
            && byte_len(uri) <= 256,
        byte_len(name) > 32 ==> initialize_error(name, symbol, uri) == Some(NFTError::NameTooLong),
        byte_len(name) <= 32 && byte_len(symbol) > 10 ==> initialize_error(name, symbol, uri) == Some(
            NFTError::SymbolTooLong,
        ),
        byte_len(name) <= 32 && byte_len(symbol) <= 10 && byte_len(uri) > 256 ==> initialize_error(
            name,
            symbol,
            uri,
        ) == Some(NFTError::URITooLong),
{
}

/// Minting a receipt is accepted exactly when the program is not paused,
/// the escrow id has at most 64 bytes, the name at most 32, the URI at most
/// 256, and the minter is the authority or the escrow program; the checks
/// come in that order, each with its own error.
pub proof fn rule_mint_accepts(
    state: ProgramState,
    minter: Pubkey,
    escrow_id: Seq<char>,
    name: Seq<char>,
    uri: Seq<char>,
)
    ensures
        mint_error(state, minter, escrow_id, name, uri) is None <==> {
            &&& !state.is_paused
            &&& byte_len(escrow_id) <= 64
            &&& byte_len(name) <= 32
            &&& byte_len(uri) <= 256
            &&& (minter == state.authority || minter == state.escrow_program)
        },
        state.is_paused ==> mint_error(state, minter, escrow_id, name, uri) == Some(NFTError::ProgramPaused),
        !state.is_paused && byte_len(escrow_id) > 64 ==> mint_error(state, minter, escrow_id, name, uri)
            == Some(NFTError::EscrowIdTooLong),
        !state.is_paused && byte_len(escrow_id) <= 64 && byte_len(name) > 32 ==> mint_error(
            state,
            minter,
            escrow_id,
            name,
            uri,
        ) == Some(NFTError::NameTooLong),
        !state.is_paused && byte_len(escrow_id) <= 64 && byte_len(name) <= 32 && byte_len(uri) > 256
            ==> mint_error(state, minter, escrow_id, name, uri) == Some(NFTError::URITooLong),
        !state.is_paused && byte_len(escrow_id) <= 64 && byte_len(name) <= 32 && byte_len(uri) <= 256
            && !(minter == state.authority || minter == state.escrow_program) ==> mint_error(
            state,
            minter,
            escrow_id,
            name,
            uri,
        ) == Some(NFTError::UnauthorizedMinter),
        may_mint(state, minter) <==> (minter == state.authority || minter == state.escrow_program),
{
}

/// A batch is accepted exactly when the program is not paused and the three
/// lists have one length of at most 5.
pub proof fn rule_batch_accepts(state: ProgramState, ids: nat, names: nat, uris: nat)
    ensures
        batch_mint_error(state, ids, names, uris) is None <==> !state.is_paused && ids == names && names
            == uris && ids <= 5,
        state.is_paused ==> batch_mint_error(state, ids, names, uris) == Some(NFTError::ProgramPaused),
        !state.is_paused && !(ids == names && names == uris) ==> batch_mint_error(state, ids, names, uris)
            == Some(NFTError::ArrayLengthMismatch),
        !state.is_paused && ids == names && names == uris && ids > 5 ==> batch_mint_error(
            state,
            ids,
            names,
            uris,
        ) == Some(NFTError::BatchTooLarge),
{
}

/// Exactly the authority, the escrow program and the receipt's holder may
/// burn a receipt.
pub proof fn rule_burners(state: ProgramState, receipt: Receipt, caller: Pubkey)
    ensures
        may_burn(state, receipt, caller) <==> (caller == state.authority || caller == state.escrow_program
            || caller == receipt.owner),
{
}

/// Every planned NFT is one token with the given name, symbol and URI, a
/// 2.5% (250 basis points) seller fee, the given key as its sole verified
/// creator with the whole share, mutable metadata signed by its update
/// authority, and a master edition that allows no prints.
pub proof fn rule_mint_plan(
    name: String,
    symbol: String,
    uri: String,
    creator: Pubkey,
    collection: Option<Collection>,
    plan: NftMintPlan,
)
    requires
        spec_mint_plan(name, symbol, uri, creator, collection, plan),
    ensures
        plan.mint_amount == 1,
        plan.data.name == name,
        plan.data.symbol == symbol,
        plan.data.uri == uri,
        plan.data.seller_fee_basis_points == 250,
        plan.data.creators@.len() == 1,
        plan.data.creators@[0] == (Creator { address: creator, verified: true, share: 100 }),
        plan.data.collection == collection,
        plan.is_mutable,
        plan.update_authority_is_signer,
        plan.max_supply == Some(0u64),
{
}

} // verus!
