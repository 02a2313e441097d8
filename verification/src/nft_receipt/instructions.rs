use vstd::prelude::*;
use crate::pubkey::Pubkey;
use crate::text::{byte_len, utf8_byte_len};
use crate::nft_receipt::error::NFTError;
use crate::nft_receipt::events::{
    BatchMintInitiated, EscrowProgramUpdated, NFTMinted, ProgramInitialized, ReceiptBurned,
};
use crate::nft_receipt::state::{
    Collection, Creator, MetadataData, NftMintPlan, ProgramState, Receipt, COLLECTION_SYMBOL,
    MAX_BATCH_MINT, MAX_ESCROW_ID_LEN, RECEIPT_TOKEN_AMOUNT, MAX_NAME_LEN, MAX_SYMBOL_LEN, MAX_URI_LEN,
    SELLER_FEE_BASIS_POINTS,
};

verus! {

/// How an NFT with the given metadata is minted: one token, mutable metadata
/// signed by its update authority, and a master edition that allows no
/// prints.
pub open spec fn spec_mint_plan(
    name: String,
    symbol: String,
    uri: String,
    creator: Pubkey,
    collection: Option<Collection>,
    plan: NftMintPlan,
) -> bool {
    &&& plan.mint_amount == RECEIPT_TOKEN_AMOUNT
    &&& plan.data.name == name
    &&& plan.data.symbol == symbol
    &&& plan.data.uri == uri
    &&& plan.data.seller_fee_basis_points == SELLER_FEE_BASIS_POINTS
    &&& plan.data.creators@ == seq![Creator { address: creator, verified: true, share: 100 }]
    &&& plan.data.collection == collection
    &&& plan.is_mutable
    &&& plan.update_authority_is_signer
    &&& plan.max_supply == Some(0u64)
}

/// The mint plan of an NFT whose sole, verified creator is `creator`.
fn mint_plan(
    name: String,
    symbol: String,
    uri: String,
    creator: Pubkey,
    collection: Option<Collection>,
) -> (plan: NftMintPlan)
    ensures
        spec_mint_plan(name, symbol, uri, creator, collection, plan),
{
    let mut creators: Vec<Creator> = Vec::new();
    creators.push(Creator { address: creator, verified: true, share: 100 });
    NftMintPlan {
        mint_amount: RECEIPT_TOKEN_AMOUNT,
        data: MetadataData {
            name,
            symbol,
            uri,
            seller_fee_basis_points: SELLER_FEE_BASIS_POINTS,
            creators,
            collection,
        },
        is_mutable: true,
        update_authority_is_signer: true,
        max_supply: Some(0),
    }
}

/// The collection NFT minted at initialization: it names the authority as
/// its creator and belongs to no collection itself.
fn _mint_collection_nft(authority: Pubkey, name: String, symbol: String, uri: String) -> (plan: NftMintPlan)
    ensures
        spec_mint_plan(name, symbol, uri, authority, None, plan),
{
    mint_plan(name, symbol, uri, authority, None)
}

/// The length checks of initialization, in order.
pub open spec fn initialize_error(name: Seq<char>, symbol: Seq<char>, uri: Seq<char>) -> Option<NFTError> {
    if byte_len(name) > MAX_NAME_LEN {
        Some(NFTError::NameTooLong)
    } else if byte_len(symbol) > MAX_SYMBOL_LEN {
        Some(NFTError::SymbolTooLong)
    } else if byte_len(uri) > MAX_URI_LEN {
        Some(NFTError::URITooLong)
    } else {
        None
    }
}

/// Sets up the receipt program and plans its collection NFT. The new state
/// has no escrow program yet (the zero key), nothing minted, and is not
/// paused.
pub fn initialize(
    authority: Pubkey,
    collection_mint: Pubkey,
    collection_name: String,
    collection_symbol: String,
    collection_uri: String,
    bump: u8,
    collection_bump: u8,
) -> (res: Result<(ProgramState, NftMintPlan, ProgramInitialized), NFTError>)
    ensures
        match res {
            Err(e) => initialize_error(collection_name@, collection_symbol@, collection_uri@) == Some(e),
            Ok((state, plan, event)) => {
                &&& initialize_error(collection_name@, collection_symbol@, collection_uri@) is None
                &&& state == ProgramState {
                    authority,
                    escrow_program: Pubkey::spec_zeroed(),
                    collection_mint,
                    total_minted: 0,
                    is_paused: false,
                    bump,
                    collection_bump,
                }
                &&& spec_mint_plan(
                    collection_name,
                    collection_symbol,
                    collection_uri,
                    authority,
                    None,
                    plan,
                )
                &&& event == ProgramInitialized { authority, collection_mint }
            },
        },
{
    if utf8_byte_len(&collection_name) > MAX_NAME_LEN {
        return Err(NFTError::NameTooLong);
    }
    if utf8_byte_len(&collection_symbol) > MAX_SYMBOL_LEN {
        return Err(NFTError::SymbolTooLong);
    }
    if utf8_byte_len(&collection_uri) > MAX_URI_LEN {
        return Err(NFTError::URITooLong);
    }
    let state = ProgramState {
        authority,
        escrow_program: Pubkey::default(),
        collection_mint,
        total_minted: 0,
        is_paused: false,
        bump,
        collection_bump,
    };
    let plan = _mint_collection_nft(authority, collection_name, collection_symbol, collection_uri);
    Ok((state, plan, ProgramInitialized { authority, collection_mint }))
}

/// Who may mint receipts: the authority or the escrow program.
pub open spec fn may_mint(state: ProgramState, minter: Pubkey) -> bool {
    minter == state.authority || minter == state.escrow_program
}

/// The checks of minting a receipt, in order.
pub open spec fn mint_error(
    state: ProgramState,
    minter: Pubkey,
    escrow_id: Seq<char>,
    name: Seq<char>,
    uri: Seq<char>,
) -> Option<NFTError> {
    if state.is_paused {
        Some(NFTError::ProgramPaused)
    } else if byte_len(escrow_id) > MAX_ESCROW_ID_LEN {
        Some(NFTError::EscrowIdTooLong)
    } else if byte_len(name) > MAX_NAME_LEN {
        Some(NFTError::NameTooLong)
    } else if byte_len(uri) > MAX_URI_LEN {
        Some(NFTError::URITooLong)
    } else if !may_mint(state, minter) {
        Some(NFTError::UnauthorizedMinter)
    } else {
        None
    }
}

/// The inputs on which minting a receipt runs without overflow: the count
/// is raised only once every check has passed.
pub open spec fn mint_fits(
    state: ProgramState,
    minter: Pubkey,
    escrow_id: Seq<char>,
    name: Seq<char>,
    uri: Seq<char>,
) -> bool {
    mint_error(state, minter, escrow_id, name, uri) is None ==> state.total_minted + 1 <= u64::MAX
}

/// Whether `mint_receipt` may run on these inputs.
pub fn mint_fits_for(
    state: &ProgramState,
    minter: Pubkey,
    escrow_id: &String,
    name: &String,
    uri: &String,
) -> (ok: bool)
    ensures
        ok == mint_fits(*state, minter, escrow_id@, name@, uri@),
{
    let passes = !state.is_paused && utf8_byte_len(escrow_id) <= MAX_ESCROW_ID_LEN && utf8_byte_len(name)
        <= MAX_NAME_LEN && utf8_byte_len(uri) <= MAX_URI_LEN && (minter == state.authority || minter
        == state.escrow_program);
    !passes || state.total_minted < u64::MAX
}

/// Mints the receipt NFT of an escrow to `recipient`: records the receipt,
/// plans the NFT (one token, the collection symbol, `mint_authority` as sole
/// creator, claimed but unverified membership of the collection), counts it,
/// and numbers it with the new count.
pub fn mint_receipt(
    state: &mut ProgramState,
    minter: Pubkey,
    mint: Pubkey,
    recipient: Pubkey,
    mint_authority: Pubkey,
    escrow_id: String,
    name: String,
    uri: String,
    now: i64,
    bump: u8,
) -> (res: Result<(Receipt, NftMintPlan, NFTMinted), NFTError>)
    requires
        mint_fits(*old(state), minter, escrow_id@, name@, uri@),
    ensures
        match res {
            Err(e) => {
                &&& mint_error(*old(state), minter, escrow_id@, name@, uri@) == Some(e)
                &&& *final(state) == *old(state)
            },
            Ok((receipt, plan, event)) => {
                &&& mint_error(*old(state), minter, escrow_id@, name@, uri@) is None
                &&& *final(state) == ProgramState {
                    total_minted: (old(state).total_minted + 1) as u64,
                    ..*old(state)
                }
                &&& receipt == Receipt { escrow_id, mint, owner: recipient, minted_at: now, bump }
                &&& plan.data.symbol@ == COLLECTION_SYMBOL@
                &&& spec_mint_plan(
                    name,
                    plan.data.symbol,
                    uri,
                    mint_authority,
                    Some(Collection { verified: false, key: old(state).collection_mint }),
                    plan,
                )
                &&& event == NFTMinted {
                    escrow_id,
                    mint,
                    recipient,
                    uri,
                    token_id: final(state).total_minted,
                }
            },
        },
{
    if state.is_paused {
        return Err(NFTError::ProgramPaused);
    }
    if utf8_byte_len(&escrow_id) > MAX_ESCROW_ID_LEN {
        return Err(NFTError::EscrowIdTooLong);
    }
    if utf8_byte_len(&name) > MAX_NAME_LEN {
        return Err(NFTError::NameTooLong);
    }
    if utf8_byte_len(&uri) > MAX_URI_LEN {
        return Err(NFTError::URITooLong);
    }
    if !(minter == state.authority || minter == state.escrow_program) {
        return Err(NFTError::UnauthorizedMinter);
    }
    let receipt = Receipt { escrow_id: escrow_id.clone(), mint, owner: recipient, minted_at: now, bump };
    let symbol = COLLECTION_SYMBOL.to_owned();
    let plan = mint_plan(
        name,
        symbol,
        uri.clone(),
        mint_authority,
        Some(Collection { verified: false, key: state.collection_mint }),
    );
    state.total_minted = state.total_minted + 1;
    let event = NFTMinted { escrow_id, mint, recipient, uri, token_id: state.total_minted };
    Ok((receipt, plan, event))
}

/// The checks of a batch mint, in order.
pub open spec fn batch_mint_error(state: ProgramState, ids: nat, names: nat, uris: nat) -> Option<NFTError> {
    if state.is_paused {
        Some(NFTError::ProgramPaused)
    } else if !(ids == names && names == uris) {
        Some(NFTError::ArrayLengthMismatch)
    } else if ids > MAX_BATCH_MINT {
        Some(NFTError::BatchTooLarge)
    } else {
        None
    }
}

/// The inputs on which a batch mint runs without overflow.
pub open spec fn batch_mint_fits(state: ProgramState, ids: nat, names: nat, uris: nat) -> bool {
    batch_mint_error(state, ids, names, uris) is None ==> state.total_minted + ids <= u64::MAX
}

/// Whether `batch_mint_receipts` may run on lists of these lengths.
pub fn batch_mint_fits_for(state: &ProgramState, ids: usize, names: usize, uris: usize) -> (ok: bool)
    ensures
        ok == batch_mint_fits(*state, ids as nat, names as nat, uris as nat),
{
    let passes = !state.is_paused && ids == names && names == uris && ids <= MAX_BATCH_MINT;
    !passes || (state.total_minted as u128) + (ids as u128) <= (u64::MAX as u128)
}

/// Accepts a batch of at most five receipts, given as matching lists of
/// escrow ids, names and URIs, and counts them as minted.
pub fn batch_mint_receipts(
    state: &mut ProgramState,
    minter: Pubkey,
    escrow_ids: Vec<String>,
    names: Vec<String>,
    uris: Vec<String>,
) -> (res: Result<BatchMintInitiated, NFTError>)
    requires
        batch_mint_fits(*old(state), escrow_ids@.len(), names@.len(), uris@.len()),
    ensures
        match res {
            Err(e) => {
                &&& batch_mint_error(*old(state), escrow_ids@.len(), names@.len(), uris@.len()) == Some(e)
                &&& *final(state) == *old(state)
            },
            Ok(event) => {
                &&& batch_mint_error(*old(state), escrow_ids@.len(), names@.len(), uris@.len()) is None
                &&& *final(state) == ProgramState {
                    total_minted: (old(state).total_minted + escrow_ids@.len()) as u64,
                    ..*old(state)
                }
                &&& event == BatchMintInitiated { count: escrow_ids@.len() as u64, minter }
            },
        },
{
    if state.is_paused {
        return Err(NFTError::ProgramPaused);
    }
    if !(escrow_ids.len() == names.len() && names.len() == uris.len()) {
        return Err(NFTError::ArrayLengthMismatch);
    }
    if escrow_ids.len() > MAX_BATCH_MINT {
        return Err(NFTError::BatchTooLarge);
    }
    let count = escrow_ids.len() as u64;
    state.total_minted = state.total_minted + count;
    Ok(BatchMintInitiated { count, minter })
}

/// Who may burn a receipt: the authority, the escrow program, or the
/// receipt's owner.
pub open spec fn may_burn(state: ProgramState, receipt: Receipt, caller: Pubkey) -> bool {
    caller == state.authority || caller == state.escrow_program || caller == receipt.owner
}

/// Burning a receipt NFT: allowed for those who may burn it; the caller then
/// burns its `RECEIPT_TOKEN_AMOUNT` token and closes the receipt record.
pub fn burn_receipt(state: &ProgramState, receipt: &Receipt, caller: Pubkey) -> (res: Result<ReceiptBurned, NFTError>)
    ensures
        res == (if may_burn(*state, *receipt, caller) {
            Ok::<ReceiptBurned, NFTError>(
                ReceiptBurned { escrow_id: receipt.escrow_id, mint: receipt.mint, burned_by: caller },
            )
        } else {
            Err::<ReceiptBurned, NFTError>(NFTError::UnauthorizedBurn)
        }),
{
    if !(caller == state.authority || caller == state.escrow_program || caller == receipt.owner) {
        return Err(NFTError::UnauthorizedBurn);
    }
    Ok(ReceiptBurned { escrow_id: receipt.escrow_id.clone(), mint: receipt.mint, burned_by: caller })
}

/// Sets the escrow program allowed to mint; this always succeeds.
pub fn update_escrow_program(state: &mut ProgramState, escrow_program: Pubkey) -> (event: EscrowProgramUpdated)
    ensures
        *final(state) == (ProgramState { escrow_program, ..*old(state) }),
        event == (EscrowProgramUpdated { old_program: old(state).escrow_program, new_program: escrow_program }),
{
    let old_program = state.escrow_program;
    state.escrow_program = escrow_program;
    EscrowProgramUpdated { old_program, new_program: escrow_program }
}

/// Pauses the program.
pub fn pause(state: &mut ProgramState)
    ensures
        *final(state) == (ProgramState { is_paused: true, ..*old(state) }),
{
    state.is_paused = true;
}

/// Unpauses the program.
pub fn unpause(state: &mut ProgramState)
    ensures
        *final(state) == (ProgramState { is_paused: false, ..*old(state) }),
{
    state.is_paused = false;
}

/// Hands the program's authority to a new key.
pub fn transfer_authority(state: &mut ProgramState, new_authority: Pubkey)
    ensures
        *final(state) == (ProgramState { authority: new_authority, ..*old(state) }),
{
    state.authority = new_authority;
}

} // verus!
