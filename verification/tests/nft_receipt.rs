use ticketdaddy::constraints::ConstraintError;
use ticketdaddy::nft_receipt::accounts::{check_authority, check_burn_accounts};
use ticketdaddy::nft_receipt::error::NFTError;
use ticketdaddy::nft_receipt::events::{BatchMintInitiated, EscrowProgramUpdated, ProgramInitialized, ReceiptBurned};
use ticketdaddy::nft_receipt::instructions::{
    batch_mint_fits_for, batch_mint_receipts, burn_receipt, initialize, mint_fits_for, mint_receipt, pause, transfer_authority, unpause,
    update_escrow_program,
};
use ticketdaddy::nft_receipt::state::{Collection, Creator, ProgramState, Receipt, COLLECTION_SYMBOL};
use ticketdaddy::pubkey::Pubkey;

fn key(n: u8) -> Pubkey {
    Pubkey::new_from_array([n; 32])
}

fn state() -> ProgramState {
    let mut s = initialize(key(1), key(30), "TicketDaddy Receipts".to_string(), "TDRECEIPT".to_string(), "ipfs://c".to_string(), 250, 251)
        .unwrap()
        .0;
    update_escrow_program(&mut s, key(40));
    s
}

fn mint(s: &mut ProgramState, minter: Pubkey, id: &str) -> Result<(Receipt, ticketdaddy::nft_receipt::state::NftMintPlan, ticketdaddy::nft_receipt::events::NFTMinted), NFTError> {
    mint_receipt(s, minter, key(50), key(4), key(60), id.to_string(), "Receipt #1".to_string(), "ipfs://r".to_string(), 1_000, 9)
}

#[test]
fn nft_initialize_plans_collection() {
    let (s, plan, ev) =
        initialize(key(1), key(30), "TicketDaddy Receipts".to_string(), "TDRECEIPT".to_string(), "ipfs://c".to_string(), 250, 251)
            .unwrap();
    assert_eq!(s.authority, key(1));
    assert_eq!(s.escrow_program, Pubkey::default());
    assert_eq!(s.collection_mint, key(30));
    assert_eq!(s.total_minted, 0);
    assert!(!s.is_paused);
    assert_eq!((s.bump, s.collection_bump), (250, 251));
    assert_eq!(ev, ProgramInitialized { authority: key(1), collection_mint: key(30) });
    assert_eq!(plan.mint_amount, 1);
    assert_eq!(plan.data.name, "TicketDaddy Receipts");
    assert_eq!(plan.data.symbol, "TDRECEIPT");
    assert_eq!(plan.data.uri, "ipfs://c");
    assert_eq!(plan.data.seller_fee_basis_points, 250);
    assert_eq!(plan.data.creators, vec![Creator { address: key(1), verified: true, share: 100 }]);
    assert_eq!(plan.data.collection, None);
    assert!(plan.is_mutable && plan.update_authority_is_signer);
    assert_eq!(plan.max_supply, Some(0));
}

#[test]
fn nft_initialize_length_limits() {
    let ok = |n: usize, sy: usize, u: usize| initialize(key(1), key(2), "n".repeat(n), "s".repeat(sy), "u".repeat(u), 0, 0);
    assert!(ok(32, 10, 256).is_ok());
    assert_eq!(ok(33, 10, 256).unwrap_err(), NFTError::NameTooLong);
    assert_eq!(ok(32, 11, 256).unwrap_err(), NFTError::SymbolTooLong);
    assert_eq!(ok(32, 10, 257).unwrap_err(), NFTError::URITooLong);
}

#[test]
fn mint_receipt_numbers_and_plans() {
    let mut s = state();
    let (receipt, plan, ev) = mint(&mut s, key(1), "esc-1").unwrap();
    assert_eq!(receipt, Receipt { escrow_id: "esc-1".to_string(), mint: key(50), owner: key(4), minted_at: 1_000, bump: 9 });
    assert_eq!(plan.mint_amount, 1);
    assert_eq!(plan.data.name, "Receipt #1");
    assert_eq!(plan.data.symbol, COLLECTION_SYMBOL);
    assert_eq!(plan.data.uri, "ipfs://r");
    assert_eq!(plan.data.seller_fee_basis_points, 250);
    assert_eq!(plan.data.creators, vec![Creator { address: key(60), verified: true, share: 100 }]);
    assert_eq!(plan.data.collection, Some(Collection { verified: false, key: key(30) }));
    assert_eq!(plan.max_supply, Some(0));
    assert_eq!(ev.token_id, 1);
    assert_eq!(ev.escrow_id, "esc-1");
    assert_eq!((ev.mint, ev.recipient), (key(50), key(4)));
    assert_eq!(ev.uri, "ipfs://r");
    let (_, _, ev) = mint(&mut s, key(40), "esc-2").unwrap();
    assert_eq!(ev.token_id, 2);
    assert_eq!(s.total_minted, 2);
}

#[test]
fn mint_receipt_refusals() {
    let mut s = state();
    assert_eq!(mint(&mut s, key(9), "esc").unwrap_err(), NFTError::UnauthorizedMinter);
    assert_eq!(mint(&mut s, key(1), &"x".repeat(65)).unwrap_err(), NFTError::EscrowIdTooLong);
    let long_name = mint_receipt(&mut s, key(1), key(50), key(4), key(60), "e".to_string(), "n".repeat(33), "u".to_string(), 0, 0);
    assert_eq!(long_name.unwrap_err(), NFTError::NameTooLong);
    let long_uri = mint_receipt(&mut s, key(1), key(50), key(4), key(60), "e".to_string(), "n".to_string(), "u".repeat(257), 0, 0);
    assert_eq!(long_uri.unwrap_err(), NFTError::URITooLong);
    pause(&mut s);
    assert_eq!(mint(&mut s, key(1), "esc").unwrap_err(), NFTError::ProgramPaused);
    assert_eq!(s.total_minted, 0);
    unpause(&mut s);
    assert!(mint(&mut s, key(1), "esc").is_ok());
}

#[test]
fn batch_mint_counts() {
    let mut s = state();
    let v = |n: usize| vec!["x".to_string(); n];
    assert_eq!(batch_mint_receipts(&mut s, key(1), v(2), v(3), v(2)).unwrap_err(), NFTError::ArrayLengthMismatch);
    assert_eq!(batch_mint_receipts(&mut s, key(1), v(6), v(6), v(6)).unwrap_err(), NFTError::BatchTooLarge);
    let ev = batch_mint_receipts(&mut s, key(1), v(5), v(5), v(5)).unwrap();
    assert_eq!(ev, BatchMintInitiated { count: 5, minter: key(1) });
    assert_eq!(s.total_minted, 5);
    pause(&mut s);
    assert_eq!(batch_mint_receipts(&mut s, key(1), v(1), v(1), v(1)).unwrap_err(), NFTError::ProgramPaused);
    assert_eq!(s.total_minted, 5);
}

#[test]
fn burn_authorization() {
    let mut s = state();
    let (receipt, _, _) = mint(&mut s, key(1), "esc-1").unwrap();
    let ev = burn_receipt(&s, &receipt, key(4)).unwrap();
    assert_eq!(ev, ReceiptBurned { escrow_id: "esc-1".to_string(), mint: key(50), burned_by: key(4) });
    assert!(burn_receipt(&s, &receipt, key(1)).is_ok());
    assert!(burn_receipt(&s, &receipt, key(40)).is_ok());
    assert_eq!(burn_receipt(&s, &receipt, key(9)).unwrap_err(), NFTError::UnauthorizedBurn);
    assert_eq!(check_burn_accounts(&receipt, key(50), key(50)), Ok(()));
    assert_eq!(check_burn_accounts(&receipt, key(51), key(50)), Err(ConstraintError::Raw));
    assert_eq!(check_burn_accounts(&receipt, key(50), key(51)), Err(ConstraintError::Raw));
}

#[test]
fn nft_admin_operations() {
    let mut s = state();
    let ev = update_escrow_program(&mut s, key(41));
    assert_eq!(ev, EscrowProgramUpdated { old_program: key(40), new_program: key(41) });
    assert_eq!(s.escrow_program, key(41));
    assert_eq!(check_authority(&s, key(1)), Ok(()));
    transfer_authority(&mut s, key(7));
    assert_eq!(s.authority, key(7));
    assert_eq!(check_authority(&s, key(1)), Err(ConstraintError::HasOne));
    pause(&mut s);
    assert!(s.is_paused);
    unpause(&mut s);
    assert!(!s.is_paused);
}

#[test]
fn mint_overflow_guards() {
    let mut s = state();
    s.total_minted = u64::MAX;
    let (id, n, u) = ("e".to_string(), "n".to_string(), "u".to_string());
    assert!(!mint_fits_for(&s, key(1), &id, &n, &u));
    assert!(mint_fits_for(&s, key(9), &id, &n, &u));
    assert!(!batch_mint_fits_for(&s, 1, 1, 1));
    assert!(batch_mint_fits_for(&s, 0, 0, 0));
    assert!(batch_mint_fits_for(&s, 1, 2, 1));
    pause(&mut s);
    assert!(mint_fits_for(&s, key(1), &id, &n, &u));
}
