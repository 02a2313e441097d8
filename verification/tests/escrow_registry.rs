use ticketdaddy::escrow::accounts::{check_authority, check_refund_spl_accounts};
use ticketdaddy::escrow::admin::{
    initialize, pause, remove_token, set_product_type_fee, transfer_authority, unpause,
    update_escrow_duration, update_nft_program, update_platform_wallet, whitelist_token,
};
use ticketdaddy::escrow::error::EscrowError;
use ticketdaddy::escrow::events::{
    BusinessNFTDisabled, BusinessNFTEnabled, BusinessNFTToggled, NFTContractUpdated,
    ProductTypeFeeUpdated, ProgramInitialized, TokenRemoved, TokenWhitelisted,
};
use ticketdaddy::escrow::registry::{
    activate_business, register_business, set_business_nft_enabled, suspend_business,
    update_business_wallet,
};
use ticketdaddy::escrow::state::{
    native_sol, Business, BusinessStatus, Escrow, ProductType, ProgramState, TransactionStatus,
    MAX_ESCROW_DURATION, MIN_ESCROW_DURATION,
};
use ticketdaddy::constraints::ConstraintError;
use ticketdaddy::pubkey::Pubkey;

fn key(n: u8) -> Pubkey {
    Pubkey::new_from_array([n; 32])
}

fn fresh_state() -> ProgramState {
    initialize(key(1), key(2), 172_800, 255).unwrap().0
}

fn business() -> Business {
    register_business(&fresh_state(), key(3), "biz-1".to_string(), "Kigali Jazz".to_string(), 1_000, 7)
        .unwrap()
        .0
}

#[test]
fn initialize_sets_up_state() {
    let (state, event) = initialize(key(1), key(2), 172_800, 254).unwrap();
    assert_eq!(state.authority, key(1));
    assert_eq!(state.platform_wallet, key(2));
    assert_eq!(state.escrow_duration, 172_800);
    assert_eq!(state.nft_program, Pubkey::default());
    assert_eq!(state.nft_program.to_bytes(), [0u8; 32]);
    assert_eq!(state.total_escrows, 0);
    assert_eq!(state.total_volume, 0);
    assert!(!state.is_paused);
    assert_eq!(state.bump, 254);
    assert_eq!(state.product_type_fees, [0u64; 9]);
    assert_eq!(event, ProgramInitialized { authority: key(1), platform_wallet: key(2), escrow_duration: 172_800 });
}

#[test]
fn initialize_duration_bounds() {
    assert!(initialize(key(1), key(2), MIN_ESCROW_DURATION, 0).is_ok());
    assert!(initialize(key(1), key(2), MAX_ESCROW_DURATION, 0).is_ok());
    assert_eq!(MAX_ESCROW_DURATION, 2_592_000);
    assert_eq!(initialize(key(1), key(2), 599, 0).unwrap_err(), EscrowError::InvalidEscrowDuration);
    assert_eq!(initialize(key(1), key(2), 2_592_001, 0).unwrap_err(), EscrowError::InvalidEscrowDuration);
    assert_eq!(initialize(key(1), key(2), -600, 0).unwrap_err(), EscrowError::InvalidEscrowDuration);
}

#[test]
fn register_business_creates_active_business() {
    let (b, event) =
        register_business(&fresh_state(), key(3), "biz-1".to_string(), "Kigali Jazz".to_string(), 1_000, 7).unwrap();
    assert_eq!(b.business_id, "biz-1");
    assert_eq!(b.wallet_address, key(3));
    assert_eq!(b.business_name, "Kigali Jazz");
    assert_eq!(b.status, BusinessStatus::Active);
    assert_eq!(b.registration_date, 1_000);
    assert_eq!(b.total_transactions, 0);
    assert_eq!(b.total_volume, 0);
    assert!(b.nft_enabled);
    assert_eq!(b.bump, 7);
    assert_eq!(event.business_id, "biz-1");
    assert_eq!(event.wallet_address, key(3));
    assert_eq!(event.business_name, "Kigali Jazz");
}

#[test]
fn register_business_length_limits_count_bytes() {
    let s = fresh_state();
    assert!(register_business(&s, key(3), "a".repeat(64), "n".to_string(), 0, 0).is_ok());
    assert_eq!(
        register_business(&s, key(3), "a".repeat(65), "n".to_string(), 0, 0).unwrap_err(),
        EscrowError::BusinessIdTooLong
    );
    // 33 two-byte characters are 66 bytes.
    assert_eq!(
        register_business(&s, key(3), "é".repeat(33), "n".to_string(), 0, 0).unwrap_err(),
        EscrowError::BusinessIdTooLong
    );
    assert!(register_business(&s, key(3), "id".to_string(), "b".repeat(128), 0, 0).is_ok());
    assert_eq!(
        register_business(&s, key(3), "id".to_string(), "b".repeat(129), 0, 0).unwrap_err(),
        EscrowError::BusinessNameTooLong
    );
}

#[test]
fn register_business_refused_while_paused() {
    let mut s = fresh_state();
    pause(&mut s);
    assert_eq!(
        register_business(&s, key(3), "id".to_string(), "n".to_string(), 0, 0).unwrap_err(),
        EscrowError::ProgramPaused
    );
    // the length checks come first
    assert_eq!(
        register_business(&s, key(3), "a".repeat(65), "n".to_string(), 0, 0).unwrap_err(),
        EscrowError::BusinessIdTooLong
    );
}

#[test]
fn business_wallet_update() {
    let mut b = business();
    let before = b.clone();
    assert_eq!(update_business_wallet(&mut b, key(3)).unwrap_err(), EscrowError::SameWalletAddress);
    assert_eq!(b, before);
    let event = update_business_wallet(&mut b, key(9)).unwrap();
    assert_eq!(b.wallet_address, key(9));
    assert_eq!(event.old_wallet, key(3));
    assert_eq!(event.new_wallet, key(9));
    assert_eq!(event.business_id, "biz-1");
}

#[test]
fn suspend_and_activate_business() {
    let mut b = business();
    let original = b.clone();
    assert_eq!(activate_business(&mut b, key(1)).unwrap_err(), EscrowError::BusinessNotSuspended);
    let e = suspend_business(&mut b, key(1)).unwrap();
    assert_eq!(e.suspended_by, key(1));
    assert_eq!(b.status, BusinessStatus::Suspended);
    assert_eq!(suspend_business(&mut b, key(1)).unwrap_err(), EscrowError::BusinessAlreadySuspended);
    let e = activate_business(&mut b, key(4)).unwrap();
    assert_eq!(e.activated_by, key(4));
    assert_eq!(e.business_id, "biz-1");
    assert_eq!(b, original);
}

#[test]
fn pending_business_can_be_suspended() {
    let mut b = business();
    b.status = BusinessStatus::Pending;
    assert!(suspend_business(&mut b, key(1)).is_ok());
    assert_eq!(b.status, BusinessStatus::Suspended);
}

#[test]
fn nft_receipts_toggle() {
    let mut b = business();
    let e = set_business_nft_enabled(&mut b, false, key(1));
    assert!(!b.nft_enabled);
    assert_eq!(
        e,
        BusinessNFTToggled::Disabled(BusinessNFTDisabled { business_id: "biz-1".to_string(), updated_by: key(1) })
    );
    let e = set_business_nft_enabled(&mut b, true, key(1));
    assert!(b.nft_enabled);
    assert_eq!(
        e,
        BusinessNFTToggled::Enabled(BusinessNFTEnabled { business_id: "biz-1".to_string(), updated_by: key(1) })
    );
}

#[test]
fn product_type_fee_setting() {
    let mut s = fresh_state();
    let e = set_product_type_fee(&mut s, 2, 1_000).unwrap();
    assert_eq!(e, ProductTypeFeeUpdated { product_type: 2, old_fee: 0, new_fee: 1_000 });
    assert_eq!(s.product_type_fees, [0, 0, 1_000, 0, 0, 0, 0, 0, 0]);
    let e = set_product_type_fee(&mut s, 2, 5_000).unwrap();
    assert_eq!(e.old_fee, 1_000);
    let before = s;
    assert_eq!(set_product_type_fee(&mut s, 9, 100).unwrap_err(), EscrowError::InvalidProductType);
    assert_eq!(set_product_type_fee(&mut s, 8, 5_001).unwrap_err(), EscrowError::InvalidProductTypeFee);
    assert_eq!(s, before);
    assert!(set_product_type_fee(&mut s, 8, 0).is_ok());
}

#[test]
fn escrow_duration_update() {
    let mut s = fresh_state();
    let e = update_escrow_duration(&mut s, 3_600).unwrap();
    assert_eq!((e.old_duration, e.new_duration), (172_800, 3_600));
    assert_eq!(s.escrow_duration, 3_600);
    assert_eq!(update_escrow_duration(&mut s, 10).unwrap_err(), EscrowError::InvalidEscrowDuration);
    assert_eq!(s.escrow_duration, 3_600);
}

#[test]
fn platform_wallet_update() {
    let mut s = fresh_state();
    assert_eq!(update_platform_wallet(&mut s, key(2)).unwrap_err(), EscrowError::SameWalletAddress);
    let e = update_platform_wallet(&mut s, key(8)).unwrap();
    assert_eq!((e.old_wallet, e.new_wallet), (key(2), key(8)));
    assert_eq!(s.platform_wallet, key(8));
}

#[test]
fn nft_program_pause_and_authority() {
    let mut s = fresh_state();
    let e = update_nft_program(&mut s, key(6));
    assert_eq!(e, NFTContractUpdated { old_contract: Pubkey::default(), new_contract: key(6) });
    assert_eq!(s.nft_program, key(6));
    pause(&mut s);
    assert!(s.is_paused);
    unpause(&mut s);
    assert!(!s.is_paused);
    transfer_authority(&mut s, key(5));
    assert_eq!(s.authority, key(5));
    assert_eq!(check_authority(&s, key(5)), Ok(()));
    assert_eq!(check_authority(&s, key(1)), Err(ConstraintError::HasOne));
}

#[test]
fn token_whitelist() {
    let (mut cfg, e) = whitelist_token(key(7), 500, 6, "USDC".to_string(), 9);
    assert_eq!(cfg.token_mint, key(7));
    assert!(cfg.is_active);
    assert_eq!(cfg.min_amount, 500);
    assert_eq!(cfg.decimals, 6);
    assert_eq!(cfg.symbol, "USDC");
    assert_eq!(cfg.bump, 9);
    assert_eq!(e, TokenWhitelisted { token_mint: key(7), min_amount: 500, symbol: "USDC".to_string() });
    let e = remove_token(&mut cfg);
    assert!(!cfg.is_active);
    assert_eq!(cfg.symbol, "USDC");
    assert_eq!(e, TokenRemoved { token_mint: key(7) });
}

#[test]
fn refund_spl_account_checks() {
    let s = fresh_state();
    let escrow = Escrow {
        escrow_id: "e".to_string(),
        customer: key(4),
        business_id: "biz-1".to_string(),
        token_address: key(7),
        amount: 10,
        business_payout: 10,
        platform_fee: 0,
        status: TransactionStatus::Active,
        created_at: 0,
        release_at: 0,
        refunded_by: None,
        nft_token_id: None,
        nft_metadata_uri: None,
        bump: 0,
        product_type: 0,
        subscription_id: None,
    };
    assert_eq!(check_refund_spl_accounts(&s, key(1), key(20), &escrow, key(20), key(4)), Ok(()));
    assert_eq!(
        check_refund_spl_accounts(&s, key(9), key(20), &escrow, key(20), key(4)),
        Err(ConstraintError::HasOne)
    );
    assert_eq!(
        check_refund_spl_accounts(&s, key(1), key(20), &escrow, key(21), key(4)),
        Err(ConstraintError::Raw)
    );
    assert_eq!(
        check_refund_spl_accounts(&s, key(1), key(20), &escrow, key(20), key(5)),
        Err(ConstraintError::Raw)
    );
}

#[test]
fn product_type_indices() {
    assert_eq!(ProductType::General.index(), 0);
    assert_eq!(ProductType::Pass.index(), 8);
    assert_eq!(ProductType::from_index(5), Some(ProductType::PpvStream));
    assert_eq!(ProductType::from_index(9), None);
}

#[test]
fn pubkey_equality_and_native_marker() {
    assert_eq!(key(3), key(3));
    assert_ne!(key(3), key(4));
    let mut bytes = [3u8; 32];
    bytes[31] = 4;
    assert_ne!(Pubkey::new_from_array(bytes), key(3));
    assert_eq!(Pubkey::new_from_array(bytes).to_bytes(), bytes);
    assert_eq!(native_sol(), Pubkey::new_from_array([0u8; 32]));
}
