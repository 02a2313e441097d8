use ticketdaddy::escrow::admin::{initialize, pause, remove_token, set_product_type_fee, whitelist_token};
use ticketdaddy::escrow::create::{
    create_escrow_sol, create_escrow_sol_with_product_type, create_escrow_spl,
    create_escrow_spl_with_product_type,
};
use ticketdaddy::escrow::error::EscrowError;
use ticketdaddy::escrow::events::{EscrowCreated, FundsReleased, RefundProcessed};
use ticketdaddy::escrow::lifecycle::{
    admin_override_release_time, link_escrow_to_subscription, pause_transaction,
    process_refund_sol, process_refund_spl, release_funds_sol, release_funds_spl,
    override_fits_for, reschedule_fits_for, resume_transaction, update_escrow_release_time,
};
use ticketdaddy::escrow::registry::{register_business, suspend_business};
use ticketdaddy::escrow::state::{
    native_sol, Business, BusinessStatus, Escrow, ProgramState, TokenConfig, TransactionStatus,
    MAX_RELEASE_TIME,
};
use ticketdaddy::pubkey::Pubkey;

const NOW: i64 = 1_700_000_000;

fn key(n: u8) -> Pubkey {
    Pubkey::new_from_array([n; 32])
}

fn setup() -> (ProgramState, Business) {
    let state = initialize(key(1), key(2), 172_800, 255).unwrap().0;
    let business =
        register_business(&state, key(3), "biz-1".to_string(), "Kigali Jazz".to_string(), NOW, 7).unwrap().0;
    (state, business)
}

fn whitelisted(mint: Pubkey) -> Option<TokenConfig> {
    Some(whitelist_token(mint, 1_000_000, 6, "USDC".to_string(), 0).0)
}

fn open_spl_escrow(amount: u64) -> (ProgramState, Business, Escrow) {
    let (mut s, mut b) = setup();
    let (e, _) = create_escrow_spl(
        &mut s, &mut b, key(4), key(7), &whitelisted(key(7)), "esc-1".to_string(), "biz-1".to_string(), amount,
        None, None, 3, NOW,
    )
    .unwrap();
    (s, b, e)
}

fn open_escrow(amount: u64) -> (ProgramState, Business, Escrow) {
    let (mut s, mut b) = setup();
    let (e, _) =
        create_escrow_sol(&mut s, &mut b, key(4), "esc-1".to_string(), "biz-1".to_string(), amount, None, None, 3, NOW)
            .unwrap();
    (s, b, e)
}

#[test]
fn create_sol_escrow_splits_default_fee() {
    let (mut s, mut b) = setup();
    let (e, event) = create_escrow_sol(
        &mut s,
        &mut b,
        key(4),
        "esc-1".to_string(),
        "biz-1".to_string(),
        10_000_000,
        Some("ipfs://meta".to_string()),
        None,
        3,
        NOW,
    )
    .unwrap();
    assert_eq!(e.escrow_id, "esc-1");
    assert_eq!(e.customer, key(4));
    assert_eq!(e.business_id, "biz-1");
    assert_eq!(e.token_address, native_sol());
    assert_eq!(e.amount, 10_000_000);
    assert_eq!(e.platform_fee, 500_000);
    assert_eq!(e.business_payout, 9_500_000);
    assert_eq!(e.status, TransactionStatus::Active);
    assert_eq!(e.created_at, NOW);
    assert_eq!(e.release_at, NOW + 172_800);
    assert_eq!(e.refunded_by, None);
    assert_eq!(e.nft_token_id, None);
    assert_eq!(e.nft_metadata_uri, Some("ipfs://meta".to_string()));
    assert_eq!(e.bump, 3);
    assert_eq!(e.product_type, 0);
    assert_eq!(e.subscription_id, None);
    assert_eq!(
        event,
        EscrowCreated {
            escrow_id: "esc-1".to_string(),
            customer: key(4),
            business_id: "biz-1".to_string(),
            token_address: native_sol(),
            amount: 10_000_000,
        }
    );
    assert_eq!((s.total_escrows, s.total_volume), (1, 10_000_000));
    assert_eq!((b.total_transactions, b.total_volume), (1, 10_000_000));
}

#[test]
fn fee_rounds_down() {
    let (_, _, e) = open_escrow(1_000_001);
    assert_eq!(e.platform_fee, 50_000);
    assert_eq!(e.business_payout, 950_001);
    assert_eq!(e.platform_fee + e.business_payout, e.amount);
}

#[test]
fn create_spl_escrow_records_mint() {
    let (mut s, mut b) = setup();
    let (e, event) = create_escrow_spl(
        &mut s,
        &mut b,
        key(4),
        key(7),
        &whitelisted(key(7)),
        "esc-2".to_string(),
        "biz-1".to_string(),
        2_000_000,
        None,
        Some(NOW + 60),
        3,
        NOW,
    )
    .unwrap();
    assert_eq!(e.token_address, key(7));
    assert_eq!(event.token_address, key(7));
    assert_eq!(e.release_at, NOW + 60);
}

#[test]
fn create_refusals_leave_accounts_unchanged() {
    let (mut s, mut b) = setup();
    let (s0, b0) = (s, b.clone());
    let mk = |s: &mut ProgramState, b: &mut Business, id: String, amount: u64, custom: Option<i64>| {
        create_escrow_sol(s, b, key(4), id, "biz-1".to_string(), amount, None, custom, 3, NOW)
    };
    assert_eq!(mk(&mut s, &mut b, "a".repeat(65), 1_000_000, None).unwrap_err(), EscrowError::EscrowIdTooLong);
    assert_eq!(mk(&mut s, &mut b, "e".to_string(), 999_999, None).unwrap_err(), EscrowError::InsufficientAmount);
    assert_eq!(mk(&mut s, &mut b, "e".to_string(), 1_000_000, Some(NOW)).unwrap_err(), EscrowError::ReleaseTimeInPast);
    assert_eq!(
        mk(&mut s, &mut b, "e".to_string(), 1_000_000, Some(NOW + MAX_RELEASE_TIME + 1)).unwrap_err(),
        EscrowError::ReleaseTimeTooFar
    );
    assert_eq!(s, s0);
    assert_eq!(b, b0);
    assert!(mk(&mut s, &mut b, "e".to_string(), 1_000_000, Some(NOW + MAX_RELEASE_TIME)).is_ok());
}

#[test]
fn create_refused_for_suspended_business_and_paused_program() {
    let (mut s, mut b) = setup();
    suspend_business(&mut b, key(1)).unwrap();
    let r = create_escrow_sol(&mut s, &mut b, key(4), "e".to_string(), "biz-1".to_string(), 1_000_000, None, None, 0, NOW);
    assert_eq!(r.unwrap_err(), EscrowError::BusinessNotActive);
    b.status = BusinessStatus::Active;
    pause(&mut s);
    let r = create_escrow_sol(&mut s, &mut b, key(4), "e".to_string(), "biz-1".to_string(), 1_000_000, None, None, 0, NOW);
    assert_eq!(r.unwrap_err(), EscrowError::ProgramPaused);
    assert_eq!(s.total_escrows, 0);
}

#[test]
fn product_type_fee_applies() {
    let (mut s, mut b) = setup();
    set_product_type_fee(&mut s, 2, 1_000).unwrap();
    let (e, _) = create_escrow_sol_with_product_type(
        &mut s, &mut b, key(4), "e".to_string(), "biz-1".to_string(), 10_000_000, None, None, 0, NOW, 2,
    )
    .unwrap();
    assert_eq!(e.product_type, 2);
    assert_eq!(e.platform_fee, 1_000_000);
    assert_eq!(e.business_payout, 9_000_000);
    // a product type without its own rate pays the default 5%
    let (e, _) = create_escrow_spl_with_product_type(
        &mut s, &mut b, key(4), key(7), &whitelisted(key(7)), "f".to_string(), "biz-1".to_string(), 10_000_000, None, None, 0, NOW, 3,
    )
    .unwrap();
    assert_eq!(e.platform_fee, 500_000);
    assert_eq!(e.token_address, key(7));
    assert_eq!(s.total_escrows, 2);
    let before = (s, b.clone());
    let r = create_escrow_sol_with_product_type(
        &mut s, &mut b, key(4), "g".to_string(), "biz-1".to_string(), 10_000_000, None, None, 0, NOW, 9,
    );
    assert_eq!(r.unwrap_err(), EscrowError::InvalidProductType);
    assert_eq!((s, b), before);
}

#[test]
fn maximum_product_fee_takes_half() {
    let (mut s, mut b) = setup();
    set_product_type_fee(&mut s, 8, 5_000).unwrap();
    let (e, _) = create_escrow_sol_with_product_type(
        &mut s, &mut b, key(4), "e".to_string(), "biz-1".to_string(), 3_000_001, None, None, 0, NOW, 8,
    )
    .unwrap();
    assert_eq!(e.platform_fee, 1_500_000);
    assert_eq!(e.business_payout, 1_500_001);
}

#[test]
fn release_sol_after_release_time() {
    let (s, b, mut e) = open_escrow(10_000_000);
    let before = e.clone();
    let due = e.release_at;
    assert_eq!(
        release_funds_sol(&mut e, &b, &s, key(4), key(3), key(2), due - 1).unwrap_err(),
        EscrowError::EscrowNotReady
    );
    assert_eq!(
        release_funds_sol(&mut e, &b, &s, key(9), key(3), key(2), due).unwrap_err(),
        EscrowError::UnauthorizedRelease
    );
    assert_eq!(e, before);
    assert_eq!(
        release_funds_sol(&mut e, &b, &s, key(4), key(3), key(22), before.release_at).unwrap_err(),
        EscrowError::InvalidAddress
    );
    assert_eq!(
        release_funds_sol(&mut e, &b, &s, key(4), key(9), key(2), before.release_at).unwrap_err(),
        EscrowError::InvalidAddress
    );
    assert_eq!(e, before);
    let event = release_funds_sol(&mut e, &b, &s, key(4), key(3), key(2), before.release_at).unwrap();
    assert_eq!(
        event,
        FundsReleased {
            escrow_id: "esc-1".to_string(),
            business_wallet: key(3),
            platform_wallet: key(2),
            business_amount: 9_500_000,
            platform_amount: 500_000,
        }
    );
    assert_eq!(event.business_amount + event.platform_amount, 10_000_000);
    assert_eq!(e.status, TransactionStatus::Completed);
    assert_eq!(
        release_funds_sol(&mut e, &b, &s, key(4), key(3), key(2), before.release_at).unwrap_err(),
        EscrowError::EscrowNotActive
    );
    assert_eq!(process_refund_sol(&mut e, key(1), key(4)).unwrap_err(), EscrowError::CannotRefund);
}

#[test]
fn release_by_business_or_authority() {
    let (s, b, e0) = open_spl_escrow(10_000_000);
    let mut e = e0.clone();
    assert!(release_funds_spl(&mut e, &b, &s, key(3), key(3), key(2), e0.release_at + 5).is_ok());
    let mut e = e0.clone();
    let event = release_funds_spl(&mut e, &b, &s, key(1), key(3), key(2), e0.release_at).unwrap();
    assert_eq!(event.platform_wallet, key(2));
    assert_eq!(event.business_wallet, key(3));
}

#[test]
fn spl_release_checks_recipients_and_route() {
    let (s, b, e0) = open_spl_escrow(10_000_000);
    let due = e0.release_at;
    let mut e = e0.clone();
    assert_eq!(
        release_funds_spl(&mut e, &b, &s, key(4), key(9), key(2), due).unwrap_err(),
        EscrowError::InvalidAddress
    );
    assert_eq!(
        release_funds_spl(&mut e, &b, &s, key(4), key(3), key(9), due).unwrap_err(),
        EscrowError::InvalidAddress
    );
    // an SPL escrow is not settled in lamports
    assert_eq!(
        release_funds_sol(&mut e, &b, &s, key(4), key(3), key(2), due).unwrap_err(),
        EscrowError::TokenNotSupported
    );
    assert_eq!(process_refund_sol(&mut e, key(1), key(4)).unwrap_err(), EscrowError::TokenNotSupported);
    assert_eq!(e, e0);
    // and a SOL escrow is not settled in tokens
    let (s2, b2, mut sol) = open_escrow(10_000_000);
    let before = sol.clone();
    assert_eq!(
        release_funds_spl(&mut sol, &b2, &s2, key(4), key(3), key(2), before.release_at).unwrap_err(),
        EscrowError::TokenNotSupported
    );
    assert_eq!(process_refund_spl(&mut sol, key(1), key(4)).unwrap_err(), EscrowError::TokenNotSupported);
    assert_eq!(sol, before);
}

#[test]
fn refund_only_to_customer() {
    let (_, _, mut e) = open_escrow(10_000_000);
    let before = e.clone();
    assert_eq!(process_refund_sol(&mut e, key(1), key(9)).unwrap_err(), EscrowError::InvalidAddress);
    assert_eq!(e, before);
    let (_, _, mut t) = open_spl_escrow(10_000_000);
    assert_eq!(process_refund_spl(&mut t, key(1), key(9)).unwrap_err(), EscrowError::InvalidAddress);
    assert!(process_refund_spl(&mut t, key(1), key(4)).is_ok());
}

#[test]
fn spl_creation_needs_whitelisted_token() {
    let (mut s, mut b) = setup();
    let (s0, b0) = (s, b.clone());
    let mk = |s: &mut ProgramState, b: &mut Business, cfg: Option<TokenConfig>, amount: u64| {
        create_escrow_spl(s, b, key(4), key(7), &cfg, "e".to_string(), "biz-1".to_string(), amount, None, None, 0, NOW)
    };
    assert_eq!(mk(&mut s, &mut b, None, 5_000_000).unwrap_err(), EscrowError::TokenNotWhitelisted);
    let mut removed = whitelisted(key(7)).unwrap();
    remove_token(&mut removed);
    assert_eq!(mk(&mut s, &mut b, Some(removed), 5_000_000).unwrap_err(), EscrowError::TokenNotWhitelisted);
    assert_eq!(mk(&mut s, &mut b, whitelisted(key(8)), 5_000_000).unwrap_err(), EscrowError::TokenNotWhitelisted);
    let high_min = Some(whitelist_token(key(7), 6_000_000, 6, "USDC".to_string(), 0).0);
    assert_eq!(mk(&mut s, &mut b, high_min.clone(), 5_000_000).unwrap_err(), EscrowError::InsufficientAmount);
    assert_eq!(s, s0);
    assert_eq!(b, b0);
    assert!(mk(&mut s, &mut b, high_min, 6_000_000).is_ok());
    let r = create_escrow_spl_with_product_type(
        &mut s, &mut b, key(4), key(7), &None, "g".to_string(), "biz-1".to_string(), 5_000_000, None, None, 0, NOW, 9,
    );
    assert_eq!(r.unwrap_err(), EscrowError::InvalidProductType);
    let r = create_escrow_spl_with_product_type(
        &mut s, &mut b, key(4), key(7), &None, "g".to_string(), "biz-1".to_string(), 5_000_000, None, None, 0, NOW, 1,
    );
    assert_eq!(r.unwrap_err(), EscrowError::TokenNotWhitelisted);
}

#[test]
fn paused_escrow_cannot_be_released() {
    let (s, b, mut e) = open_escrow(10_000_000);
    pause_transaction(&mut e, key(1)).unwrap();
    let due = e.release_at;
    assert_eq!(
        release_funds_sol(&mut e, &b, &s, key(4), key(3), key(2), due).unwrap_err(),
        EscrowError::EscrowNotActive
    );
}

#[test]
fn refund_returns_full_amount() {
    let (_, _, mut e) = open_escrow(10_000_000);
    let event = process_refund_sol(&mut e, key(1), key(4)).unwrap();
    assert_eq!(
        event,
        RefundProcessed { escrow_id: "esc-1".to_string(), customer: key(4), amount: 10_000_000, refunded_by: key(1) }
    );
    assert_eq!(e.status, TransactionStatus::Refunded);
    assert_eq!(e.refunded_by, Some(key(1)));
    assert_eq!(process_refund_spl(&mut e, key(1), key(4)).unwrap_err(), EscrowError::CannotRefund);
}

#[test]
fn refund_of_paused_escrow() {
    let (s, b, mut e) = open_spl_escrow(10_000_000);
    pause_transaction(&mut e, key(1)).unwrap();
    let event = process_refund_spl(&mut e, key(1), key(4)).unwrap();
    assert_eq!(event.amount, 10_000_000);
    let due = e.release_at;
    assert_eq!(
        release_funds_spl(&mut e, &b, &s, key(4), key(3), key(2), due).unwrap_err(),
        EscrowError::EscrowNotActive
    );
}

#[test]
fn pause_and_resume() {
    let (_, _, mut e) = open_escrow(10_000_000);
    let original = e.clone();
    assert_eq!(resume_transaction(&mut e, key(1)).unwrap_err(), EscrowError::TransactionNotPaused);
    let p = pause_transaction(&mut e, key(1)).unwrap();
    assert_eq!(p.paused_by, key(1));
    assert_eq!(p.escrow_id, "esc-1");
    assert_eq!(e.status, TransactionStatus::Paused);
    assert_eq!(pause_transaction(&mut e, key(1)).unwrap_err(), EscrowError::TransactionNotActive);
    let r = resume_transaction(&mut e, key(5)).unwrap();
    assert_eq!(r.resumed_by, key(5));
    assert_eq!(e, original);
}

#[test]
fn business_reschedule_only_extends() {
    let (s, b, mut e) = open_escrow(10_000_000);
    let release = e.release_at;
    assert_eq!(
        update_escrow_release_time(&mut e, &b, &s, key(9), release + 10, NOW).unwrap_err(),
        EscrowError::UnauthorizedReleaseTimeUpdate
    );
    assert_eq!(
        update_escrow_release_time(&mut e, &b, &s, key(3), NOW, NOW).unwrap_err(),
        EscrowError::ReleaseTimeInPast
    );
    assert_eq!(
        update_escrow_release_time(&mut e, &b, &s, key(3), NOW + MAX_RELEASE_TIME + 1, NOW).unwrap_err(),
        EscrowError::ReleaseTimeTooFar
    );
    assert_eq!(
        update_escrow_release_time(&mut e, &b, &s, key(3), release - 1, NOW).unwrap_err(),
        EscrowError::CannotShortenReleaseTime
    );
    assert_eq!(e.release_at, release);
    let ev = update_escrow_release_time(&mut e, &b, &s, key(1), release + 100, NOW).unwrap();
    assert_eq!((ev.old_release_at, ev.new_release_at, ev.updated_by), (release, release + 100, key(1)));
    assert_eq!(e.release_at, release + 100);
    // the same time is not a shortening
    assert!(update_escrow_release_time(&mut e, &b, &s, key(3), release + 100, NOW).is_ok());
}

#[test]
fn reschedule_refused_for_settled_escrow() {
    let (s, b, mut e) = open_escrow(10_000_000);
    process_refund_sol(&mut e, key(1), key(4)).unwrap();
    let due = e.release_at;
    assert_eq!(
        update_escrow_release_time(&mut e, &b, &s, key(3), due + 1, NOW).unwrap_err(),
        EscrowError::TransactionNotActive
    );
    assert_eq!(
        admin_override_release_time(&mut e, key(1), NOW + 10, NOW).unwrap_err(),
        EscrowError::TransactionNotActive
    );
}

#[test]
fn admin_override_may_shorten() {
    let (_, _, mut e) = open_escrow(10_000_000);
    let release = e.release_at;
    let ev = admin_override_release_time(&mut e, key(1), NOW + 1, NOW).unwrap();
    assert_eq!((ev.old_release_at, ev.new_release_at, ev.admin), (release, NOW + 1, key(1)));
    assert_eq!(e.release_at, NOW + 1);
    assert_eq!(admin_override_release_time(&mut e, key(1), NOW, NOW).unwrap_err(), EscrowError::ReleaseTimeInPast);
    assert_eq!(
        admin_override_release_time(&mut e, key(1), NOW + MAX_RELEASE_TIME + 1, NOW).unwrap_err(),
        EscrowError::ReleaseTimeTooFar
    );
    pause_transaction(&mut e, key(1)).unwrap();
    assert!(admin_override_release_time(&mut e, key(1), NOW + MAX_RELEASE_TIME, NOW).is_ok());
}

#[test]
fn subscription_link() {
    let (mut s, _, mut e) = open_escrow(10_000_000);
    let ev = link_escrow_to_subscription(&s, &mut e, "sub-9".to_string()).unwrap();
    assert_eq!(ev.escrow_id, "esc-1");
    assert_eq!(ev.subscription_id, "sub-9");
    assert_eq!(e.subscription_id, Some("sub-9".to_string()));
    pause(&mut s);
    assert_eq!(
        link_escrow_to_subscription(&s, &mut e, "sub-10".to_string()).unwrap_err(),
        EscrowError::ProgramPaused
    );
    assert_eq!(e.subscription_id, Some("sub-9".to_string()));
}

#[test]
fn completed_escrow_is_final() {
    let (s, b, mut e) = open_escrow(10_000_000);
    let due = e.release_at;
    release_funds_sol(&mut e, &b, &s, key(4), key(3), key(2), due).unwrap();
    let done = e.clone();
    assert_eq!(pause_transaction(&mut e, key(1)).unwrap_err(), EscrowError::TransactionNotActive);
    assert_eq!(resume_transaction(&mut e, key(1)).unwrap_err(), EscrowError::TransactionNotPaused);
    assert_eq!(process_refund_spl(&mut e, key(1), key(4)).unwrap_err(), EscrowError::CannotRefund);
    assert_eq!(
        update_escrow_release_time(&mut e, &b, &s, key(1), due + 10, NOW).unwrap_err(),
        EscrowError::TransactionNotActive
    );
    assert_eq!(
        admin_override_release_time(&mut e, key(1), NOW + 10, NOW).unwrap_err(),
        EscrowError::TransactionNotActive
    );
    assert_eq!(e, done);
}

#[test]
fn lifecycle_keeps_terms() {
    let (s, b, mut e) = open_escrow(10_000_000);
    let terms = |e: &Escrow| (e.escrow_id.clone(), e.customer, e.business_id.clone(), e.token_address, e.amount, e.business_payout, e.platform_fee);
    let before = terms(&e);
    pause_transaction(&mut e, key(1)).unwrap();
    admin_override_release_time(&mut e, key(1), NOW + 5, NOW).unwrap();
    resume_transaction(&mut e, key(1)).unwrap();
    update_escrow_release_time(&mut e, &b, &s, key(3), NOW + 50, NOW).unwrap();
    link_escrow_to_subscription(&s, &mut e, "sub".to_string()).unwrap();
    release_funds_sol(&mut e, &b, &s, key(4), key(3), key(2), NOW + 50).unwrap();
    assert_eq!(terms(&e), before);
    assert_eq!(e.business_payout + e.platform_fee, e.amount);
}

#[test]
fn reschedule_overflow_guards() {
    let (s, b, mut e) = open_escrow(10_000_000);
    let late = i64::MAX - 10;
    // the bound is only computed once the earlier checks pass
    assert!(reschedule_fits_for(&e, &b, &s, key(9), late + 1, late));
    assert!(!reschedule_fits_for(&e, &b, &s, key(3), late + 1, late));
    assert!(reschedule_fits_for(&e, &b, &s, key(3), NOW + 1, NOW));
    assert!(!override_fits_for(&e, late + 1, late));
    assert!(override_fits_for(&e, late, late));
    process_refund_sol(&mut e, key(1), key(4)).unwrap();
    assert!(override_fits_for(&e, late + 1, late));
}
