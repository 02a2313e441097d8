//! What each escrow instruction accepts and what it does, stated directly in
//! terms of its inputs and results (limits written out as numbers).

use vstd::prelude::*;
use crate::pubkey::Pubkey;
use crate::text::byte_len;
use crate::escrow::create::{
    create_arithmetic_fits, create_error, create_outcome, create_sol_contract, create_spl_contract, spl_token_error,
};
use crate::escrow::events::EscrowCreated;
use crate::escrow::error::EscrowError;
use crate::escrow::fees::spec_fee_bps;
use crate::escrow::lifecycle::{
    spec_admin_override_release_time, spec_link_escrow_to_subscription, spec_pause_transaction,
    spec_refund, spec_release, spec_resume_transaction, spec_update_escrow_release_time,
};
use crate::escrow::registry::{
    spec_activate_business, spec_register_business, spec_suspend_business, spec_update_business_wallet,
};
use crate::escrow::admin::{
    spec_initialize, spec_set_product_type_fee, spec_update_escrow_duration, spec_update_platform_wallet,
};
use crate::escrow::state::{
    spec_product_type_index, Business, BusinessStatus, Escrow, ProductType, ProgramState, TokenConfig,
    TransactionStatus,
};

verus! {

broadcast use vstd::array::group_array_axioms;

/// An escrow whose funds are still held: active or paused.
pub open spec fn held(escrow: Escrow) -> bool {
    escrow.status == TransactionStatus::Active || escrow.status == TransactionStatus::Paused
}

/// The fee rate: a product type inside the table (0 to 8) with a non-zero
/// entry pays exactly that entry; every other case pays 500 basis points.
pub proof fn rule_fee_rate(fees: [u64; 9], product_type: u8)
    ensures
        product_type < 9 && fees@[product_type as int] > 0 ==> spec_fee_bps(fees, product_type)
            == fees@[product_type as int],
        !(product_type < 9 && fees@[product_type as int] > 0) ==> spec_fee_bps(fees, product_type)
            == 500,
{
}

/// Which creations are accepted, and with which error the others are
/// refused: a paused program, then an id over 64 bytes, then a business that
/// is not active, then an amount under 1 000 000, then a requested release
/// time not after `now`, then one more than 31 536 000 seconds after it.
pub proof fn rule_create_accepts(
    state: ProgramState,
    business: Business,
    escrow_id: Seq<char>,
    amount: u64,
    custom_release_at: Option<i64>,
    now: i64,
)
    ensures
        create_error(state, business, escrow_id, amount, custom_release_at, now) is None <==> {
            &&& !state.is_paused
            &&& byte_len(escrow_id) <= 64
            &&& business.status == BusinessStatus::Active
            &&& amount >= 1_000_000
            &&& (custom_release_at matches Some(t) ==> now < t && t <= now + 31_536_000)
        },
        state.is_paused ==> create_error(state, business, escrow_id, amount, custom_release_at, now)
            == Some(EscrowError::ProgramPaused),
        !state.is_paused && byte_len(escrow_id) > 64 ==> create_error(
            state,
            business,
            escrow_id,
            amount,
            custom_release_at,
            now,
        ) == Some(EscrowError::EscrowIdTooLong),
        !state.is_paused && byte_len(escrow_id) <= 64 && business.status != BusinessStatus::Active
            ==> create_error(state, business, escrow_id, amount, custom_release_at, now) == Some(
            EscrowError::BusinessNotActive,
        ),
        !state.is_paused && byte_len(escrow_id) <= 64 && business.status == BusinessStatus::Active
            && amount < 1_000_000 ==> create_error(state, business, escrow_id, amount, custom_release_at, now)
            == Some(EscrowError::InsufficientAmount),
        !state.is_paused && byte_len(escrow_id) <= 64 && business.status == BusinessStatus::Active
            && amount >= 1_000_000 && custom_release_at is Some && custom_release_at->Some_0 <= now ==> create_error(
            state,
            business,
            escrow_id,
            amount,
            custom_release_at,
            now,
        ) == Some(EscrowError::ReleaseTimeInPast),
        !state.is_paused && byte_len(escrow_id) <= 64 && business.status == BusinessStatus::Active
            && amount >= 1_000_000 && custom_release_at is Some && custom_release_at->Some_0 > now
            + 31_536_000
            ==> create_error(state, business, escrow_id, amount, custom_release_at, now) == Some(
            EscrowError::ReleaseTimeTooFar,
        ),
{
}

/// What a successful creation writes: the fee is the amount times the
/// product type's rate (its table entry when inside the table and non-zero,
/// 500 otherwise) over 10 000, rounded down; the payout is the rest; the
/// release time is the requested one or `now` plus the default duration;
/// the escrow is active, created at `now`, and carries the given customer,
/// ids, token, URI, bump and product type; both counters grow by one escrow
/// and the amount. A failed creation changes nothing. (This holds on every
/// input the create instructions accept.)
pub proof fn rule_create_result(
    old_state: ProgramState,
    new_state: ProgramState,
    old_business: Business,
    new_business: Business,
    customer: Pubkey,
    escrow_id: String,
    business_id: String,
    token_address: Pubkey,
    amount: u64,
    metadata_uri: Option<String>,
    custom_release_at: Option<i64>,
    bump: u8,
    now: i64,
    product_type: u8,
    res: Result<(Escrow, EscrowCreated), EscrowError>,
)
    requires
        create_arithmetic_fits(old_state, old_business, escrow_id@, amount, custom_release_at, now, product_type),
        create_outcome(
            old_state,
            new_state,
            old_business,
            new_business,
            customer,
            escrow_id,
            business_id,
            token_address,
            amount,
            metadata_uri,
            custom_release_at,
            bump,
            now,
            product_type,
            res,
        ),
    ensures
        res is Err ==> new_state == old_state && new_business == old_business,
        res matches Ok((escrow, event)) ==> {
            let fees = old_state.product_type_fees;
            let rate: int = if product_type < 9 && fees@[product_type as int] > 0 {
                fees@[product_type as int] as int
            } else {
                500
            };
            &&& escrow.platform_fee == (amount * rate) / 10000
            &&& escrow.business_payout == amount - (amount * rate) / 10000
            &&& escrow.release_at == (match custom_release_at {
                Some(t) => t as int,
                None => now + old_state.escrow_duration,
            })
            &&& escrow.status == TransactionStatus::Active
            &&& escrow.created_at == now
            &&& escrow.amount == amount
            &&& escrow.customer == customer
            &&& escrow.escrow_id == escrow_id
            &&& escrow.business_id == business_id
            &&& escrow.token_address == token_address
            &&& escrow.nft_metadata_uri == metadata_uri
            &&& escrow.bump == bump
            &&& escrow.product_type == product_type
            &&& escrow.refunded_by is None
            &&& escrow.nft_token_id is None
            &&& escrow.subscription_id is None
            &&& new_state.total_escrows == old_state.total_escrows + 1
            &&& new_state.total_volume == old_state.total_volume + amount
            &&& new_state.product_type_fees == old_state.product_type_fees
            &&& new_state.authority == old_state.authority
            &&& new_state.platform_wallet == old_state.platform_wallet
            &&& new_state.escrow_duration == old_state.escrow_duration
            &&& new_state.is_paused == old_state.is_paused
            &&& new_business.total_transactions == old_business.total_transactions + 1
            &&& new_business.total_volume == old_business.total_volume + amount
            &&& new_business.status == old_business.status
            &&& new_business.wallet_address == old_business.wallet_address
            &&& event.escrow_id == escrow_id
            &&& event.amount == amount
            &&& event.customer == customer
            &&& event.token_address == token_address
            &&& event.business_id == old_business.business_id
        },
{
    let bps = spec_fee_bps(old_state.product_type_fees, product_type);
    assert(0 <= (amount * bps) / 10000) by (nonlinear_arith)
        requires
            0 <= amount,
            0 <= bps,
    ;
}

/// The product-type creations refuse exactly the product types outside the
/// table (9 and above) before anything else; an SPL creation then refuses a
/// missing, inactive or foreign-mint whitelist entry, and an amount below the
/// entry's minimum.
pub proof fn rule_create_product_type_and_whitelist(
    old_state: ProgramState,
    new_state: ProgramState,
    old_business: Business,
    new_business: Business,
    customer: Pubkey,
    token_mint: Pubkey,
    token_config: Option<TokenConfig>,
    escrow_id: String,
    business_id: String,
    amount: u64,
    metadata_uri: Option<String>,
    custom_release_at: Option<i64>,
    bump: u8,
    now: i64,
    product_type: u8,
    res: Result<(Escrow, EscrowCreated), EscrowError>,
)
    ensures
        product_type >= 9 && create_sol_contract(
            old_state, new_state, old_business, new_business, customer, escrow_id, business_id,
            amount, metadata_uri, custom_release_at, bump, now, product_type, res,
        ) ==> res == Err::<(Escrow, EscrowCreated), EscrowError>(EscrowError::InvalidProductType)
            && new_state == old_state,
        product_type >= 9 && create_spl_contract(
            old_state, new_state, old_business, new_business, customer, token_mint, token_config,
            escrow_id, business_id, amount, metadata_uri, custom_release_at, bump, now, product_type, res,
        ) ==> res == Err::<(Escrow, EscrowCreated), EscrowError>(EscrowError::InvalidProductType)
            && new_state == old_state,
        spl_token_error(token_config, token_mint, amount) is None <==> (token_config matches Some(c)
            && c.is_active && c.token_mint == token_mint && amount >= c.min_amount),
        (token_config matches Some(c) && c.is_active && c.token_mint == token_mint && amount < c.min_amount)
            ==> spl_token_error(token_config, token_mint, amount) == Some(EscrowError::InsufficientAmount),
        !(token_config matches Some(c) && c.is_active && c.token_mint == token_mint) ==> spl_token_error(
            token_config,
            token_mint,
            amount,
        ) == Some(EscrowError::TokenNotWhitelisted),
{
}

/// A release succeeds exactly for an active, due escrow, asked for by its
/// customer, the business wallet or the authority, by its token's route, and
/// paid to the business wallet and the platform wallet; it then completes
/// the escrow and reports its payout and fee. Otherwise nothing changes.
pub proof fn rule_release(
    escrow: Escrow,
    business: Business,
    state: ProgramState,
    caller: Pubkey,
    native: bool,
    business_recipient: Pubkey,
    platform_recipient: Pubkey,
    now: i64,
)
    ensures
        spec_release(escrow, business, state, caller, native, business_recipient, platform_recipient, now) is Ok
            <==> {
            &&& escrow.status == TransactionStatus::Active
            &&& now >= escrow.release_at
            &&& (caller == escrow.customer || caller == business.wallet_address || caller
                == state.authority)
            &&& (escrow.token_address == Pubkey::spec_zeroed()) == native
            &&& business_recipient == business.wallet_address
            &&& platform_recipient == state.platform_wallet
        },
        escrow.status != TransactionStatus::Active ==> spec_release(
            escrow,
            business,
            state,
            caller,
            native,
            business_recipient,
            platform_recipient,
            now,
        ) == Err::<(Escrow, crate::escrow::events::FundsReleased), EscrowError>(EscrowError::EscrowNotActive),
        escrow.status == TransactionStatus::Active && now < escrow.release_at ==> spec_release(
            escrow,
            business,
            state,
            caller,
            native,
            business_recipient,
            platform_recipient,
            now,
        ) == Err::<(Escrow, crate::escrow::events::FundsReleased), EscrowError>(EscrowError::EscrowNotReady),
        spec_release(escrow, business, state, caller, native, business_recipient, platform_recipient, now) matches Ok(
            (next, event),
        ) ==> {
            &&& next == (Escrow { status: TransactionStatus::Completed, ..escrow })
            &&& event.business_amount == escrow.business_payout
            &&& event.platform_amount == escrow.platform_fee
            &&& event.escrow_id == escrow.escrow_id
            &&& event.business_wallet == business.wallet_address
            &&& event.platform_wallet == state.platform_wallet
        },
        escrow.status == TransactionStatus::Active && now >= escrow.release_at && !(caller == escrow.customer
            || caller == business.wallet_address || caller == state.authority) ==> spec_release(
            escrow,
            business,
            state,
            caller,
            native,
            business_recipient,
            platform_recipient,
            now,
        ) == Err::<(Escrow, crate::escrow::events::FundsReleased), EscrowError>(
            EscrowError::UnauthorizedRelease,
        ),
        escrow.status == TransactionStatus::Active && now >= escrow.release_at && (caller == escrow.customer
            || caller == business.wallet_address || caller == state.authority) && (escrow.token_address
            == Pubkey::spec_zeroed()) != native ==> spec_release(
            escrow,
            business,
            state,
            caller,
            native,
            business_recipient,
            platform_recipient,
            now,
        ) == Err::<(Escrow, crate::escrow::events::FundsReleased), EscrowError>(
            EscrowError::TokenNotSupported,
        ),
        escrow.status == TransactionStatus::Active && now >= escrow.release_at && (caller == escrow.customer
            || caller == business.wallet_address || caller == state.authority) && (escrow.token_address
            == Pubkey::spec_zeroed()) == native && !(business_recipient == business.wallet_address
            && platform_recipient == state.platform_wallet) ==> spec_release(
            escrow,
            business,
            state,
            caller,
            native,
            business_recipient,
            platform_recipient,
            now,
        ) == Err::<(Escrow, crate::escrow::events::FundsReleased), EscrowError>(
            EscrowError::InvalidAddress,
        ),
{
}

/// A refund succeeds exactly for an active or paused escrow, by its token's
/// route, paid to its customer; it then marks the escrow refunded by the
/// authority and reports the whole amount.
pub proof fn rule_refund(escrow: Escrow, authority: Pubkey, native: bool, recipient: Pubkey)
    ensures
        spec_refund(escrow, authority, native, recipient) is Ok <==> {
            &&& held(escrow)
            &&& (escrow.token_address == Pubkey::spec_zeroed()) == native
            &&& recipient == escrow.customer
        },
        !held(escrow) ==> spec_refund(escrow, authority, native, recipient) == Err::<
            (Escrow, crate::escrow::events::RefundProcessed),
            EscrowError,
        >(EscrowError::CannotRefund),
        spec_refund(escrow, authority, native, recipient) matches Ok((next, event)) ==> {
            &&& next == (Escrow {
                status: TransactionStatus::Refunded,
                refunded_by: Some(authority),
                ..escrow
            })
            &&& event.amount == escrow.amount
            &&& event.customer == escrow.customer
            &&& event.refunded_by == authority
            &&& event.escrow_id == escrow.escrow_id
        },
        held(escrow) && (escrow.token_address == Pubkey::spec_zeroed()) != native ==> spec_refund(
            escrow,
            authority,
            native,
            recipient,
        ) == Err::<(Escrow, crate::escrow::events::RefundProcessed), EscrowError>(
            EscrowError::TokenNotSupported,
        ),
        held(escrow) && (escrow.token_address == Pubkey::spec_zeroed()) == native && recipient
            != escrow.customer ==> spec_refund(escrow, authority, native, recipient) == Err::<
            (Escrow, crate::escrow::events::RefundProcessed),
            EscrowError,
        >(EscrowError::InvalidAddress),
{
}

/// Pausing succeeds exactly on an active escrow and makes it paused;
/// resuming succeeds exactly on a paused escrow and makes it active.
pub proof fn rule_pause_resume(escrow: Escrow, authority: Pubkey)
    ensures
        spec_pause_transaction(escrow, authority) is Ok <==> escrow.status == TransactionStatus::Active,
        spec_pause_transaction(escrow, authority) matches Ok((next, _)) ==> next == (Escrow {
            status: TransactionStatus::Paused,
            ..escrow
        }),
        spec_pause_transaction(escrow, authority) is Err ==> spec_pause_transaction(escrow, authority)
            == Err::<(Escrow, crate::escrow::events::TransactionPaused), EscrowError>(
            EscrowError::TransactionNotActive,
        ),
        spec_resume_transaction(escrow, authority) is Ok <==> escrow.status == TransactionStatus::Paused,
        spec_resume_transaction(escrow, authority) matches Ok((next, _)) ==> next == (Escrow {
            status: TransactionStatus::Active,
            ..escrow
        }),
        spec_resume_transaction(escrow, authority) is Err ==> spec_resume_transaction(escrow, authority)
            == Err::<(Escrow, crate::escrow::events::TransactionResumed), EscrowError>(
            EscrowError::TransactionNotPaused,
        ),
{
}

/// A business or authority reschedule succeeds exactly for an active or
/// paused escrow, asked for by the authority or the business wallet, to a
/// time after `now`, at most 31 536 000 seconds after it, and not before the
/// current release time; only the release time changes, to the new one.
pub proof fn rule_update_release_time(
    escrow: Escrow,
    business: Business,
    state: ProgramState,
    caller: Pubkey,
    new_release_at: i64,
    now: i64,
)
    ensures
        spec_update_escrow_release_time(escrow, business, state, caller, new_release_at, now) is Ok <==> {
            &&& held(escrow)
            &&& (caller == state.authority || caller == business.wallet_address)
            &&& now < new_release_at
            &&& new_release_at <= now + 31_536_000
            &&& new_release_at >= escrow.release_at
        },
        !held(escrow) ==> spec_update_escrow_release_time(escrow, business, state, caller, new_release_at, now)
            == Err::<(Escrow, crate::escrow::events::EscrowReleaseTimeUpdated), EscrowError>(
            EscrowError::TransactionNotActive,
        ),
        held(escrow) && !(caller == state.authority || caller == business.wallet_address)
            ==> spec_update_escrow_release_time(escrow, business, state, caller, new_release_at, now)
            == Err::<(Escrow, crate::escrow::events::EscrowReleaseTimeUpdated), EscrowError>(
            EscrowError::UnauthorizedReleaseTimeUpdate,
        ),
        spec_update_escrow_release_time(escrow, business, state, caller, new_release_at, now) matches Ok(
            (next, event),
        ) ==> {
            &&& next == (Escrow { release_at: new_release_at, ..escrow })
            &&& event.old_release_at == escrow.release_at
            &&& event.new_release_at == new_release_at
            &&& event.updated_by == caller
        },
{
}

/// The authority's reschedule succeeds exactly for an active or paused
/// escrow and a time after `now`, at most 31 536 000 seconds after it,
/// earlier or later than the current one.
pub proof fn rule_admin_override(escrow: Escrow, authority: Pubkey, new_release_at: i64, now: i64)
    ensures
        spec_admin_override_release_time(escrow, authority, new_release_at, now) is Ok <==> {
            &&& held(escrow)
            &&& now < new_release_at
            &&& new_release_at <= now + 31_536_000
        },
        spec_admin_override_release_time(escrow, authority, new_release_at, now) matches Ok((next, event))
            ==> {
            &&& next == (Escrow { release_at: new_release_at, ..escrow })
            &&& event.old_release_at == escrow.release_at
            &&& event.new_release_at == new_release_at
            &&& event.admin == authority
        },
{
}

/// Linking a subscription succeeds exactly when the program is not paused,
/// and records the subscription id.
pub proof fn rule_link_subscription(state: ProgramState, escrow: Escrow, subscription_id: String)
    ensures
        spec_link_escrow_to_subscription(state, escrow, subscription_id) is Ok <==> !state.is_paused,
        spec_link_escrow_to_subscription(state, escrow, subscription_id) matches Ok((next, _)) ==> next
            == (Escrow { subscription_id: Some(subscription_id), ..escrow }),
{
}

/// Registration succeeds exactly for an id of at most 64 bytes and a name
/// of at most 128 bytes while the program is not paused; the business is
/// active, NFT receipts on, registered at `now`, with no transactions.
pub proof fn rule_register_business(
    state: ProgramState,
    business_wallet: Pubkey,
    business_id: String,
    business_name: String,
    now: i64,
    bump: u8,
)
    ensures
        spec_register_business(state, business_wallet, business_id, business_name, now, bump) is Ok <==> {
            &&& byte_len(business_id@) <= 64
            &&& byte_len(business_name@) <= 128
            &&& !state.is_paused
        },
        spec_register_business(state, business_wallet, business_id, business_name, now, bump) matches Ok(
            (b, _),
        ) ==> {
            &&& b.business_id == business_id
            &&& b.business_name == business_name
            &&& b.wallet_address == business_wallet
            &&& b.status == BusinessStatus::Active
            &&& b.registration_date == now
            &&& b.total_transactions == 0
            &&& b.total_volume == 0
            &&& b.nft_enabled
            &&& b.bump == bump
        },
{
}

/// A business's wallet change succeeds exactly for a different wallet;
/// suspension succeeds exactly for a business that is not suspended;
/// activation exactly for a suspended one.
pub proof fn rule_business_status(business: Business, new_wallet: Pubkey, authority: Pubkey)
    ensures
        spec_update_business_wallet(business, new_wallet) is Ok <==> new_wallet != business.wallet_address,
        spec_update_business_wallet(business, new_wallet) matches Ok((b, _)) ==> b == (Business {
            wallet_address: new_wallet,
            ..business
        }),
        spec_suspend_business(business, authority) is Ok <==> business.status != BusinessStatus::Suspended,
        spec_suspend_business(business, authority) matches Ok((b, _)) ==> b == (Business {
            status: BusinessStatus::Suspended,
            ..business
        }),
        spec_activate_business(business, authority) is Ok <==> business.status == BusinessStatus::Suspended,
        spec_activate_business(business, authority) matches Ok((b, _)) ==> b == (Business {
            status: BusinessStatus::Active,
            ..business
        }),
{
}

/// Initialization and the duration setter accept exactly the durations from
/// 600 to 2 592 000 seconds, whatever the current duration; the setter then
/// changes only the duration.
pub proof fn rule_duration(
    authority: Pubkey,
    platform_wallet: Pubkey,
    duration: i64,
    bump: u8,
    state: ProgramState,
)
    ensures
        spec_initialize(authority, platform_wallet, duration, bump) is Ok <==> 600 <= duration
            <= 2_592_000,
        spec_initialize(authority, platform_wallet, duration, bump) matches Ok((s, _)) ==> {
            &&& s.authority == authority
            &&& s.platform_wallet == platform_wallet
            &&& s.escrow_duration == duration
            &&& s.total_escrows == 0
            &&& s.total_volume == 0
            &&& !s.is_paused
            &&& s.bump == bump
            &&& s.nft_program@ == Seq::new(32, |i: int| 0u8)
            &&& forall|i: int| 0 <= i < 9 ==> s.product_type_fees@[i] == 0
        },
        spec_update_escrow_duration(state, duration) is Ok <==> 600 <= duration <= 2_592_000,
        spec_update_escrow_duration(state, duration) matches Ok((s, event)) ==> {
            &&& s == (ProgramState { escrow_duration: duration, ..state })
            &&& event.old_duration == state.escrow_duration
            &&& event.new_duration == duration
        },
{
    Pubkey::lemma_zeroed_bytes();
}

/// Setting a fee rate succeeds exactly for a product type inside the table
/// (0 to 8) and a rate of at most 5000 basis points, any such rate; it then
/// changes only that entry of the table, to the rate, and reports the old
/// and new rates. Types outside the table are refused before rates.
pub proof fn rule_set_product_type_fee(state: ProgramState, product_type: u8, fee_bps: u64)
    ensures
        spec_set_product_type_fee(state, product_type, fee_bps) is Ok <==> product_type < 9 && fee_bps
            <= 5000,
        product_type >= 9 ==> spec_set_product_type_fee(state, product_type, fee_bps) == Err::<
            (ProgramState, crate::escrow::events::ProductTypeFeeUpdated),
            EscrowError,
        >(EscrowError::InvalidProductType),
        product_type < 9 && fee_bps > 5000 ==> spec_set_product_type_fee(state, product_type, fee_bps)
            == Err::<(ProgramState, crate::escrow::events::ProductTypeFeeUpdated), EscrowError>(
            EscrowError::InvalidProductTypeFee,
        ),
        spec_set_product_type_fee(state, product_type, fee_bps) matches Ok((s, event)) ==> {
            &&& s.product_type_fees@ == state.product_type_fees@.update(product_type as int, fee_bps)
            &&& s.product_type_fees@[product_type as int] == fee_bps
            &&& s.authority == state.authority
            &&& s.platform_wallet == state.platform_wallet
            &&& s.escrow_duration == state.escrow_duration
            &&& s.total_escrows == state.total_escrows
            &&& s.total_volume == state.total_volume
            &&& s.is_paused == state.is_paused
            &&& event.old_fee == state.product_type_fees@[product_type as int]
            &&& event.new_fee == fee_bps
            &&& event.product_type == product_type
        },
{
}

/// Changing the platform wallet succeeds exactly for a different wallet and
/// changes only the wallet.
pub proof fn rule_platform_wallet(state: ProgramState, new_wallet: Pubkey)
    ensures
        spec_update_platform_wallet(state, new_wallet) is Ok <==> new_wallet != state.platform_wallet,
        spec_update_platform_wallet(state, new_wallet) matches Ok((s, _)) ==> s == (ProgramState {
            platform_wallet: new_wallet,
            ..state
        }),
{
}

/// Product types are numbered in declaration order from 0 (general) to 8
/// (pass), each with its own number.
pub proof fn rule_product_type_numbers(p: ProductType, q: ProductType)
    ensures
        spec_product_type_index(ProductType::General) == 0,
        spec_product_type_index(ProductType::Event) == 1,
        spec_product_type_index(ProductType::Experience) == 2,
        spec_product_type_index(ProductType::Stay) == 3,
        spec_product_type_index(ProductType::Travel) == 4,
        spec_product_type_index(ProductType::PpvStream) == 5,
        spec_product_type_index(ProductType::Restaurant) == 6,
        spec_product_type_index(ProductType::Membership) == 7,
        spec_product_type_index(ProductType::Pass) == 8,
        spec_product_type_index(p) == spec_product_type_index(q) ==> p == q,
{
}

} // verus!
