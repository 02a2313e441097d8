use vstd::prelude::*;
use crate::pubkey::Pubkey;
use crate::escrow::create::{
    create_arithmetic_fits, create_error, create_outcome, create_sol_contract, create_spl_contract,
    spec_new_escrow, spec_release_at, spl_token_error,
};
use crate::escrow::events::EscrowCreated;
use crate::escrow::error::EscrowError;
use crate::escrow::fees::{fee_table_capped, spec_fee_bps, spec_platform_fee};
use crate::escrow::lifecycle::{
    may_release, token_route_matches, spec_admin_override_release_time, spec_link_escrow_to_subscription,
    spec_pause_transaction, spec_refund, spec_release, spec_resume_transaction,
    spec_update_escrow_release_time,
};
use crate::escrow::registry::{spec_activate_business, spec_register_business, spec_suspend_business};
use crate::escrow::admin::{
    spec_initialize, spec_set_product_type_fee, spec_update_escrow_duration, spec_update_platform_wallet,
};
use crate::escrow::state::{
    spec_native_sol, Business, BusinessStatus, Escrow, ProgramState, TokenConfig, TransactionStatus,
    MAX_PRODUCT_TYPE_FEE,
    PLATFORM_FEE_BASIS_POINTS, PRODUCT_TYPE_COUNT,
};

verus! {

broadcast use vstd::array::group_array_axioms;

/// A new escrow's payout and fee add up to the escrowed amount, and the fee is
/// the amount times the rate in basis points, rounded down.
pub proof fn law_new_escrow_splits_amount(
    escrow_id: String,
    customer: Pubkey,
    business_id: String,
    token_address: Pubkey,
    amount: u64,
    fee_bps: u64,
    metadata_uri: Option<String>,
    release_at: int,
    now: i64,
    bump: u8,
    product_type: u8,
)
    requires
        spec_platform_fee(amount, fee_bps) <= amount,
    ensures
        ({
            let e = spec_new_escrow(
                escrow_id,
                customer,
                business_id,
                token_address,
                amount,
                fee_bps,
                metadata_uri,
                release_at,
                now,
                bump,
                product_type,
            );
            &&& e.amounts_balance()
            &&& e.platform_fee == (amount * fee_bps) / 10000
            &&& e.status == TransactionStatus::Active
        }),
{
    assert(0 <= amount * fee_bps) by (nonlinear_arith);
    assert(0 <= (amount * fee_bps) / 10000) by (nonlinear_arith)
        requires 0 <= amount * fee_bps;
}

/// A product type with no rate of its own (or outside the table) pays the
/// platform default of 5% (500 basis points).
pub proof fn law_default_fee_rate(fees: [u64; 9], product_type: u8)
    requires
        (product_type as usize) >= PRODUCT_TYPE_COUNT || fees@[product_type as int] == 0,
    ensures
        spec_fee_bps(fees, product_type) == PLATFORM_FEE_BASIS_POINTS,
        PLATFORM_FEE_BASIS_POINTS == 500,
{
}

/// A freshly initialized program charges the 5% default on every product
/// type.
pub proof fn law_initial_fee_is_default(
    authority: Pubkey,
    platform_wallet: Pubkey,
    escrow_duration: i64,
    bump: u8,
    product_type: u8,
)
    requires
        spec_initialize(authority, platform_wallet, escrow_duration, bump) is Ok,
    ensures
        spec_fee_bps(
            spec_initialize(authority, platform_wallet, escrow_duration, bump)->Ok_0.0.product_type_fees,
            product_type,
        ) == PLATFORM_FEE_BASIS_POINTS,
{
}

/// Initialization yields a fee table within the cap, and setting a product
/// type's fee keeps it there.
pub proof fn law_fee_table_stays_capped(
    authority: Pubkey,
    platform_wallet: Pubkey,
    escrow_duration: i64,
    bump: u8,
    state: ProgramState,
    product_type: u8,
    fee_bps: u64,
)
    ensures
        spec_initialize(authority, platform_wallet, escrow_duration, bump) matches Ok((s, _))
            ==> fee_table_capped(s.product_type_fees),
        fee_table_capped(state.product_type_fees) ==> (spec_set_product_type_fee(
            state,
            product_type,
            fee_bps,
        ) matches Ok((s, _)) ==> fee_table_capped(s.product_type_fees)),
{
}

/// With a capped fee table the platform never takes more than half of an
/// escrowed amount.
pub proof fn law_fee_at_most_half(fees: [u64; 9], product_type: u8, amount: u64)
    requires
        fee_table_capped(fees),
    ensures
        spec_platform_fee(amount, spec_fee_bps(fees, product_type)) <= amount / 2,
{
    let bps = spec_fee_bps(fees, product_type);
    assert(bps <= MAX_PRODUCT_TYPE_FEE);
    assert((amount * bps) / 10000 <= amount / 2) by (nonlinear_arith)
        requires
            bps <= 5000,
    ;
}

/// Releasing pays out exactly the escrowed amount, split between the business
/// and the platform.
pub proof fn law_release_pays_out_amount(
    escrow: Escrow,
    business: Business,
    state: ProgramState,
    caller: Pubkey,
    native: bool,
    business_recipient: Pubkey,
    platform_recipient: Pubkey,
    now: i64,
)
    requires
        escrow.amounts_balance(),
        spec_release(escrow, business, state, caller, native, business_recipient, platform_recipient, now) is Ok,
    ensures
        ({
            let (next, event) = spec_release(escrow, business, state, caller, native, business_recipient, platform_recipient, now)->Ok_0;
            &&& event.business_amount + event.platform_amount == escrow.amount
            &&& next.status == TransactionStatus::Completed
            &&& now >= escrow.release_at
            &&& may_release(escrow, business, state, caller)
        }),
{
}

/// A refund returns the whole escrowed amount to the escrow's customer.
pub proof fn law_refund_returns_amount(escrow: Escrow, authority: Pubkey, native: bool, recipient: Pubkey)
    requires
        spec_refund(escrow, authority, native, recipient) is Ok,
    ensures
        ({
            let (next, event) = spec_refund(escrow, authority, native, recipient)->Ok_0;
            &&& event.amount == escrow.amount
            &&& event.customer == escrow.customer
            &&& next.status == TransactionStatus::Refunded
            &&& next.refunded_by == Some(authority)
        }),
{
}

/// An escrow that is neither active nor paused (completed, refunded, failed or
/// pending) can no longer be released, refunded, paused, resumed or
/// rescheduled.
pub proof fn law_closed_escrow_is_final(
    escrow: Escrow,
    business: Business,
    state: ProgramState,
    caller: Pubkey,
    native: bool,
    business_recipient: Pubkey,
    platform_recipient: Pubkey,
    recipient: Pubkey,
    new_release_at: i64,
    now: i64,
)
    requires
        !escrow.is_open(),
    ensures
        spec_release(escrow, business, state, caller, native, business_recipient, platform_recipient, now) is Err,
        spec_refund(escrow, caller, native, recipient) is Err,
        spec_pause_transaction(escrow, caller) is Err,
        spec_resume_transaction(escrow, caller) is Err,
        spec_update_escrow_release_time(escrow, business, state, caller, new_release_at, now) is Err,
        spec_admin_override_release_time(escrow, caller, new_release_at, now) is Err,
{
}

/// Funds leave an escrow at most once: after a release neither a second
/// release nor a refund succeeds, and after a refund neither a release nor a
/// second refund succeeds.
pub proof fn law_funds_leave_once(
    escrow: Escrow,
    business: Business,
    state: ProgramState,
    caller: Pubkey,
    native: bool,
    business_recipient: Pubkey,
    platform_recipient: Pubkey,
    recipient: Pubkey,
    now: i64,
    caller2: Pubkey,
    native2: bool,
    business_recipient2: Pubkey,
    platform_recipient2: Pubkey,
    recipient2: Pubkey,
    now2: i64,
)
    ensures
        spec_release(escrow, business, state, caller, native, business_recipient, platform_recipient, now) matches Ok((released, _))
            ==> {
            &&& spec_release(released, business, state, caller2, native2, business_recipient2, platform_recipient2, now2) is Err
            &&& spec_refund(released, caller2, native2, recipient2) is Err
        },
        spec_refund(escrow, caller, native, recipient) matches Ok((refunded, _)) ==> {
            &&& spec_release(refunded, business, state, caller2, native2, business_recipient2, platform_recipient2, now2) is Err
            &&& spec_refund(refunded, caller2, native2, recipient2) is Err
        },
{
}

/// Pausing an active escrow and resuming it gives back the same escrow.
pub proof fn law_pause_resume_round_trip(escrow: Escrow, pauser: Pubkey, resumer: Pubkey)
    requires
        escrow.status == TransactionStatus::Active,
    ensures
        spec_pause_transaction(escrow, pauser) matches Ok((paused, _)) && spec_resume_transaction(
            paused,
            resumer,
        ) matches Ok((resumed, _)) && resumed == escrow,
{
}

/// A business or authority reschedule never moves the release time earlier,
/// and always leaves it in the future.
pub proof fn law_reschedule_never_earlier(
    escrow: Escrow,
    business: Business,
    state: ProgramState,
    caller: Pubkey,
    new_release_at: i64,
    now: i64,
)
    ensures
        spec_update_escrow_release_time(escrow, business, state, caller, new_release_at, now) matches Ok(
            (next, _),
        ) ==> next.release_at >= escrow.release_at && next.release_at > now,
{
}

/// Suspending an active business and activating it again gives back the same
/// business.
pub proof fn law_suspend_activate_round_trip(business: Business, a1: Pubkey, a2: Pubkey)
    requires
        business.status == BusinessStatus::Active,
    ensures
        spec_suspend_business(business, a1) matches Ok((suspended, _)) && spec_activate_business(
            suspended,
            a2,
        ) matches Ok((activated, _)) && activated == business,
{
}

/// A business that is not active takes no new escrows.
pub proof fn law_inactive_business_takes_no_escrow(
    state: ProgramState,
    business: Business,
    escrow_id: Seq<char>,
    amount: u64,
    custom_release_at: Option<i64>,
    now: i64,
)
    requires
        business.status != BusinessStatus::Active,
    ensures
        create_error(state, business, escrow_id, amount, custom_release_at, now) is Some,
{
}

/// While the program is paused no escrow is created, no business registered
/// and no subscription linked.
pub proof fn law_paused_program_refuses(
    state: ProgramState,
    business: Business,
    escrow_id: String,
    amount: u64,
    custom_release_at: Option<i64>,
    now: i64,
    business_wallet: Pubkey,
    business_id: String,
    business_name: String,
    bump: u8,
    escrow: Escrow,
    subscription_id: String,
)
    requires
        state.is_paused,
    ensures
        create_error(state, business, escrow_id@, amount, custom_release_at, now) == Some(
            EscrowError::ProgramPaused,
        ),
        spec_register_business(state, business_wallet, business_id, business_name, now, bump) is Err,
        spec_link_escrow_to_subscription(state, escrow, subscription_id) == Err::<
            (Escrow, crate::escrow::events::SubscriptionEscrowLinked),
            EscrowError,
        >(EscrowError::ProgramPaused),
{
}

/// The parts of an escrow that fix who pays what never change after
/// creation: no lifecycle instruction alters its id, customer, business,
/// token, amount, payout or fee.
pub open spec fn same_terms(a: Escrow, b: Escrow) -> bool {
    &&& a.escrow_id == b.escrow_id
    &&& a.customer == b.customer
    &&& a.business_id == b.business_id
    &&& a.token_address == b.token_address
    &&& a.amount == b.amount
    &&& a.business_payout == b.business_payout
    &&& a.platform_fee == b.platform_fee
}

/// Every lifecycle instruction keeps an escrow's terms, so an escrow whose
/// payout and fee add up to its amount keeps that balance.
pub proof fn law_lifecycle_keeps_terms(
    escrow: Escrow,
    business: Business,
    state: ProgramState,
    caller: Pubkey,
    native: bool,
    business_recipient: Pubkey,
    platform_recipient: Pubkey,
    recipient: Pubkey,
    new_release_at: i64,
    now: i64,
    subscription_id: String,
)
    ensures
        spec_release(escrow, business, state, caller, native, business_recipient, platform_recipient, now) matches Ok((n, _))
            ==> same_terms(escrow, n),
        spec_refund(escrow, caller, native, recipient) matches Ok((n, _)) ==> same_terms(escrow, n),
        spec_pause_transaction(escrow, caller) matches Ok((n, _)) ==> same_terms(escrow, n),
        spec_resume_transaction(escrow, caller) matches Ok((n, _)) ==> same_terms(escrow, n),
        spec_update_escrow_release_time(escrow, business, state, caller, new_release_at, now) matches Ok(
            (n, _),
        ) ==> same_terms(escrow, n),
        spec_admin_override_release_time(escrow, caller, new_release_at, now) matches Ok((n, _))
            ==> same_terms(escrow, n),
        spec_link_escrow_to_subscription(state, escrow, subscription_id) matches Ok((n, _))
            ==> same_terms(escrow, n),
        forall|n: Escrow| same_terms(escrow, n) ==> (escrow.amounts_balance() <==> n.amounts_balance()),
{
}

/// Settlement pays the right parties: a release succeeds only when the
/// payout goes to the business's wallet and the fee to the program's
/// platform wallet, by the route of the escrow's token; a refund succeeds
/// only when the whole amount goes back to the escrow's customer.
pub proof fn law_settlement_recipients(
    escrow: Escrow,
    business: Business,
    state: ProgramState,
    caller: Pubkey,
    native: bool,
    business_recipient: Pubkey,
    platform_recipient: Pubkey,
    now: i64,
    authority: Pubkey,
    recipient: Pubkey,
)
    ensures
        spec_release(escrow, business, state, caller, native, business_recipient, platform_recipient, now) matches Ok(
            (_, event),
        ) ==> {
            &&& business_recipient == business.wallet_address
            &&& platform_recipient == state.platform_wallet
            &&& event.business_wallet == business.wallet_address
            &&& event.platform_wallet == state.platform_wallet
            &&& token_route_matches(escrow, native)
        },
        spec_refund(escrow, authority, native, recipient) matches Ok((_, event)) ==> {
            &&& recipient == escrow.customer
            &&& event.customer == escrow.customer
            &&& event.amount == escrow.amount
            &&& token_route_matches(escrow, native)
        },
{
}

/// An escrow created under a capped fee table gives the platform at most
/// half of the amount and the business at least half, the two adding up to
/// the amount.
pub proof fn law_created_fee_at_most_half(
    old_state: ProgramState,
    new_state: ProgramState,
    old_business: Business,
    new_business: Business,
    customer: Pubkey,
    escrow_id: String,
    business_id: String,
    token_address: Pubkey,
    amount: u64,
    metadata_uri: Option<String>,
    custom_release_at: Option<i64>,
    bump: u8,
    now: i64,
    product_type: u8,
    res: Result<(Escrow, EscrowCreated), EscrowError>,
)
    requires
        fee_table_capped(old_state.product_type_fees),
        create_arithmetic_fits(old_state, old_business, escrow_id@, amount, custom_release_at, now, product_type),
        create_outcome(
            old_state,
            new_state,
            old_business,
            new_business,
            customer,
            escrow_id,
            business_id,
            token_address,
            amount,
            metadata_uri,
            custom_release_at,
            bump,
            now,
            product_type,
            res,
        ),
        res is Ok,
    ensures
        ({
            let escrow = res->Ok_0.0;
            &&& escrow.amounts_balance()
            &&& escrow.platform_fee <= amount / 2
            &&& escrow.business_payout >= amount / 2
        }),
{
    let bps = spec_fee_bps(old_state.product_type_fees, product_type);
    law_fee_at_most_half(old_state.product_type_fees, product_type, amount);
    law_new_escrow_splits_amount(
        escrow_id,
        customer,
        business_id,
        token_address,
        amount,
        bps,
        metadata_uri,
        spec_release_at(custom_release_at, now, old_state.escrow_duration),
        now,
        bump,
        product_type,
    );
}

/// The general creations are the product-type creations at type 0: their
/// contracts are the same contract at type 0, under which a SOL creation is
/// exactly `create_outcome` with the native-SOL marker, and an SPL creation
/// of a whitelisted token is exactly `create_outcome` with its mint.
pub proof fn law_general_creation_is_type_zero(
    old_state: ProgramState,
    new_state: ProgramState,
    old_business: Business,
    new_business: Business,
    customer: Pubkey,
    token_mint: Pubkey,
    token_config: Option<TokenConfig>,
    escrow_id: String,
    business_id: String,
    amount: u64,
    metadata_uri: Option<String>,
    custom_release_at: Option<i64>,
    bump: u8,
    now: i64,
    res: Result<(Escrow, EscrowCreated), EscrowError>,
)
    ensures
        create_sol_contract(
            old_state, new_state, old_business, new_business, customer, escrow_id, business_id,
            amount, metadata_uri, custom_release_at, bump, now, 0, res,
        ) == create_outcome(
            old_state, new_state, old_business, new_business, customer, escrow_id, business_id,
            spec_native_sol(), amount, metadata_uri, custom_release_at, bump, now, 0, res,
        ),
        spl_token_error(token_config, token_mint, amount) is None ==> create_spl_contract(
            old_state, new_state, old_business, new_business, customer, token_mint, token_config,
            escrow_id, business_id, amount, metadata_uri, custom_release_at, bump, now, 0, res,
        ) == create_outcome(
            old_state, new_state, old_business, new_business, customer, escrow_id, business_id,
            token_mint, amount, metadata_uri, custom_release_at, bump, now, 0, res,
        ),
{
}

/// The fee-table cap holds in every reachable program state: initialization
/// establishes it (`law_fee_table_stays_capped`), and every instruction that
/// rewrites the program state keeps it, either by keeping the table as it is
/// or, for the fee setter, by refusing rates above the cap.
pub proof fn law_fee_cap_is_invariant(
    state: ProgramState,
    product_type: u8,
    fee_bps: u64,
    new_duration: i64,
    new_key: Pubkey,
    new_state: ProgramState,
    old_business: Business,
    new_business: Business,
    customer: Pubkey,
    escrow_id: String,
    business_id: String,
    token_address: Pubkey,
    amount: u64,
    metadata_uri: Option<String>,
    custom_release_at: Option<i64>,
    bump: u8,
    now: i64,
    res: Result<(Escrow, EscrowCreated), EscrowError>,
)
    requires
        fee_table_capped(state.product_type_fees),
    ensures
        spec_set_product_type_fee(state, product_type, fee_bps) matches Ok((s, _)) ==> fee_table_capped(
            s.product_type_fees,
        ),
        spec_update_escrow_duration(state, new_duration) matches Ok((s, _)) ==> fee_table_capped(
            s.product_type_fees,
        ),
        spec_update_platform_wallet(state, new_key) matches Ok((s, _)) ==> fee_table_capped(
            s.product_type_fees,
        ),
        fee_table_capped((ProgramState { nft_program: new_key, ..state }).product_type_fees),
        fee_table_capped((ProgramState { is_paused: true, ..state }).product_type_fees),
        fee_table_capped((ProgramState { is_paused: false, ..state }).product_type_fees),
        fee_table_capped((ProgramState { authority: new_key, ..state }).product_type_fees),
        create_outcome(
            state,
            new_state,
            old_business,
            new_business,
            customer,
            escrow_id,
            business_id,
            token_address,
            amount,
            metadata_uri,
            custom_release_at,
            bump,
            now,
            product_type,
            res,
        ) ==> fee_table_capped(new_state.product_type_fees),
{
    law_fee_table_stays_capped(state.authority, state.platform_wallet, state.escrow_duration, state.bump, state, product_type, fee_bps);
}

} // verus!
