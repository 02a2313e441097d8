use vstd::prelude::*;
use crate::pubkey::Pubkey;
use crate::text::{byte_len, utf8_byte_len};
use crate::escrow::error::EscrowError;
use crate::escrow::events::EscrowCreated;
use crate::escrow::fees::{fee_bps_for, spec_fee_bps, spec_platform_fee};
use crate::escrow::state::{
    native_sol, spec_native_sol, Business, BusinessStatus, Escrow, ProgramState, TokenConfig,
    TransactionStatus, BASIS_POINTS_DENOMINATOR, MAX_ESCROW_ID_LEN, MAX_RELEASE_TIME,
    MIN_SOL_AMOUNT, PRODUCT_TYPE_COUNT,
};

verus! {

/// The checks on the program, the business, the id and the amount, in the
/// order they are made: the first that fails.
pub open spec fn create_precheck(
    state: ProgramState,
    business: Business,
    escrow_id: Seq<char>,
    amount: u64,
) -> Option<EscrowError> {
    if state.is_paused {
        Some(EscrowError::ProgramPaused)
    } else if byte_len(escrow_id) > MAX_ESCROW_ID_LEN {
        Some(EscrowError::EscrowIdTooLong)
    } else if business.status != BusinessStatus::Active {
        Some(EscrowError::BusinessNotActive)
    } else if amount < MIN_SOL_AMOUNT {
        Some(EscrowError::InsufficientAmount)
    } else {
        None
    }
}

/// The check of a requested release time: it must lie after `now` and at
/// most `MAX_RELEASE_TIME` seconds after it.
pub open spec fn release_time_error(custom_release_at: Option<i64>, now: i64) -> Option<EscrowError> {
    match custom_release_at {
        Some(t) => if t <= now {
            Some(EscrowError::ReleaseTimeInPast)
        } else if t > now + MAX_RELEASE_TIME {
            Some(EscrowError::ReleaseTimeTooFar)
        } else {
            None
        },
        None => None,
    }
}

/// Why an escrow cannot be created, if it cannot.
pub open spec fn create_error(
    state: ProgramState,
    business: Business,
    escrow_id: Seq<char>,
    amount: u64,
    custom_release_at: Option<i64>,
    now: i64,
) -> Option<EscrowError> {
    match create_precheck(state, business, escrow_id, amount) {
        Some(e) => Some(e),
        None => release_time_error(custom_release_at, now),
    }
}

/// When a new escrow releases: at the requested time, or after the
/// program's default duration.
pub open spec fn spec_release_at(custom_release_at: Option<i64>, now: i64, duration: i64) -> int {
    match custom_release_at {
        Some(t) => t as int,
        None => now + duration,
    }
}

/// The inputs on which creating an escrow runs without arithmetic overflow:
/// the fee product, the release-time bound, the default release time and the
/// counters all fit where they are computed.
pub open spec fn create_arithmetic_fits(
    state: ProgramState,
    business: Business,
    escrow_id: Seq<char>,
    amount: u64,
    custom_release_at: Option<i64>,
    now: i64,
    product_type: u8,
) -> bool {
    let fee_bps = spec_fee_bps(state.product_type_fees, product_type);
    &&& create_precheck(state, business, escrow_id, amount) is None ==> {
        &&& amount * fee_bps <= u64::MAX
        &&& spec_platform_fee(amount, fee_bps) <= amount
        &&& (custom_release_at matches Some(t) && t > now) ==> now + MAX_RELEASE_TIME <= i64::MAX
        &&& custom_release_at is None ==> i64::MIN <= now + state.escrow_duration <= i64::MAX
    }
    &&& create_error(state, business, escrow_id, amount, custom_release_at, now) is None ==> {
        &&& business.total_transactions + 1 <= u64::MAX
        &&& business.total_volume + amount <= u64::MAX
        &&& state.total_escrows + 1 <= u64::MAX
        &&& state.total_volume + amount <= u64::MAX
    }
}

/// The escrow account that a successful creation writes.
pub open spec fn spec_new_escrow(
    escrow_id: String,
    customer: Pubkey,
    business_id: String,
    token_address: Pubkey,
    amount: u64,
    fee_bps: u64,
    metadata_uri: Option<String>,
    release_at: int,
    now: i64,
    bump: u8,
    product_type: u8,
) -> Escrow {
    let platform_fee = spec_platform_fee(amount, fee_bps);
    Escrow {
        escrow_id,
        customer,
        business_id,
        token_address,
        amount,
        business_payout: (amount - platform_fee) as u64,
        platform_fee: platform_fee as u64,
        status: TransactionStatus::Active,
        created_at: now,
        release_at: release_at as i64,
        refunded_by: None,
        nft_token_id: None,
        nft_metadata_uri: metadata_uri,
        bump,
        product_type,
        subscription_id: None,
    }
}

/// What creating an escrow does to the program, the business and the new
/// escrow account: on failure nothing changes; on success the escrow holds
/// the amount split into fee and payout, and both the program's and the
/// business's counters grow by one escrow and by the amount.
pub open spec fn create_outcome(
    old_state: ProgramState,
    new_state: ProgramState,
    old_business: Business,
    new_business: Business,
    customer: Pubkey,
    escrow_id: String,
    business_id: String,
    token_address: Pubkey,
    amount: u64,
    metadata_uri: Option<String>,
    custom_release_at: Option<i64>,
    bump: u8,
    now: i64,
    product_type: u8,
    res: Result<(Escrow, EscrowCreated), EscrowError>,
) -> bool {
    let err = create_error(old_state, old_business, escrow_id@, amount, custom_release_at, now);
    match res {
        Err(e) => {
            &&& err == Some(e)
            &&& new_state == old_state
            &&& new_business == old_business
        },
        Ok((escrow, event)) => {
            &&& err is None
            &&& escrow == spec_new_escrow(
                escrow_id,
                customer,
                business_id,
                token_address,
                amount,
                spec_fee_bps(old_state.product_type_fees, product_type),
                metadata_uri,
                spec_release_at(custom_release_at, now, old_state.escrow_duration),
                now,
                bump,
                product_type,
            )
            &&& new_state == ProgramState {
                total_escrows: (old_state.total_escrows + 1) as u64,
                total_volume: (old_state.total_volume + amount) as u64,
                ..old_state
            }
            &&& new_business == Business {
                total_transactions: (old_business.total_transactions + 1) as u64,
                total_volume: (old_business.total_volume + amount) as u64,
                ..old_business
            }
            &&& event == EscrowCreated {
                escrow_id,
                customer,
                business_id: old_business.business_id,
                token_address,
                amount,
            }
        },
    }
}

/// Whether creating an escrow with these inputs stays within machine
/// arithmetic, as `create_arithmetic_fits` states it; the create
/// instructions run only on such inputs.
pub fn create_arithmetic_fits_for(
    state: &ProgramState,
    business: &Business,
    escrow_id: &String,
    amount: u64,
    custom_release_at: Option<i64>,
    now: i64,
    product_type: u8,
) -> (ok: bool)
    ensures
        ok == create_arithmetic_fits(*state, *business, escrow_id@, amount, custom_release_at, now, product_type),
{
    if state.is_paused || utf8_byte_len(escrow_id) > MAX_ESCROW_ID_LEN || business.status
        != BusinessStatus::Active || amount < MIN_SOL_AMOUNT {
        return true;
    }
    let fee_bps = fee_bps_for(state, product_type);
    assert((amount as int) * (fee_bps as int) <= (u64::MAX as int) * (u64::MAX as int)) by (nonlinear_arith)
        requires
            amount <= u64::MAX,
            fee_bps <= u64::MAX,
    ;
    assert(0 <= (amount as int) * (fee_bps as int)) by (nonlinear_arith);
    let product: u128 = (amount as u128) * (fee_bps as u128);
    if product > (u64::MAX as u128) {
        return false;
    }
    if product / 10000 > (amount as u128) {
        return false;
    }
    let released = match custom_release_at {
        Some(t) => {
            if t > now && (now as i128) + (MAX_RELEASE_TIME as i128) > (i64::MAX as i128) {
                return false;
            }
            t > now && (t as i128) <= (now as i128) + (MAX_RELEASE_TIME as i128)
        },
        None => {
            let due = (now as i128) + (state.escrow_duration as i128);
            if due < (i64::MIN as i128) || due > (i64::MAX as i128) {
                return false;
            }
            true
        },
    };
    if !released {
        return true;
    }
    business.total_transactions < u64::MAX && (business.total_volume as u128) + (amount as u128)
        <= (u64::MAX as u128) && state.total_escrows < u64::MAX && (state.total_volume as u128)
        + (amount as u128) <= (u64::MAX as u128)
}

/// Creates an escrow of the default product type (general).
fn _create_escrow(
    state: &mut ProgramState,
    business: &mut Business,
    customer: Pubkey,
    escrow_id: String,
    business_id: String,
    token_address: Pubkey,
    amount: u64,
    metadata_uri: Option<String>,
    custom_release_at: Option<i64>,
    bump: u8,
    now: i64,
) -> (res: Result<(Escrow, EscrowCreated), EscrowError>)
    requires
        create_arithmetic_fits(*old(state), *old(business), escrow_id@, amount, custom_release_at, now, 0),
    ensures
        create_outcome(
            *old(state),
            *final(state),
            *old(business),
            *final(business),
            customer,
            escrow_id,
            business_id,
            token_address,
            amount,
            metadata_uri,
            custom_release_at,
            bump,
            now,
            0,
            res,
        ),
{
    _create_escrow_with_product_type(
        state,
        business,
        customer,
        escrow_id,
        business_id,
        token_address,
        amount,
        metadata_uri,
        custom_release_at,
        bump,
        now,
        0,
    )
}

/// Validates the request, splits the amount into platform fee and business
/// payout, fixes the release time, writes the escrow and updates the
/// counters.
fn _create_escrow_with_product_type(
    state: &mut ProgramState,
    business: &mut Business,
    customer: Pubkey,
    escrow_id: String,
    business_id: String,
    token_address: Pubkey,
    amount: u64,
    metadata_uri: Option<String>,
    custom_release_at: Option<i64>,
    bump: u8,
    now: i64,
    product_type: u8,
) -> (res: Result<(Escrow, EscrowCreated), EscrowError>)
    requires
        create_arithmetic_fits(
            *old(state),
            *old(business),
            escrow_id@,
            amount,
            custom_release_at,
            now,
            product_type,
        ),
    ensures
        create_outcome(
            *old(state),
            *final(state),
            *old(business),
            *final(business),
            customer,
            escrow_id,
            business_id,
            token_address,
            amount,
            metadata_uri,
            custom_release_at,
            bump,
            now,
            product_type,
            res,
        ),
{
    if state.is_paused {
        return Err(EscrowError::ProgramPaused);
    }
    if utf8_byte_len(&escrow_id) > MAX_ESCROW_ID_LEN {
        return Err(EscrowError::EscrowIdTooLong);
    }
    if business.status != BusinessStatus::Active {
        return Err(EscrowError::BusinessNotActive);
    }
    if amount < MIN_SOL_AMOUNT {
        return Err(EscrowError::InsufficientAmount);
    }

    let fee_bps = fee_bps_for(state, product_type);
    let platform_fee = (amount * fee_bps) / BASIS_POINTS_DENOMINATOR;
    let business_payout = amount - platform_fee;

    let release_at = match custom_release_at {
        Some(custom_time) => {
            if custom_time <= now {
                return Err(EscrowError::ReleaseTimeInPast);
            }
            if custom_time > now + MAX_RELEASE_TIME {
                return Err(EscrowError::ReleaseTimeTooFar);
            }
            custom_time
        },
        None => now + state.escrow_duration,
    };

    let event_escrow_id = escrow_id.clone();
    let event_business_id = business.business_id.clone();
    let escrow = Escrow {
        escrow_id,
        customer,
        business_id,
        token_address,
        amount,
        business_payout,
        platform_fee,
        status: TransactionStatus::Active,
        created_at: now,
        release_at,
        refunded_by: None,
        nft_token_id: None,
        nft_metadata_uri: metadata_uri,
        bump,
        product_type,
        subscription_id: None,
    };

    business.total_transactions = business.total_transactions + 1;
    business.total_volume = business.total_volume + amount;
    state.total_escrows = state.total_escrows + 1;
    state.total_volume = state.total_volume + amount;

    let event = EscrowCreated {
        escrow_id: event_escrow_id,
        customer,
        business_id: event_business_id,
        token_address,
        amount,
    };
    Ok((escrow, event))
}

/// The whitelist check of an SPL escrow: the token's configuration must
/// exist, be active and belong to the token's mint, and the amount must
/// reach the token's minimum.
pub open spec fn spl_token_error(token_config: Option<TokenConfig>, token_mint: Pubkey, amount: u64) -> Option<EscrowError> {
    match token_config {
        None => Some(EscrowError::TokenNotWhitelisted),
        Some(config) => if !config.is_active || config.token_mint != token_mint {
            Some(EscrowError::TokenNotWhitelisted)
        } else if amount < config.min_amount {
            Some(EscrowError::InsufficientAmount)
        } else {
            None
        },
    }
}

/// The whitelist check of an SPL escrow, as `spl_token_error` states it.
pub fn spl_token_check(token_config: &Option<TokenConfig>, token_mint: Pubkey, amount: u64) -> (r: Option<EscrowError>)
    ensures
        r == spl_token_error(*token_config, token_mint, amount),
{
    match token_config {
        None => Some(EscrowError::TokenNotWhitelisted),
        Some(config) => {
            if !config.is_active || config.token_mint != token_mint {
                Some(EscrowError::TokenNotWhitelisted)
            } else if amount < config.min_amount {
                Some(EscrowError::InsufficientAmount)
            } else {
                None
            }
        },
    }
}

/// What creating a native-SOL escrow of a product type does: a product type
/// outside the table is refused and nothing changes; otherwise the creation
/// goes as `create_outcome` states, with the native-SOL marker as token.
pub open spec fn create_sol_contract(
    old_state: ProgramState,
    new_state: ProgramState,
    old_business: Business,
    new_business: Business,
    customer: Pubkey,
    escrow_id: String,
    business_id: String,
    amount: u64,
    metadata_uri: Option<String>,
    custom_release_at: Option<i64>,
    bump: u8,
    now: i64,
    product_type: u8,
    res: Result<(Escrow, EscrowCreated), EscrowError>,
) -> bool {
    if (product_type as usize) >= PRODUCT_TYPE_COUNT {
        &&& res == Err::<(Escrow, EscrowCreated), EscrowError>(EscrowError::InvalidProductType)
        &&& new_state == old_state
        &&& new_business == old_business
    } else {
        create_outcome(
            old_state,
            new_state,
            old_business,
            new_business,
            customer,
            escrow_id,
            business_id,
            spec_native_sol(),
            amount,
            metadata_uri,
            custom_release_at,
            bump,
            now,
            product_type,
            res,
        )
    }
}

/// What creating an SPL escrow of a product type does: a product type
/// outside the table, or a token that is not whitelisted or an amount below
/// its minimum, is refused and nothing changes; otherwise the creation goes
/// as `create_outcome` states, with the token's mint as token.
pub open spec fn create_spl_contract(
    old_state: ProgramState,
    new_state: ProgramState,
    old_business: Business,
    new_business: Business,
    customer: Pubkey,
    token_mint: Pubkey,
    token_config: Option<TokenConfig>,
    escrow_id: String,
    business_id: String,
    amount: u64,
    metadata_uri: Option<String>,
    custom_release_at: Option<i64>,
    bump: u8,
    now: i64,
    product_type: u8,
    res: Result<(Escrow, EscrowCreated), EscrowError>,
) -> bool {
    if (product_type as usize) >= PRODUCT_TYPE_COUNT {
        &&& res == Err::<(Escrow, EscrowCreated), EscrowError>(EscrowError::InvalidProductType)
        &&& new_state == old_state
        &&& new_business == old_business
    } else if spl_token_error(token_config, token_mint, amount) is Some {
        &&& res == Err::<(Escrow, EscrowCreated), EscrowError>(
            spl_token_error(token_config, token_mint, amount)->Some_0,
        )
        &&& new_state == old_state
        &&& new_business == old_business
    } else {
        create_outcome(
            old_state,
            new_state,
            old_business,
            new_business,
            customer,
            escrow_id,
            business_id,
            token_mint,
            amount,
            metadata_uri,
            custom_release_at,
            bump,
            now,
            product_type,
            res,
        )
    }
}

/// The inputs on which creating an SPL escrow runs without overflow: those
/// that reach the general creation and fit its arithmetic.
pub open spec fn create_spl_fits(
    state: ProgramState,
    business: Business,
    token_mint: Pubkey,
    token_config: Option<TokenConfig>,
    escrow_id: Seq<char>,
    amount: u64,
    custom_release_at: Option<i64>,
    now: i64,
    product_type: u8,
) -> bool {
    ((product_type as usize) < PRODUCT_TYPE_COUNT && spl_token_error(token_config, token_mint, amount) is None)
        ==> create_arithmetic_fits(state, business, escrow_id, amount, custom_release_at, now, product_type)
}

/// Creates an escrow of native SOL (general product type). The caller moves
/// `amount` lamports from the customer into the escrow account afterwards.
pub fn create_escrow_sol(
    state: &mut ProgramState,
    business: &mut Business,
    customer: Pubkey,
    escrow_id: String,
    business_id: String,
    amount: u64,
    metadata_uri: Option<String>,
    custom_release_at: Option<i64>,
    bump: u8,
    now: i64,
) -> (res: Result<(Escrow, EscrowCreated), EscrowError>)
    requires
        create_arithmetic_fits(*old(state), *old(business), escrow_id@, amount, custom_release_at, now, 0),
    ensures
        create_sol_contract(
            *old(state),
            *final(state),
            *old(business),
            *final(business),
            customer,
            escrow_id,
            business_id,
            amount,
            metadata_uri,
            custom_release_at,
            bump,
            now,
            0,
            res,
        ),
{
    _create_escrow(
        state,
        business,
        customer,
        escrow_id,
        business_id,
        native_sol(),
        amount,
        metadata_uri,
        custom_release_at,
        bump,
        now,
    )
}

/// Creates an escrow of a whitelisted SPL token (general product type).
/// `token_config` is the token's whitelist entry, if it has one. The caller
/// moves `amount` tokens from the customer's token account into the
/// escrow's token account afterwards.
pub fn create_escrow_spl(
    state: &mut ProgramState,
    business: &mut Business,
    customer: Pubkey,
    token_mint: Pubkey,
    token_config: &Option<TokenConfig>,
    escrow_id: String,
    business_id: String,
    amount: u64,
    metadata_uri: Option<String>,
    custom_release_at: Option<i64>,
    bump: u8,
    now: i64,
) -> (res: Result<(Escrow, EscrowCreated), EscrowError>)
    requires
        create_spl_fits(*old(state), *old(business), token_mint, *token_config, escrow_id@, amount, custom_release_at, now, 0),
    ensures
        create_spl_contract(
            *old(state),
            *final(state),
            *old(business),
            *final(business),
            customer,
            token_mint,
            *token_config,
            escrow_id,
            business_id,
            amount,
            metadata_uri,
            custom_release_at,
            bump,
            now,
            0,
            res,
        ),
{
    if let Some(e) = spl_token_check(token_config, token_mint, amount) {
        return Err(e);
    }
    _create_escrow(
        state,
        business,
        customer,
        escrow_id,
        business_id,
        token_mint,
        amount,
        metadata_uri,
        custom_release_at,
        bump,
        now,
    )
}

/// Creates an escrow of native SOL for the given product type, whose fee
/// rate then applies. Product types outside the table are refused.
pub fn create_escrow_sol_with_product_type(
    state: &mut ProgramState,
    business: &mut Business,
    customer: Pubkey,
    escrow_id: String,
    business_id: String,
    amount: u64,
    metadata_uri: Option<String>,
    custom_release_at: Option<i64>,
    bump: u8,
    now: i64,
    product_type: u8,
) -> (res: Result<(Escrow, EscrowCreated), EscrowError>)
    requires
        (product_type as usize) < PRODUCT_TYPE_COUNT ==> create_arithmetic_fits(
            *old(state),
            *old(business),
            escrow_id@,
            amount,
            custom_release_at,
            now,
            product_type,
        ),
    ensures
        create_sol_contract(
            *old(state),
            *final(state),
            *old(business),
            *final(business),
            customer,
            escrow_id,
            business_id,
            amount,
            metadata_uri,
            custom_release_at,
            bump,
            now,
            product_type,
            res,
        ),
{
    if (product_type as usize) >= PRODUCT_TYPE_COUNT {
        return Err(EscrowError::InvalidProductType);
    }
    _create_escrow_with_product_type(
        state,
        business,
        customer,
        escrow_id,
        business_id,
        native_sol(),
        amount,
        metadata_uri,
        custom_release_at,
        bump,
        now,
        product_type,
    )
}

/// Creates an escrow of a whitelisted SPL token for the given product type,
/// whose fee rate then applies. Product types outside the table are refused
/// first, then tokens that are not whitelisted and amounts below the
/// token's minimum.
pub fn create_escrow_spl_with_product_type(
    state: &mut ProgramState,
    business: &mut Business,
    customer: Pubkey,
    token_mint: Pubkey,
    token_config: &Option<TokenConfig>,
    escrow_id: String,
    business_id: String,
    amount: u64,
    metadata_uri: Option<String>,
    custom_release_at: Option<i64>,
    bump: u8,
    now: i64,
    product_type: u8,
) -> (res: Result<(Escrow, EscrowCreated), EscrowError>)
    requires
        create_spl_fits(
            *old(state),
            *old(business),
            token_mint,
            *token_config,
            escrow_id@,
            amount,
            custom_release_at,
            now,
            product_type,
        ),
    ensures
        create_spl_contract(
            *old(state),
            *final(state),
            *old(business),
            *final(business),
            customer,
            token_mint,
            *token_config,
            escrow_id,
            business_id,
            amount,
            metadata_uri,
            custom_release_at,
            bump,
            now,
            product_type,
            res,
        ),
{
    if (product_type as usize) >= PRODUCT_TYPE_COUNT {
        return Err(EscrowError::InvalidProductType);
    }
    if let Some(e) = spl_token_check(token_config, token_mint, amount) {
        return Err(e);
    }
    _create_escrow_with_product_type(
        state,
        business,
        customer,
        escrow_id,
        business_id,
        token_mint,
        amount,
        metadata_uri,
        custom_release_at,
        bump,
        now,
        product_type,
    )
}

} // verus!
