use vstd::prelude::*;
use crate::pubkey::Pubkey;
use crate::escrow::error::EscrowError;
use crate::outcome::applied;
use crate::escrow::events::{
    AdminReleaseTimeOverride, EscrowReleaseTimeUpdated, FundsReleased, RefundProcessed,
    SubscriptionEscrowLinked, TransactionPaused, TransactionResumed,
};
use crate::escrow::state::{
    native_sol, spec_native_sol, Business, Escrow, ProgramState, TransactionStatus, MAX_RELEASE_TIME,
};

verus! {

/// Who may release an escrow: its customer, the business's wallet, or the
/// program authority.
pub open spec fn may_release(escrow: Escrow, business: Business, state: ProgramState, caller: Pubkey) -> bool {
    caller == escrow.customer || caller == business.wallet_address || caller == state.authority
}

/// Whether an escrow's token matches the settlement route: native-SOL
/// escrows (marked by the native-SOL address) settle in lamports, all
/// others in SPL tokens.
pub open spec fn token_route_matches(escrow: Escrow, native: bool) -> bool {
    (escrow.token_address == spec_native_sol()) == native
}

/// Releasing an escrow: it must be active, due (`now` at or after its release
/// time), asked for by someone who may release it, settled by the route of
/// its token (`native` for lamports, otherwise SPL tokens), and paid to the
/// business's wallet and the program's platform wallet
/// (`business_recipient` and `platform_recipient` are the owners of the
/// receiving accounts). It then becomes completed; the payout goes to the
/// business wallet and the fee to the platform wallet.
pub open spec fn spec_release(
    escrow: Escrow,
    business: Business,
    state: ProgramState,
    caller: Pubkey,
    native: bool,
    business_recipient: Pubkey,
    platform_recipient: Pubkey,
    now: i64,
) -> Result<(Escrow, FundsReleased), EscrowError> {
    if escrow.status != TransactionStatus::Active {
        Err(EscrowError::EscrowNotActive)
    } else if now < escrow.release_at {
        Err(EscrowError::EscrowNotReady)
    } else if !may_release(escrow, business, state, caller) {
        Err(EscrowError::UnauthorizedRelease)
    } else if !token_route_matches(escrow, native) {
        Err(EscrowError::TokenNotSupported)
    } else if business_recipient != business.wallet_address || platform_recipient != state.platform_wallet {
        Err(EscrowError::InvalidAddress)
    } else {
        Ok(
            (
                Escrow { status: TransactionStatus::Completed, ..escrow },
                FundsReleased {
                    escrow_id: escrow.escrow_id,
                    business_wallet: business.wallet_address,
                    platform_wallet: state.platform_wallet,
                    business_amount: escrow.business_payout,
                    platform_amount: escrow.platform_fee,
                },
            ),
        )
    }
}

fn is_native(token_address: &Pubkey) -> (r: bool)
    ensures
        r == (*token_address == spec_native_sol()),
{
    *token_address == native_sol()
}

fn release(
    escrow: &mut Escrow,
    business: &Business,
    state: &ProgramState,
    caller: Pubkey,
    native: bool,
    business_recipient: Pubkey,
    platform_recipient: Pubkey,
    now: i64,
) -> (res: Result<FundsReleased, EscrowError>)
    ensures
        applied(
            *old(escrow),
            *final(escrow),
            res,
            spec_release(*old(escrow), *business, *state, caller, native, business_recipient, platform_recipient, now),
        ),
{
    if escrow.status != TransactionStatus::Active {
        return Err(EscrowError::EscrowNotActive);
    }
    if now < escrow.release_at {
        return Err(EscrowError::EscrowNotReady);
    }
    if !(caller == escrow.customer || caller == business.wallet_address || caller == state.authority) {
        return Err(EscrowError::UnauthorizedRelease);
    }
    if is_native(&escrow.token_address) != native {
        return Err(EscrowError::TokenNotSupported);
    }
    if business_recipient != business.wallet_address || platform_recipient != state.platform_wallet {
        return Err(EscrowError::InvalidAddress);
    }
    escrow.status = TransactionStatus::Completed;
    Ok(
        FundsReleased {
            escrow_id: escrow.escrow_id.clone(),
            business_wallet: business.wallet_address,
            platform_wallet: state.platform_wallet,
            business_amount: escrow.business_payout,
            platform_amount: escrow.platform_fee,
        },
    )
}

/// Releases a native-SOL escrow to the accounts `business_wallet` and
/// `platform_wallet`, which must be the business's wallet and the program's
/// platform wallet. The caller then moves `business_payout` lamports to the
/// business wallet and `platform_fee` lamports to the platform wallet.
pub fn release_funds_sol(
    escrow: &mut Escrow,
    business: &Business,
    state: &ProgramState,
    caller: Pubkey,
    business_wallet: Pubkey,
    platform_wallet: Pubkey,
    now: i64,
) -> (res: Result<FundsReleased, EscrowError>)
    ensures
        applied(
            *old(escrow),
            *final(escrow),
            res,
            spec_release(*old(escrow), *business, *state, caller, true, business_wallet, platform_wallet, now),
        ),
        res is Ok ==> business_wallet == business.wallet_address && platform_wallet == state.platform_wallet
            && old(escrow).token_address == spec_native_sol(),
{
    release(escrow, business, state, caller, true, business_wallet, platform_wallet, now)
}

/// Releases an SPL-token escrow. `business_token_owner` and
/// `platform_token_owner` are the owners of the receiving token accounts;
/// they must be the business's wallet and the program's platform wallet. The
/// caller then transfers the payout and the fee out of the escrow's token
/// account into those accounts.
pub fn release_funds_spl(
    escrow: &mut Escrow,
    business: &Business,
    state: &ProgramState,
    caller: Pubkey,
    business_token_owner: Pubkey,
    platform_token_owner: Pubkey,
    now: i64,
) -> (res: Result<FundsReleased, EscrowError>)
    ensures
        applied(
            *old(escrow),
            *final(escrow),
            res,
            spec_release(*old(escrow), *business, *state, caller, false, business_token_owner, platform_token_owner, now),
        ),
        res is Ok ==> business_token_owner == business.wallet_address && platform_token_owner
            == state.platform_wallet && old(escrow).token_address != spec_native_sol(),
{
    release(escrow, business, state, caller, false, business_token_owner, platform_token_owner, now)
}

/// Refunding an escrow: only an active or paused escrow can be refunded, by
/// the route of its token (`native` for lamports, otherwise SPL tokens), and
/// only to its customer (`recipient` is the owner of the receiving account).
/// It becomes refunded, records who refunded it, and its whole amount goes
/// back to the customer.
pub open spec fn spec_refund(
    escrow: Escrow,
    authority: Pubkey,
    native: bool,
    recipient: Pubkey,
) -> Result<(Escrow, RefundProcessed), EscrowError> {
    if !escrow.is_open() {
        Err(EscrowError::CannotRefund)
    } else if !token_route_matches(escrow, native) {
        Err(EscrowError::TokenNotSupported)
    } else if recipient != escrow.customer {
        Err(EscrowError::InvalidAddress)
    } else {
        Ok(
            (
                Escrow {
                    status: TransactionStatus::Refunded,
                    refunded_by: Some(authority),
                    ..escrow
                },
                RefundProcessed {
                    escrow_id: escrow.escrow_id,
                    customer: escrow.customer,
                    amount: escrow.amount,
                    refunded_by: authority,
                },
            ),
        )
    }
}

fn refund(escrow: &mut Escrow, authority: Pubkey, native: bool, recipient: Pubkey) -> (res: Result<RefundProcessed, EscrowError>)
    ensures
        applied(*old(escrow), *final(escrow), res, spec_refund(*old(escrow), authority, native, recipient)),
{
    if !(escrow.status == TransactionStatus::Active || escrow.status == TransactionStatus::Paused) {
        return Err(EscrowError::CannotRefund);
    }
    if is_native(&escrow.token_address) != native {
        return Err(EscrowError::TokenNotSupported);
    }
    if recipient != escrow.customer {
        return Err(EscrowError::InvalidAddress);
    }
    escrow.status = TransactionStatus::Refunded;
    escrow.refunded_by = Some(authority);
    Ok(
        RefundProcessed {
            escrow_id: escrow.escrow_id.clone(),
            customer: escrow.customer,
            amount: escrow.amount,
            refunded_by: authority,
        },
    )
}

/// Refunds a native-SOL escrow to the account `customer`, which must be the
/// escrow's customer; the caller then moves `amount` lamports from the
/// escrow account to it.
pub fn process_refund_sol(escrow: &mut Escrow, authority: Pubkey, customer: Pubkey) -> (res: Result<RefundProcessed, EscrowError>)
    ensures
        applied(*old(escrow), *final(escrow), res, spec_refund(*old(escrow), authority, true, customer)),
        res is Ok ==> customer == old(escrow).customer && old(escrow).token_address == spec_native_sol(),
{
    refund(escrow, authority, true, customer)
}

/// Refunds an SPL-token escrow to a token account owned by
/// `customer_token_owner`, which must be the escrow's customer; the caller
/// then transfers `amount` tokens from the escrow's token account to it.
pub fn process_refund_spl(
    escrow: &mut Escrow,
    authority: Pubkey,
    customer_token_owner: Pubkey,
) -> (res: Result<RefundProcessed, EscrowError>)
    ensures
        applied(*old(escrow), *final(escrow), res, spec_refund(*old(escrow), authority, false, customer_token_owner)),
        res is Ok ==> customer_token_owner == old(escrow).customer && old(escrow).token_address
            != spec_native_sol(),
{
    refund(escrow, authority, false, customer_token_owner)
}

/// Pausing: only an active escrow can be paused.
pub open spec fn spec_pause_transaction(escrow: Escrow, authority: Pubkey) -> Result<(Escrow, TransactionPaused), EscrowError> {
    if escrow.status != TransactionStatus::Active {
        Err(EscrowError::TransactionNotActive)
    } else {
        Ok(
            (
                Escrow { status: TransactionStatus::Paused, ..escrow },
                TransactionPaused { escrow_id: escrow.escrow_id, paused_by: authority },
            ),
        )
    }
}

/// Pauses an active escrow.
pub fn pause_transaction(escrow: &mut Escrow, authority: Pubkey) -> (res: Result<TransactionPaused, EscrowError>)
    ensures
        applied(*old(escrow), *final(escrow), res, spec_pause_transaction(*old(escrow), authority)),
{
    if escrow.status != TransactionStatus::Active {
        return Err(EscrowError::TransactionNotActive);
    }
    escrow.status = TransactionStatus::Paused;
    Ok(TransactionPaused { escrow_id: escrow.escrow_id.clone(), paused_by: authority })
}

/// Resuming: only a paused escrow can be resumed; it becomes active again.
pub open spec fn spec_resume_transaction(escrow: Escrow, authority: Pubkey) -> Result<(Escrow, TransactionResumed), EscrowError> {
    if escrow.status != TransactionStatus::Paused {
        Err(EscrowError::TransactionNotPaused)
    } else {
        Ok(
            (
                Escrow { status: TransactionStatus::Active, ..escrow },
                TransactionResumed { escrow_id: escrow.escrow_id, resumed_by: authority },
            ),
        )
    }
}

/// Resumes a paused escrow.
pub fn resume_transaction(escrow: &mut Escrow, authority: Pubkey) -> (res: Result<TransactionResumed, EscrowError>)
    ensures
        applied(*old(escrow), *final(escrow), res, spec_resume_transaction(*old(escrow), authority)),
{
    if escrow.status != TransactionStatus::Paused {
        return Err(EscrowError::TransactionNotPaused);
    }
    escrow.status = TransactionStatus::Active;
    Ok(TransactionResumed { escrow_id: escrow.escrow_id.clone(), resumed_by: authority })
}

/// Who may reschedule an escrow: the program authority or the business's
/// wallet.
pub open spec fn may_reschedule(business: Business, state: ProgramState, caller: Pubkey) -> bool {
    caller == state.authority || caller == business.wallet_address
}

/// Rescheduling by the business or the authority: the escrow must be open,
/// the caller allowed, and the new time after `now`, at most a year after
/// it, and not earlier than the current release time.
pub open spec fn spec_update_escrow_release_time(
    escrow: Escrow,
    business: Business,
    state: ProgramState,
    caller: Pubkey,
    new_release_at: i64,
    now: i64,
) -> Result<(Escrow, EscrowReleaseTimeUpdated), EscrowError> {
    if !escrow.is_open() {
        Err(EscrowError::TransactionNotActive)
    } else if !may_reschedule(business, state, caller) {
        Err(EscrowError::UnauthorizedReleaseTimeUpdate)
    } else if new_release_at <= now {
        Err(EscrowError::ReleaseTimeInPast)
    } else if new_release_at > now + MAX_RELEASE_TIME {
        Err(EscrowError::ReleaseTimeTooFar)
    } else if new_release_at < escrow.release_at {
        Err(EscrowError::CannotShortenReleaseTime)
    } else {
        Ok(
            (
                Escrow { release_at: new_release_at, ..escrow },
                EscrowReleaseTimeUpdated {
                    escrow_id: escrow.escrow_id,
                    old_release_at: escrow.release_at,
                    new_release_at,
                    updated_by: caller,
                },
            ),
        )
    }
}

/// The inputs on which a reschedule by the business or the authority runs
/// without overflow: the one-year bound is computed only once the escrow is
/// open, the caller allowed and the new time in the future.
pub open spec fn reschedule_fits(
    escrow: Escrow,
    business: Business,
    state: ProgramState,
    caller: Pubkey,
    new_release_at: i64,
    now: i64,
) -> bool {
    (escrow.is_open() && may_reschedule(business, state, caller) && new_release_at > now) ==> now
        + MAX_RELEASE_TIME <= i64::MAX
}

/// Whether `update_escrow_release_time` may run on these inputs.
pub fn reschedule_fits_for(
    escrow: &Escrow,
    business: &Business,
    state: &ProgramState,
    caller: Pubkey,
    new_release_at: i64,
    now: i64,
) -> (ok: bool)
    ensures
        ok == reschedule_fits(*escrow, *business, *state, caller, new_release_at, now),
{
    let reached = (escrow.status == TransactionStatus::Active || escrow.status == TransactionStatus::Paused)
        && (caller == state.authority || caller == business.wallet_address) && new_release_at > now;
    !reached || now <= i64::MAX - MAX_RELEASE_TIME
}

/// Moves an escrow's release time later (event reschedules).
pub fn update_escrow_release_time(
    escrow: &mut Escrow,
    business: &Business,
    state: &ProgramState,
    caller: Pubkey,
    new_release_at: i64,
    now: i64,
) -> (res: Result<EscrowReleaseTimeUpdated, EscrowError>)
    requires
        reschedule_fits(*old(escrow), *business, *state, caller, new_release_at, now),
    ensures
        applied(
            *old(escrow),
            *final(escrow),
            res,
            spec_update_escrow_release_time(*old(escrow), *business, *state, caller, new_release_at, now),
        ),
{
    if !(escrow.status == TransactionStatus::Active || escrow.status == TransactionStatus::Paused) {
        return Err(EscrowError::TransactionNotActive);
    }
    if !(caller == state.authority || caller == business.wallet_address) {
        return Err(EscrowError::UnauthorizedReleaseTimeUpdate);
    }
    if new_release_at <= now {
        return Err(EscrowError::ReleaseTimeInPast);
    }
    if new_release_at > now + MAX_RELEASE_TIME {
        return Err(EscrowError::ReleaseTimeTooFar);
    }
    if new_release_at < escrow.release_at {
        return Err(EscrowError::CannotShortenReleaseTime);
    }
    let old_release_at = escrow.release_at;
    escrow.release_at = new_release_at;
    Ok(
        EscrowReleaseTimeUpdated {
            escrow_id: escrow.escrow_id.clone(),
            old_release_at,
            new_release_at,
            updated_by: caller,
        },
    )
}

/// The authority's reschedule: like the business's, but it may also move
/// the release time earlier.
pub open spec fn spec_admin_override_release_time(
    escrow: Escrow,
    authority: Pubkey,
    new_release_at: i64,
    now: i64,
) -> Result<(Escrow, AdminReleaseTimeOverride), EscrowError> {
    if !escrow.is_open() {
        Err(EscrowError::TransactionNotActive)
    } else if new_release_at <= now {
        Err(EscrowError::ReleaseTimeInPast)
    } else if new_release_at > now + MAX_RELEASE_TIME {
        Err(EscrowError::ReleaseTimeTooFar)
    } else {
        Ok(
            (
                Escrow { release_at: new_release_at, ..escrow },
                AdminReleaseTimeOverride {
                    escrow_id: escrow.escrow_id,
                    old_release_at: escrow.release_at,
                    new_release_at,
                    admin: authority,
                },
            ),
        )
    }
}

/// The inputs on which the authority's reschedule runs without overflow.
pub open spec fn override_fits(escrow: Escrow, new_release_at: i64, now: i64) -> bool {
    (escrow.is_open() && new_release_at > now) ==> now + MAX_RELEASE_TIME <= i64::MAX
}

/// Whether `admin_override_release_time` may run on these inputs.
pub fn override_fits_for(escrow: &Escrow, new_release_at: i64, now: i64) -> (ok: bool)
    ensures
        ok == override_fits(*escrow, new_release_at, now),
{
    let reached = (escrow.status == TransactionStatus::Active || escrow.status == TransactionStatus::Paused)
        && new_release_at > now;
    !reached || now <= i64::MAX - MAX_RELEASE_TIME
}

/// Sets an escrow's release time to any time in the coming year.
pub fn admin_override_release_time(
    escrow: &mut Escrow,
    authority: Pubkey,
    new_release_at: i64,
    now: i64,
) -> (res: Result<AdminReleaseTimeOverride, EscrowError>)
    requires
        override_fits(*old(escrow), new_release_at, now),
    ensures
        applied(
            *old(escrow),
            *final(escrow),
            res,
            spec_admin_override_release_time(*old(escrow), authority, new_release_at, now),
        ),
{
    if !(escrow.status == TransactionStatus::Active || escrow.status == TransactionStatus::Paused) {
        return Err(EscrowError::TransactionNotActive);
    }
    if new_release_at <= now {
        return Err(EscrowError::ReleaseTimeInPast);
    }
    if new_release_at > now + MAX_RELEASE_TIME {
        return Err(EscrowError::ReleaseTimeTooFar);
    }
    let old_release_at = escrow.release_at;
    escrow.release_at = new_release_at;
    Ok(
        AdminReleaseTimeOverride {
            escrow_id: escrow.escrow_id.clone(),
            old_release_at,
            new_release_at,
            admin: authority,
        },
    )
}

/// Linking an escrow to a subscription: refused while the program is
/// paused; otherwise the escrow records the subscription id.
pub open spec fn spec_link_escrow_to_subscription(
    state: ProgramState,
    escrow: Escrow,
    subscription_id: String,
) -> Result<(Escrow, SubscriptionEscrowLinked), EscrowError> {
    if state.is_paused {
        Err(EscrowError::ProgramPaused)
    } else {
        Ok(
            (
                Escrow { subscription_id: Some(subscription_id), ..escrow },
                SubscriptionEscrowLinked { escrow_id: escrow.escrow_id, subscription_id },
            ),
        )
    }
}

/// Records the subscription an escrow belongs to.
pub fn link_escrow_to_subscription(
    state: &ProgramState,
    escrow: &mut Escrow,
    subscription_id: String,
) -> (res: Result<SubscriptionEscrowLinked, EscrowError>)
    ensures
        applied(
            *old(escrow),
            *final(escrow),
            res,
            spec_link_escrow_to_subscription(*state, *old(escrow), subscription_id),
        ),
{
    if state.is_paused {
        return Err(EscrowError::ProgramPaused);
    }
    escrow.subscription_id = Some(subscription_id.clone());
    Ok(SubscriptionEscrowLinked { escrow_id: escrow.escrow_id.clone(), subscription_id })
}

} // verus!
