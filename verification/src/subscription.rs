//! The subscription state machine: lifecycle (create, pause, resume,
//! cancel, close), payer-set safety limits, and the due-payment execution
//! protocol with its layered checks (per-transaction cap, lifetime cap,
//! daily velocity cap, price-variance cap).

use vstd::prelude::*;
use vstd::string::StrSliceExecFns;
use crate::arith::{abs_diff_u64, spec_abs_diff_u64};
use crate::errors::ErrorCode;
use crate::fees::{calculate_fee, raw_fee, spec_fee};
use crate::model::{valid_timestamp, AccountId, TokenAccountInfo, SECONDS_PER_DAY};
use crate::platform::PlatformState;

verus! {

/// Shortest accepted billing frequency: one hour.
pub const MIN_FREQUENCY_SECONDS: i64 = 3_600;

/// Longest accepted billing frequency: one year.
pub const MAX_FREQUENCY_SECONDS: i64 = 31_536_000;

/// Longest accepted merchant display name, in characters.
pub const MAX_MERCHANT_NAME_LEN: usize = 32;

/// One payer's recurring authorization towards one merchant, with its
/// scheduling cursor, cumulative counters and safety ceilings.
#[derive(Clone, Debug)]
pub struct Subscription {
    pub user: AccountId,
    pub merchant: AccountId,
    pub user_token_account: AccountId,
    pub merchant_token_account: AccountId,
    /// Current per-cycle charge.
    pub amount: u64,
    /// Immutable baseline for the price-variance check.
    pub original_amount: u64,
    pub frequency_seconds: i64,
    pub last_payment: i64,
    pub next_payment: i64,
    pub total_paid: u64,
    pub payment_count: u32,
    pub is_active: bool,
    pub is_paused: bool,
    /// Payer-set ceiling on a single charge.
    pub max_per_transaction: u64,
    /// Payer-set ceiling on the cumulative total; also the amount of the
    /// delegated authorization the payer grants the billing engine.
    pub lifetime_cap: u64,
    pub merchant_name: String,
    pub created_at: i64,
}

impl Subscription {
    /// Well-formedness, established at creation and preserved by every
    /// transition: bounded frequency and name, a positive charge within the
    /// per-transaction cap, a cumulative total within the lifetime cap,
    /// clock-range timestamps, and pause only while active.
    pub open spec fn wf(self) -> bool {
        &&& MIN_FREQUENCY_SECONDS <= self.frequency_seconds <= MAX_FREQUENCY_SECONDS
        &&& 1 <= self.merchant_name@.len() <= MAX_MERCHANT_NAME_LEN
        &&& self.amount > 0
        &&& self.amount <= self.max_per_transaction
        &&& self.total_paid <= self.lifetime_cap
        &&& valid_timestamp(self.created_at as int)
        &&& valid_timestamp(self.last_payment as int)
        &&& 0 <= self.next_payment
        &&& self.is_paused ==> self.is_active
    }
}

/// Event reported when a subscription is created.
#[derive(Clone, Copy, Debug, PartialEq, Eq, Structural)]
pub struct SubscriptionCreated {
    pub user: AccountId,
    pub merchant: AccountId,
    pub amount: u64,
    pub frequency_seconds: i64,
    pub next_payment: i64,
}

/// Event reported when a due payment is executed; also tells the host
/// ledger what to transfer: `merchant_received` to the merchant and `fee`
/// to the platform fee account.
#[derive(Clone, Copy, Debug, PartialEq, Eq, Structural)]
pub struct PaymentExecuted {
    pub amount: u64,
    pub fee: u64,
    pub merchant_received: u64,
    pub payment_count: u32,
    pub timestamp: i64,
}

/// Event reported when a subscription is paused.
#[derive(Clone, Copy, Debug, PartialEq, Eq, Structural)]
pub struct SubscriptionPaused {
    pub user: AccountId,
    pub timestamp: i64,
}

/// Event reported when a paused subscription is resumed.
#[derive(Clone, Copy, Debug, PartialEq, Eq, Structural)]
pub struct SubscriptionResumed {
    pub user: AccountId,
    pub next_payment: i64,
    pub timestamp: i64,
}

/// Event reported when a subscription is cancelled.
#[derive(Clone, Copy, Debug, PartialEq, Eq, Structural)]
pub struct SubscriptionCancelled {
    pub user: AccountId,
    pub total_paid: u64,
    pub payment_count: u32,
    pub timestamp: i64,
}

/// Event reported when the payer updates the safety limits.
#[derive(Clone, Copy, Debug, PartialEq, Eq, Structural)]
pub struct LimitsUpdated {
    pub max_per_transaction: u64,
    pub lifetime_cap: u64,
}

/// The first failure a creation request runs into, in the order the checks
/// are made: token-account bindings, the global pause, then input
/// validation, then the platform subscription counter.
pub open spec fn create_error(
    platform: PlatformState,
    user: AccountId,
    merchant: AccountId,
    user_token_account: TokenAccountInfo,
    merchant_token_account: TokenAccountInfo,
    mint: AccountId,
    amount: u64,
    frequency_seconds: i64,
    max_per_transaction: u64,
    lifetime_cap: u64,
    merchant_name: Seq<char>,
) -> Option<ErrorCode> {
    if user_token_account.owner != user {
        Some(ErrorCode::InvalidTokenAccountOwner)
    } else if user_token_account.mint != mint {
        Some(ErrorCode::InvalidMint)
    } else if merchant_token_account.owner != merchant {
        Some(ErrorCode::InvalidTokenAccountOwner)
    } else if merchant_token_account.mint != mint {
        Some(ErrorCode::InvalidMint)
    } else if platform.emergency_pause {
        Some(ErrorCode::SystemPaused)
    } else if frequency_seconds < MIN_FREQUENCY_SECONDS {
        Some(ErrorCode::FrequencyTooShort)
    } else if frequency_seconds > MAX_FREQUENCY_SECONDS {
        Some(ErrorCode::FrequencyTooLong)
    } else if merchant_name.len() == 0 || merchant_name.len() > MAX_MERCHANT_NAME_LEN as int {
        Some(ErrorCode::InvalidMerchantName)
    } else if amount == 0 {
        Some(ErrorCode::AmountTooLow)
    } else if amount > max_per_transaction {
        Some(ErrorCode::ExceedsTransactionCap)
    } else if amount > lifetime_cap {
        Some(ErrorCode::ExceedsLifetimeCap)
    } else if platform.total_subscriptions == u64::MAX {
        Some(ErrorCode::Overflow)
    } else {
        None
    }
}

/// Create a subscription. On success the payer has granted the billing
/// engine a delegated authorization of `lifetime_cap` (the host ledger
/// performs the grant), the first due date is one frequency from now, and
/// the platform's subscription counter has grown by one.
pub fn create_subscription(
    platform: &mut PlatformState,
    user: AccountId,
    merchant: AccountId,
    user_token_account: &TokenAccountInfo,
    merchant_token_account: &TokenAccountInfo,
    mint: AccountId,
    amount: u64,
    frequency_seconds: i64,
    max_per_transaction: u64,
    lifetime_cap: u64,
    merchant_name: String,
    now: i64,
) -> (r: Result<(Subscription, SubscriptionCreated), ErrorCode>)
    requires
        valid_timestamp(now as int),
    ensures
        r is Err <==> create_error(
            *old(platform),
            user,
            merchant,
            *user_token_account,
            *merchant_token_account,
            mint,
            amount,
            frequency_seconds,
            max_per_transaction,
            lifetime_cap,
            merchant_name@,
        ) is Some,
        r matches Err(e) ==> Some(e) == create_error(
            *old(platform),
            user,
            merchant,
            *user_token_account,
            *merchant_token_account,
            mint,
            amount,
            frequency_seconds,
            max_per_transaction,
            lifetime_cap,
            merchant_name@,
        ) && *final(platform) == *old(platform),
        r matches Ok(ok) ==> ok.0 == (Subscription {
            user,
            merchant,
            user_token_account: user_token_account.address,
            merchant_token_account: merchant_token_account.address,
            amount,
            original_amount: amount,
            frequency_seconds,
            last_payment: 0,
            next_payment: (now + frequency_seconds) as i64,
            total_paid: 0,
            payment_count: 0,
            is_active: true,
            is_paused: false,
            max_per_transaction,
            lifetime_cap,
            merchant_name,
            created_at: now,
        }) && ok.0.wf() && ok.1 == (SubscriptionCreated {
            user,
            merchant,
            amount,
            frequency_seconds,
            next_payment: (now + frequency_seconds) as i64,
        }) && *final(platform) == (PlatformState {
            total_subscriptions: (old(platform).total_subscriptions + 1) as u64,
            ..*old(platform)
        }),
        old(platform).wf() ==> final(platform).wf(),
{
    if user_token_account.owner != user {
        return Err(ErrorCode::InvalidTokenAccountOwner);
    }
    if user_token_account.mint != mint {
        return Err(ErrorCode::InvalidMint);
    }
    if merchant_token_account.owner != merchant {
        return Err(ErrorCode::InvalidTokenAccountOwner);
    }
    if merchant_token_account.mint != mint {
        return Err(ErrorCode::InvalidMint);
    }
    if platform.emergency_pause {
        return Err(ErrorCode::SystemPaused);
    }
    if frequency_seconds < MIN_FREQUENCY_SECONDS {
        return Err(ErrorCode::FrequencyTooShort);
    }
    if frequency_seconds > MAX_FREQUENCY_SECONDS {
        return Err(ErrorCode::FrequencyTooLong);
    }
    let name_len: usize = merchant_name.as_str().unicode_len();
    if name_len == 0 || name_len > MAX_MERCHANT_NAME_LEN {
        return Err(ErrorCode::InvalidMerchantName);
    }
    if amount == 0 {
        return Err(ErrorCode::AmountTooLow);
    }
    if amount > max_per_transaction {
        return Err(ErrorCode::ExceedsTransactionCap);
    }
    if amount > lifetime_cap {
        return Err(ErrorCode::ExceedsLifetimeCap);
    }
    let new_subscriptions: u64 = match platform.total_subscriptions.checked_add(1) {
        Some(v) => v,
        None => { return Err(ErrorCode::Overflow) },
    };
    let next_payment: i64 = now + frequency_seconds;
    let subscription = Subscription {
        user,
        merchant,
        user_token_account: user_token_account.address,
        merchant_token_account: merchant_token_account.address,
        amount,
        original_amount: amount,
        frequency_seconds,
        last_payment: 0,
        next_payment,
        total_paid: 0,
        payment_count: 0,
        is_active: true,
        is_paused: false,
        max_per_transaction,
        lifetime_cap,
        merchant_name,
        created_at: now,
    };
    let event = SubscriptionCreated { user, merchant, amount, frequency_seconds, next_payment };
    platform.total_subscriptions = new_subscriptions;
    Ok((subscription, event))
}

/// Whether the rolling 24-hour volume window has elapsed and is reset
/// before a payment's velocity check.
pub open spec fn window_elapsed(platform: PlatformState, now: i64) -> bool {
    now >= platform.last_volume_reset + SECONDS_PER_DAY
}

/// The daily volume already consumed once an elapsed window is reset.
pub open spec fn volume_in_window(platform: PlatformState, now: i64) -> u64 {
    if window_elapsed(platform, now) {
        0u64
    } else {
        platform.total_volume_24h
    }
}

/// The price-variance cap: after the first payment, the charge may deviate
/// from the original agreed amount by at most a tenth of that original.
pub open spec fn variance_ok(s: Subscription) -> bool {
    s.payment_count == 0 || spec_abs_diff_u64(s.amount, s.original_amount) <= s.original_amount
        / 10
}

/// The first failure a payment execution runs into, in the order the
/// checks are made. The velocity check sees the volume left after an
/// elapsed window is reset.
pub open spec fn payment_error(
    s: Subscription,
    platform: PlatformState,
    user_token_account: AccountId,
    merchant_token_account: AccountId,
    now: i64,
) -> Option<ErrorCode> {
    let volume = volume_in_window(platform, now);
    if user_token_account != s.user_token_account {
        Some(ErrorCode::InvalidTokenAccount)
    } else if merchant_token_account != s.merchant_token_account {
        Some(ErrorCode::InvalidTokenAccount)
    } else if platform.emergency_pause {
        Some(ErrorCode::SystemPaused)
    } else if !s.is_active {
        Some(ErrorCode::SubscriptionInactive)
    } else if s.is_paused {
        Some(ErrorCode::SubscriptionPaused)
    } else if now < s.next_payment {
        Some(ErrorCode::PaymentNotDue)
    } else if s.total_paid + s.amount > u64::MAX {
        Some(ErrorCode::Overflow)
    } else if s.total_paid + s.amount > s.lifetime_cap {
        Some(ErrorCode::ExceedsLifetimeCap)
    } else if volume + s.amount > u64::MAX {
        Some(ErrorCode::Overflow)
    } else if volume + s.amount > platform.daily_volume_limit {
        Some(ErrorCode::VelocityExceeded)
    } else if !variance_ok(s) {
        Some(ErrorCode::PriceVarianceExceeded)
    } else if raw_fee(s.amount, platform.fee_basis_points) > u64::MAX {
        Some(ErrorCode::Overflow)
    } else if spec_fee(s.amount, platform.fee_basis_points, platform.min_fee, platform.max_fee)
        > s.amount {
        Some(ErrorCode::InsufficientAmount)
    } else if s.payment_count == u32::MAX {
        Some(ErrorCode::Overflow)
    } else if platform.total_transactions == u64::MAX {
        Some(ErrorCode::Overflow)
    } else {
        None
    }
}

/// Execute a due payment. Callable by any party: correctness rests on the
/// checks, not on caller identity. On success the host ledger transfers
/// `merchant_received` to the merchant and `fee` to the platform fee
/// account under the subscription's delegated authority, the scheduling
/// cursor advances one frequency from now, and the cumulative counters
/// grow; on any failure nothing changes.
pub fn execute_payment(
    subscription: &mut Subscription,
    platform: &mut PlatformState,
    user_token_account: AccountId,
    merchant_token_account: AccountId,
    now: i64,
) -> (r: Result<PaymentExecuted, ErrorCode>)
    requires
        old(subscription).wf(),
        old(platform).wf(),
        valid_timestamp(now as int),
    ensures
        r is Err <==> payment_error(
            *old(subscription),
            *old(platform),
            user_token_account,
            merchant_token_account,
            now,
        ) is Some,
        r matches Err(e) ==> Some(e) == payment_error(
            *old(subscription),
            *old(platform),
            user_token_account,
            merchant_token_account,
            now,
        ) && *final(subscription) == *old(subscription) && *final(platform) == *old(platform),
        r matches Ok(ev) ==> *final(subscription) == (Subscription {
            last_payment: now,
            next_payment: (now + old(subscription).frequency_seconds) as i64,
            total_paid: (old(subscription).total_paid + old(subscription).amount) as u64,
            payment_count: (old(subscription).payment_count + 1) as u32,
            ..*old(subscription)
        }) && *final(platform) == (PlatformState {
            total_volume_24h: (volume_in_window(*old(platform), now) + old(
                subscription,
            ).amount) as u64,
            last_volume_reset: if window_elapsed(*old(platform), now) {
                now
            } else {
                old(platform).last_volume_reset
            },
            total_transactions: (old(platform).total_transactions + 1) as u64,
            ..*old(platform)
        }) && ev == (PaymentExecuted {
            amount: old(subscription).amount,
            fee: spec_fee(
                old(subscription).amount,
                old(platform).fee_basis_points,
                old(platform).min_fee,
                old(platform).max_fee,
            ) as u64,
            merchant_received: (old(subscription).amount - spec_fee(
                old(subscription).amount,
                old(platform).fee_basis_points,
                old(platform).min_fee,
                old(platform).max_fee,
            )) as u64,
            payment_count: (old(subscription).payment_count + 1) as u32,
            timestamp: now,
        }),
        // The cumulative total never decreases and never exceeds the
        // lifetime cap.
        old(subscription).total_paid <= final(subscription).total_paid,
        final(subscription).total_paid <= final(subscription).lifetime_cap,
        final(subscription).wf(),
        final(platform).wf(),
        // No execution succeeds before the due date, and afterwards the
        // next due date is exactly one frequency past the payment.
        r is Ok ==> now >= old(subscription).next_payment,
        r is Ok ==> final(subscription).next_payment == final(subscription).last_payment
            + final(subscription).frequency_seconds,
        // After the first payment, a charge outside the variance band is
        // rejected and leaves all counters unchanged.
        !variance_ok(*old(subscription)) ==> r is Err,
        r is Ok && old(subscription).payment_count > 0 ==> spec_abs_diff_u64(
            old(subscription).amount,
            old(subscription).original_amount,
        ) <= old(subscription).original_amount / 10,
{
    if user_token_account != subscription.user_token_account {
        return Err(ErrorCode::InvalidTokenAccount);
    }
    if merchant_token_account != subscription.merchant_token_account {
        return Err(ErrorCode::InvalidTokenAccount);
    }
    // Reset the daily volume window first if 24 hours have passed; the
    // reset is observable only if the whole execution commits.
    let window_reset: bool = now >= platform.last_volume_reset + SECONDS_PER_DAY;
    let base_volume: u64 = if window_reset {
        0
    } else {
        platform.total_volume_24h
    };
    if platform.emergency_pause {
        return Err(ErrorCode::SystemPaused);
    }
    if !subscription.is_active {
        return Err(ErrorCode::SubscriptionInactive);
    }
    if subscription.is_paused {
        return Err(ErrorCode::SubscriptionPaused);
    }
    if now < subscription.next_payment {
        return Err(ErrorCode::PaymentNotDue);
    }
    let new_total: u64 = match subscription.total_paid.checked_add(subscription.amount) {
        Some(v) => v,
        None => { return Err(ErrorCode::Overflow) },
    };
    if new_total > subscription.lifetime_cap {
        return Err(ErrorCode::ExceedsLifetimeCap);
    }
    let new_volume: u64 = match base_volume.checked_add(subscription.amount) {
        Some(v) => v,
        None => { return Err(ErrorCode::Overflow) },
    };
    if new_volume > platform.daily_volume_limit {
        return Err(ErrorCode::VelocityExceeded);
    }
    if subscription.payment_count > 0 {
        let variance: u64 = abs_diff_u64(subscription.amount, subscription.original_amount);
        let max_variance: u64 = subscription.original_amount / 10;
        if variance > max_variance {
            return Err(ErrorCode::PriceVarianceExceeded);
        }
    }
    let fee: u64 = match calculate_fee(
        subscription.amount,
        platform.fee_basis_points,
        platform.min_fee,
        platform.max_fee,
    ) {
        Ok(f) => f,
        Err(e) => { return Err(e) },
    };
    let merchant_amount: u64 = match subscription.amount.checked_sub(fee) {
        Some(v) => v,
        None => { return Err(ErrorCode::InsufficientAmount) },
    };
    let new_count: u32 = match subscription.payment_count.checked_add(1) {
        Some(v) => v,
        None => { return Err(ErrorCode::Overflow) },
    };
    let new_transactions: u64 = match platform.total_transactions.checked_add(1) {
        Some(v) => v,
        None => { return Err(ErrorCode::Overflow) },
    };
    subscription.last_payment = now;
    subscription.next_payment = now + subscription.frequency_seconds;
    subscription.total_paid = new_total;
    subscription.payment_count = new_count;
    if window_reset {
        platform.last_volume_reset = now;
    }
    platform.total_volume_24h = new_volume;
    platform.total_transactions = new_transactions;
    Ok(
        PaymentExecuted {
            amount: subscription.amount,
            fee,
            merchant_received: merchant_amount,
            payment_count: new_count,
            timestamp: now,
        },
    )
}

/// Pause an active, unpaused subscription. Payer-only; the due date is
/// left where it is.
pub fn pause_subscription(subscription: &mut Subscription, caller: AccountId, now: i64) -> (r:
    Result<SubscriptionPaused, ErrorCode>)
    ensures
        caller != old(subscription).user ==> r == Err::<SubscriptionPaused, ErrorCode>(
            ErrorCode::UnauthorizedUser,
        ),
        caller == old(subscription).user && !old(subscription).is_active ==> r == Err::<
            SubscriptionPaused,
            ErrorCode,
        >(ErrorCode::SubscriptionInactive),
        caller == old(subscription).user && old(subscription).is_active && old(
            subscription,
        ).is_paused ==> r == Err::<SubscriptionPaused, ErrorCode>(ErrorCode::AlreadyPaused),
        r is Err ==> *final(subscription) == *old(subscription),
        r is Ok <==> caller == old(subscription).user && old(subscription).is_active && !old(
            subscription,
        ).is_paused,
        r matches Ok(ev) ==> *final(subscription) == (Subscription {
            is_paused: true,
            ..*old(subscription)
        }) && ev == (SubscriptionPaused { user: old(subscription).user, timestamp: now }),
        old(subscription).wf() ==> final(subscription).wf(),
        final(subscription).total_paid == old(subscription).total_paid,
{
    if caller != subscription.user {
        return Err(ErrorCode::UnauthorizedUser);
    }
    if !subscription.is_active {
        return Err(ErrorCode::SubscriptionInactive);
    }
    if subscription.is_paused {
        return Err(ErrorCode::AlreadyPaused);
    }
    subscription.is_paused = true;
    Ok(SubscriptionPaused { user: subscription.user, timestamp: now })
}

/// Resume a paused subscription. Payer-only; the next due date is
/// rescheduled one frequency from now, deliberately dropping any
/// missed-cycle backlog.
pub fn resume_subscription(subscription: &mut Subscription, caller: AccountId, now: i64) -> (r:
    Result<SubscriptionResumed, ErrorCode>)
    requires
        old(subscription).wf(),
        valid_timestamp(now as int),
    ensures
        caller != old(subscription).user ==> r == Err::<SubscriptionResumed, ErrorCode>(
            ErrorCode::UnauthorizedUser,
        ),
        caller == old(subscription).user && !old(subscription).is_active ==> r == Err::<
            SubscriptionResumed,
            ErrorCode,
        >(ErrorCode::SubscriptionInactive),
        caller == old(subscription).user && old(subscription).is_active && !old(
            subscription,
        ).is_paused ==> r == Err::<SubscriptionResumed, ErrorCode>(ErrorCode::NotPaused),
        r is Err ==> *final(subscription) == *old(subscription),
        r is Ok <==> caller == old(subscription).user && old(subscription).is_active && old(
            subscription,
        ).is_paused,
        r matches Ok(ev) ==> *final(subscription) == (Subscription {
            is_paused: false,
            next_payment: (now + old(subscription).frequency_seconds) as i64,
            ..*old(subscription)
        }) && ev == (SubscriptionResumed {
            user: old(subscription).user,
            next_payment: (now + old(subscription).frequency_seconds) as i64,
            timestamp: now,
        }),
        final(subscription).wf(),
        final(subscription).total_paid == old(subscription).total_paid,
{
    if caller != subscription.user {
        return Err(ErrorCode::UnauthorizedUser);
    }
    if !subscription.is_active {
        return Err(ErrorCode::SubscriptionInactive);
    }
    if !subscription.is_paused {
        return Err(ErrorCode::NotPaused);
    }
    subscription.is_paused = false;
    subscription.next_payment = now + subscription.frequency_seconds;
    Ok(
        SubscriptionResumed {
            user: subscription.user,
            next_payment: subscription.next_payment,
            timestamp: now,
        },
    )
}

/// Cancel a subscription permanently. Payer-only; the host ledger revokes
/// the delegated authorization, the record becomes terminal, and the
/// platform's subscription counter shrinks by one (saturating).
pub fn cancel_subscription(
    subscription: &mut Subscription,
    platform: &mut PlatformState,
    user_token_account: AccountId,
    caller: AccountId,
    now: i64,
) -> (r: Result<SubscriptionCancelled, ErrorCode>)
    ensures
        caller != old(subscription).user ==> r == Err::<SubscriptionCancelled, ErrorCode>(
            ErrorCode::UnauthorizedUser,
        ),
        caller == old(subscription).user && user_token_account != old(
            subscription,
        ).user_token_account ==> r == Err::<SubscriptionCancelled, ErrorCode>(
            ErrorCode::InvalidTokenAccount,
        ),
        caller == old(subscription).user && user_token_account == old(
            subscription,
        ).user_token_account && !old(subscription).is_active ==> r == Err::<
            SubscriptionCancelled,
            ErrorCode,
        >(ErrorCode::SubscriptionInactive),
        r is Err ==> *final(subscription) == *old(subscription) && *final(platform) == *old(
            platform,
        ),
        r is Ok <==> caller == old(subscription).user && user_token_account == old(
            subscription,
        ).user_token_account && old(subscription).is_active,
        r matches Ok(ev) ==> *final(subscription) == (Subscription {
            is_active: false,
            is_paused: false,
            ..*old(subscription)
        }) && *final(platform) == (PlatformState {
            total_subscriptions: if old(platform).total_subscriptions > 0 {
                (old(platform).total_subscriptions - 1) as u64
            } else {
                0u64
            },
            ..*old(platform)
        }) && ev == (SubscriptionCancelled {
            user: old(subscription).user,
            total_paid: old(subscription).total_paid,
            payment_count: old(subscription).payment_count,
            timestamp: now,
        }),
        old(subscription).wf() ==> final(subscription).wf(),
        old(platform).wf() ==> final(platform).wf(),
        final(subscription).total_paid == old(subscription).total_paid,
{
    if caller != subscription.user {
        return Err(ErrorCode::UnauthorizedUser);
    }
    if user_token_account != subscription.user_token_account {
        return Err(ErrorCode::InvalidTokenAccount);
    }
    if !subscription.is_active {
        return Err(ErrorCode::SubscriptionInactive);
    }
    subscription.is_active = false;
    subscription.is_paused = false;
    platform.total_subscriptions = platform.total_subscriptions.saturating_sub(1);
    Ok(
        SubscriptionCancelled {
            user: subscription.user,
            total_paid: subscription.total_paid,
            payment_count: subscription.payment_count,
            timestamp: now,
        },
    )
}

/// Close a cancelled subscription so the host ledger can reclaim its
/// storage. Payer-only; fails while the subscription is still active.
pub fn close_subscription(subscription: &Subscription, caller: AccountId) -> (r: Result<
    (),
    ErrorCode,
>)
    ensures
        caller != subscription.user ==> r == Err::<(), ErrorCode>(ErrorCode::UnauthorizedUser),
        caller == subscription.user && subscription.is_active ==> r == Err::<(), ErrorCode>(
            ErrorCode::SubscriptionStillActive,
        ),
        r is Ok <==> caller == subscription.user && !subscription.is_active,
{
    if caller != subscription.user {
        return Err(ErrorCode::UnauthorizedUser);
    }
    if subscription.is_active {
        return Err(ErrorCode::SubscriptionStillActive);
    }
    Ok(())
}

/// The first failure a limits update runs into, in the order the checks
/// are made.
pub open spec fn update_limits_error(
    s: Subscription,
    user_token_account: AccountId,
    caller: AccountId,
    new_max_per_transaction: Option<u64>,
    new_lifetime_cap: Option<u64>,
) -> Option<ErrorCode> {
    if caller != s.user {
        Some(ErrorCode::UnauthorizedUser)
    } else if user_token_account != s.user_token_account {
        Some(ErrorCode::InvalidTokenAccount)
    } else if !s.is_active {
        Some(ErrorCode::SubscriptionInactive)
    } else if s.is_paused {
        Some(ErrorCode::SubscriptionPaused)
    } else if new_max_per_transaction matches Some(max_tx) && s.amount > max_tx {
        Some(ErrorCode::ExceedsTransactionCap)
    } else if new_lifetime_cap matches Some(cap) && s.total_paid > cap {
        Some(ErrorCode::ExceedsLifetimeCap)
    } else {
        None
    }
}

/// Update the payer-set safety limits, allowed only while the
/// subscription is active and unpaused. The per-transaction cap may move
/// only while it still covers the charge; the lifetime cap only while it
/// still covers what has been paid. Raising the lifetime cap makes the
/// host ledger re-issue the delegated authorization for the new ceiling.
pub fn update_limits(
    subscription: &mut Subscription,
    user_token_account: AccountId,
    caller: AccountId,
    new_max_per_transaction: Option<u64>,
    new_lifetime_cap: Option<u64>,
) -> (r: Result<LimitsUpdated, ErrorCode>)
    ensures
        r is Err <==> update_limits_error(
            *old(subscription),
            user_token_account,
            caller,
            new_max_per_transaction,
            new_lifetime_cap,
        ) is Some,
        r matches Err(e) ==> Some(e) == update_limits_error(
            *old(subscription),
            user_token_account,
            caller,
            new_max_per_transaction,
            new_lifetime_cap,
        ) && *final(subscription) == *old(subscription),
        r matches Ok(ev) ==> *final(subscription) == (Subscription {
            max_per_transaction: match new_max_per_transaction {
                Some(max_tx) => max_tx,
                None => old(subscription).max_per_transaction,
            },
            lifetime_cap: match new_lifetime_cap {
                Some(cap) => cap,
                None => old(subscription).lifetime_cap,
            },
            ..*old(subscription)
        }) && ev == (LimitsUpdated {
            max_per_transaction: final(subscription).max_per_transaction,
            lifetime_cap: final(subscription).lifetime_cap,
        }),
        old(subscription).wf() ==> final(subscription).wf(),
        final(subscription).total_paid == old(subscription).total_paid,
        final(subscription).total_paid <= final(subscription).lifetime_cap
            || final(subscription).lifetime_cap == old(subscription).lifetime_cap,
{
    if caller != subscription.user {
        return Err(ErrorCode::UnauthorizedUser);
    }
    if user_token_account != subscription.user_token_account {
        return Err(ErrorCode::InvalidTokenAccount);
    }
    if !subscription.is_active {
        return Err(ErrorCode::SubscriptionInactive);
    }
    if subscription.is_paused {
        return Err(ErrorCode::SubscriptionPaused);
    }
    if let Some(max_tx) = new_max_per_transaction {
        if subscription.amount > max_tx {
            return Err(ErrorCode::ExceedsTransactionCap);
        }
    }
    if let Some(cap) = new_lifetime_cap {
        if subscription.total_paid > cap {
            return Err(ErrorCode::ExceedsLifetimeCap);
        }
    }
    if let Some(max_tx) = new_max_per_transaction {
        subscription.max_per_transaction = max_tx;
    }
    if let Some(cap) = new_lifetime_cap {
        subscription.lifetime_cap = cap;
    }
    Ok(
        LimitsUpdated {
            max_per_transaction: subscription.max_per_transaction,
            lifetime_cap: subscription.lifetime_cap,
        },
    )
}

} // verus!
