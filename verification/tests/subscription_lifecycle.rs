use lutrii::errors::ErrorCode;
use lutrii::model::{AccountId, TokenAccountInfo};
use lutrii::platform::{emergency_pause, emergency_unpause, initialize_platform, PlatformState};
use lutrii::subscription::{
    cancel_subscription, close_subscription, create_subscription, execute_payment,
    pause_subscription, resume_subscription, update_limits, Subscription,
};

const ADMIN: AccountId = AccountId { id: 1 };
const USER: AccountId = AccountId { id: 2 };
const MERCHANT: AccountId = AccountId { id: 3 };
const MINT: AccountId = AccountId { id: 9 };
const USER_TOKENS: AccountId = AccountId { id: 10 };
const MERCHANT_TOKENS: AccountId = AccountId { id: 11 };

fn fresh_platform(daily_volume_limit: u64, fee_basis_points: u16, now: i64) -> PlatformState {
    initialize_platform(ADMIN, daily_volume_limit, fee_basis_points, now)
        .unwrap()
        .0
}

fn user_token_info() -> TokenAccountInfo {
    TokenAccountInfo {
        address: USER_TOKENS,
        owner: USER,
        mint: MINT,
    }
}

fn merchant_token_info() -> TokenAccountInfo {
    TokenAccountInfo {
        address: MERCHANT_TOKENS,
        owner: MERCHANT,
        mint: MINT,
    }
}

fn fresh_subscription(platform: &mut PlatformState, now: i64) -> Subscription {
    create_subscription(
        platform,
        USER,
        MERCHANT,
        &user_token_info(),
        &merchant_token_info(),
        MINT,
        1_000_000,
        86_400,
        1_000_000,
        30_000_000,
        "Coffee Club".to_string(),
        now,
    )
    .unwrap()
    .0
}

#[test]
fn scenario_first_payment() {
    // Create at 1 USDC every day with caps (1 USDC / 30 USDC); execute
    // right when the due date arrives: 1% fee clamped into the band,
    // merchant receives amount minus fee, one payment on the books.
    let mut platform = fresh_platform(100_000_000, 100, 1_000);
    let mut sub = fresh_subscription(&mut platform, 1_000);
    assert_eq!(sub.next_payment, 1_000 + 86_400);
    assert_eq!(platform.total_subscriptions, 1);

    let due = sub.next_payment;
    let ev = execute_payment(&mut sub, &mut platform, USER_TOKENS, MERCHANT_TOKENS, due).unwrap();
    assert_eq!(ev.fee, 10_000);
    assert_eq!(ev.merchant_received, 990_000);
    assert_eq!(ev.amount, 1_000_000);
    assert_eq!(ev.payment_count, 1);
    assert_eq!(ev.timestamp, due);
    assert_eq!(sub.payment_count, 1);
    assert_eq!(sub.total_paid, 1_000_000);
    assert_eq!(sub.last_payment, due);
    assert_eq!(sub.next_payment, due + 86_400);
    assert_eq!(platform.total_transactions, 1);
    assert_eq!(platform.total_volume_24h, 1_000_000);
}

#[test]
fn scenario_price_variance_rejected() {
    // A second payment whose charge drifted 15% above the original is
    // rejected with the price-variance failure and changes no counters.
    let mut platform = fresh_platform(100_000_000, 100, 1_000);
    let mut sub = fresh_subscription(&mut platform, 1_000);
    let due = sub.next_payment;
    execute_payment(&mut sub, &mut platform, USER_TOKENS, MERCHANT_TOKENS, due).unwrap();

    sub.amount = 1_150_000;
    let before_paid = sub.total_paid;
    let before_count = sub.payment_count;
    let before_volume = platform.total_volume_24h;
    let before_transactions = platform.total_transactions;
    let r = execute_payment(
        &mut sub,
        &mut platform,
        USER_TOKENS,
        MERCHANT_TOKENS,
        due + 86_400,
    );
    assert!(matches!(r, Err(ErrorCode::PriceVarianceExceeded)));
    assert_eq!(sub.total_paid, before_paid);
    assert_eq!(sub.payment_count, before_count);
    assert_eq!(platform.total_volume_24h, before_volume);
    assert_eq!(platform.total_transactions, before_transactions);
}

#[test]
fn variance_boundary_accepted() {
    // Exactly one tenth of the original amount is still inside the band.
    let mut platform = fresh_platform(100_000_000, 100, 1_000);
    let mut sub = fresh_subscription(&mut platform, 1_000);
    let due = sub.next_payment;
    execute_payment(&mut sub, &mut platform, USER_TOKENS, MERCHANT_TOKENS, due).unwrap();

    sub.amount = 1_100_000;
    let r = execute_payment(
        &mut sub,
        &mut platform,
        USER_TOKENS,
        MERCHANT_TOKENS,
        due + 86_400,
    );
    assert!(r.is_ok());
    assert_eq!(sub.payment_count, 2);
    assert_eq!(sub.total_paid, 2_100_000);
}

#[test]
fn payment_not_due_too_early() {
    let mut platform = fresh_platform(100_000_000, 100, 1_000);
    let mut sub = fresh_subscription(&mut platform, 1_000);
    let too_early = sub.next_payment - 1;
    let r = execute_payment(&mut sub, &mut platform, USER_TOKENS, MERCHANT_TOKENS, too_early);
    assert!(matches!(r, Err(ErrorCode::PaymentNotDue)));
    assert_eq!(sub.payment_count, 0);
    assert_eq!(sub.total_paid, 0);
}

#[test]
fn next_payment_tracks_last_payment() {
    // Executions keep next_payment exactly one frequency past the moment
    // of payment, even when executed late.
    let mut platform = fresh_platform(100_000_000, 100, 1_000);
    let mut sub = fresh_subscription(&mut platform, 1_000);
    let late = sub.next_payment + 5_000;
    execute_payment(&mut sub, &mut platform, USER_TOKENS, MERCHANT_TOKENS, late).unwrap();
    assert_eq!(sub.last_payment, late);
    assert_eq!(sub.next_payment, late + sub.frequency_seconds);
}

#[test]
fn lifetime_cap_blocks_excess() {
    // With a cap of 2.5 USDC at 1 USDC per cycle, the third payment would
    // cross the cap and is rejected; the total never exceeds the cap.
    let mut platform = fresh_platform(100_000_000, 100, 1_000);
    let mut sub = create_subscription(
        &mut platform,
        USER,
        MERCHANT,
        &user_token_info(),
        &merchant_token_info(),
        MINT,
        1_000_000,
        86_400,
        1_000_000,
        2_500_000,
        "Coffee Club".to_string(),
        1_000,
    )
    .unwrap()
    .0;
    let mut now = sub.next_payment;
    execute_payment(&mut sub, &mut platform, USER_TOKENS, MERCHANT_TOKENS, now).unwrap();
    now += 86_400;
    execute_payment(&mut sub, &mut platform, USER_TOKENS, MERCHANT_TOKENS, now).unwrap();
    now += 86_400;
    let r = execute_payment(&mut sub, &mut platform, USER_TOKENS, MERCHANT_TOKENS, now);
    assert!(matches!(r, Err(ErrorCode::ExceedsLifetimeCap)));
    assert_eq!(sub.total_paid, 2_000_000);
    assert!(sub.total_paid <= sub.lifetime_cap);
}

#[test]
fn velocity_limit_and_daily_reset() {
    // A 1.5 USDC daily limit admits one 1 USDC payment, rejects the next
    // within the same window, and admits it again once 24 hours passed.
    let mut platform = fresh_platform(1_500_000, 100, 1_000);
    let mut sub = create_subscription(
        &mut platform,
        USER,
        MERCHANT,
        &user_token_info(),
        &merchant_token_info(),
        MINT,
        1_000_000,
        3_600,
        1_000_000,
        30_000_000,
        "Coffee Club".to_string(),
        1_000,
    )
    .unwrap()
    .0;
    let first = sub.next_payment;
    execute_payment(&mut sub, &mut platform, USER_TOKENS, MERCHANT_TOKENS, first).unwrap();
    let r = execute_payment(
        &mut sub,
        &mut platform,
        USER_TOKENS,
        MERCHANT_TOKENS,
        first + 3_600,
    );
    assert!(matches!(r, Err(ErrorCode::VelocityExceeded)));
    // Once the window has elapsed the volume counter starts over.
    let after_window = platform.last_volume_reset + 86_400;
    execute_payment(
        &mut sub,
        &mut platform,
        USER_TOKENS,
        MERCHANT_TOKENS,
        after_window,
    )
    .unwrap();
    assert_eq!(platform.total_volume_24h, 1_000_000);
    assert_eq!(platform.last_volume_reset, after_window);
}

#[test]
fn create_rejects_bad_inputs() {
    let mut platform = fresh_platform(100_000_000, 100, 1_000);
    let ut = user_token_info();
    let mt = merchant_token_info();
    let name = || "Coffee Club".to_string();

    let r = create_subscription(
        &mut platform, USER, MERCHANT, &ut, &mt, MINT, 1_000_000, 3_599, 1_000_000, 30_000_000,
        name(), 1_000,
    );
    assert!(matches!(r, Err(ErrorCode::FrequencyTooShort)));
    let r = create_subscription(
        &mut platform, USER, MERCHANT, &ut, &mt, MINT, 1_000_000, 31_536_001, 1_000_000,
        30_000_000, name(), 1_000,
    );
    assert!(matches!(r, Err(ErrorCode::FrequencyTooLong)));
    let r = create_subscription(
        &mut platform, USER, MERCHANT, &ut, &mt, MINT, 1_000_000, 86_400, 1_000_000, 30_000_000,
        String::new(), 1_000,
    );
    assert!(matches!(r, Err(ErrorCode::InvalidMerchantName)));
    let r = create_subscription(
        &mut platform, USER, MERCHANT, &ut, &mt, MINT, 1_000_000, 86_400, 1_000_000, 30_000_000,
        "a".repeat(33), 1_000,
    );
    assert!(matches!(r, Err(ErrorCode::InvalidMerchantName)));
    let r = create_subscription(
        &mut platform, USER, MERCHANT, &ut, &mt, MINT, 0, 86_400, 1_000_000, 30_000_000, name(),
        1_000,
    );
    assert!(matches!(r, Err(ErrorCode::AmountTooLow)));
    let r = create_subscription(
        &mut platform, USER, MERCHANT, &ut, &mt, MINT, 2_000_000, 86_400, 1_000_000, 30_000_000,
        name(), 1_000,
    );
    assert!(matches!(r, Err(ErrorCode::ExceedsTransactionCap)));
    let r = create_subscription(
        &mut platform, USER, MERCHANT, &ut, &mt, MINT, 1_000_000, 86_400, 1_000_000, 500_000,
        name(), 1_000,
    );
    assert!(matches!(r, Err(ErrorCode::ExceedsLifetimeCap)));
    // Token-account bindings are checked before anything else.
    let foreign_owner = TokenAccountInfo {
        address: USER_TOKENS,
        owner: MERCHANT,
        mint: MINT,
    };
    let r = create_subscription(
        &mut platform, USER, MERCHANT, &foreign_owner, &mt, MINT, 1_000_000, 86_400, 1_000_000,
        30_000_000, name(), 1_000,
    );
    assert!(matches!(r, Err(ErrorCode::InvalidTokenAccountOwner)));
    let wrong_mint = TokenAccountInfo {
        address: USER_TOKENS,
        owner: USER,
        mint: AccountId { id: 77 },
    };
    let r = create_subscription(
        &mut platform, USER, MERCHANT, &wrong_mint, &mt, MINT, 1_000_000, 86_400, 1_000_000,
        30_000_000, name(), 1_000,
    );
    assert!(matches!(r, Err(ErrorCode::InvalidMint)));
    // None of the failed attempts counted a subscription.
    assert_eq!(platform.total_subscriptions, 0);
}

#[test]
fn execute_rejects_foreign_token_accounts() {
    let mut platform = fresh_platform(100_000_000, 100, 1_000);
    let mut sub = fresh_subscription(&mut platform, 1_000);
    let due = sub.next_payment;
    let r = execute_payment(
        &mut sub,
        &mut platform,
        AccountId { id: 99 },
        MERCHANT_TOKENS,
        due,
    );
    assert!(matches!(r, Err(ErrorCode::InvalidTokenAccount)));
    let r = execute_payment(&mut sub, &mut platform, USER_TOKENS, AccountId { id: 99 }, due);
    assert!(matches!(r, Err(ErrorCode::InvalidTokenAccount)));
}

#[test]
fn pause_blocks_payments_and_resume_reschedules() {
    let mut platform = fresh_platform(100_000_000, 100, 1_000);
    let mut sub = fresh_subscription(&mut platform, 1_000);
    let due = sub.next_payment;

    let r = pause_subscription(&mut sub, MERCHANT, 2_000);
    assert!(matches!(r, Err(ErrorCode::UnauthorizedUser)));
    let ev = pause_subscription(&mut sub, USER, 2_000).unwrap();
    assert_eq!(ev.user, USER);
    assert!(sub.is_paused);
    assert_eq!(sub.next_payment, due);

    let r = pause_subscription(&mut sub, USER, 2_500);
    assert!(matches!(r, Err(ErrorCode::AlreadyPaused)));
    let r = execute_payment(&mut sub, &mut platform, USER_TOKENS, MERCHANT_TOKENS, due);
    assert!(matches!(r, Err(ErrorCode::SubscriptionPaused)));

    let resumed_at = due + 10_000;
    let ev = resume_subscription(&mut sub, USER, resumed_at).unwrap();
    assert!(!sub.is_paused);
    assert_eq!(sub.next_payment, resumed_at + 86_400);
    assert_eq!(ev.next_payment, resumed_at + 86_400);
    let r = resume_subscription(&mut sub, USER, resumed_at);
    assert!(matches!(r, Err(ErrorCode::NotPaused)));
}

#[test]
fn cancel_then_close() {
    let mut platform = fresh_platform(100_000_000, 100, 1_000);
    let mut sub = fresh_subscription(&mut platform, 1_000);
    assert_eq!(platform.total_subscriptions, 1);

    let r = close_subscription(&sub, USER);
    assert!(matches!(r, Err(ErrorCode::SubscriptionStillActive)));
    let r = cancel_subscription(&mut sub, &mut platform, USER_TOKENS, MERCHANT, 2_000);
    assert!(matches!(r, Err(ErrorCode::UnauthorizedUser)));
    let r = cancel_subscription(&mut sub, &mut platform, AccountId { id: 99 }, USER, 2_000);
    assert!(matches!(r, Err(ErrorCode::InvalidTokenAccount)));

    let ev = cancel_subscription(&mut sub, &mut platform, USER_TOKENS, USER, 2_000).unwrap();
    assert_eq!(ev.total_paid, 0);
    assert!(!sub.is_active);
    assert!(!sub.is_paused);
    assert_eq!(platform.total_subscriptions, 0);

    let r = cancel_subscription(&mut sub, &mut platform, USER_TOKENS, USER, 3_000);
    assert!(matches!(r, Err(ErrorCode::SubscriptionInactive)));
    let due = sub.next_payment;
    let r = execute_payment(&mut sub, &mut platform, USER_TOKENS, MERCHANT_TOKENS, due);
    assert!(matches!(r, Err(ErrorCode::SubscriptionInactive)));

    let r = close_subscription(&sub, MERCHANT);
    assert!(matches!(r, Err(ErrorCode::UnauthorizedUser)));
    assert!(close_subscription(&sub, USER).is_ok());
}

#[test]
fn update_limits_rules() {
    let mut platform = fresh_platform(100_000_000, 100, 1_000);
    let mut sub = fresh_subscription(&mut platform, 1_000);
    let due = sub.next_payment;
    execute_payment(&mut sub, &mut platform, USER_TOKENS, MERCHANT_TOKENS, due).unwrap();

    let r = update_limits(&mut sub, USER_TOKENS, MERCHANT, Some(2_000_000), None);
    assert!(matches!(r, Err(ErrorCode::UnauthorizedUser)));
    let r = update_limits(&mut sub, AccountId { id: 99 }, USER, Some(2_000_000), None);
    assert!(matches!(r, Err(ErrorCode::InvalidTokenAccount)));
    // The per-transaction cap cannot drop below the charge.
    let r = update_limits(&mut sub, USER_TOKENS, USER, Some(999_999), None);
    assert!(matches!(r, Err(ErrorCode::ExceedsTransactionCap)));
    // The lifetime cap cannot drop below what was already paid.
    let r = update_limits(&mut sub, USER_TOKENS, USER, None, Some(999_999));
    assert!(matches!(r, Err(ErrorCode::ExceedsLifetimeCap)));

    let ev = update_limits(&mut sub, USER_TOKENS, USER, Some(2_000_000), Some(40_000_000)).unwrap();
    assert_eq!(ev.max_per_transaction, 2_000_000);
    assert_eq!(ev.lifetime_cap, 40_000_000);
    assert_eq!(sub.max_per_transaction, 2_000_000);
    assert_eq!(sub.lifetime_cap, 40_000_000);
    // Lowering within bounds is allowed too.
    let ev = update_limits(&mut sub, USER_TOKENS, USER, None, Some(1_000_000)).unwrap();
    assert_eq!(ev.lifetime_cap, 1_000_000);
    assert!(sub.total_paid <= sub.lifetime_cap);
    // Limits can only be updated from the active, unpaused state.
    pause_subscription(&mut sub, USER, 200_000).unwrap();
    let r = update_limits(&mut sub, USER_TOKENS, USER, Some(3_000_000), None);
    assert!(matches!(r, Err(ErrorCode::SubscriptionPaused)));
    assert_eq!(sub.max_per_transaction, 2_000_000);
}

#[test]
fn emergency_pause_blocks_and_unpause_resets() {
    let mut platform = fresh_platform(100_000_000, 100, 1_000);
    let mut sub = fresh_subscription(&mut platform, 1_000);
    let due = sub.next_payment;
    execute_payment(&mut sub, &mut platform, USER_TOKENS, MERCHANT_TOKENS, due).unwrap();

    let r = emergency_pause(&mut platform, USER, 90_000);
    assert!(matches!(r, Err(ErrorCode::UnauthorizedAdmin)));
    let ev = emergency_pause(&mut platform, ADMIN, 90_000).unwrap();
    assert_eq!(ev.timestamp, 90_000);
    assert!(platform.emergency_pause);

    let due = sub.next_payment;
    let r = execute_payment(&mut sub, &mut platform, USER_TOKENS, MERCHANT_TOKENS, due);
    assert!(matches!(r, Err(ErrorCode::SystemPaused)));
    let r = create_subscription(
        &mut platform,
        USER,
        MERCHANT,
        &user_token_info(),
        &merchant_token_info(),
        MINT,
        1_000_000,
        86_400,
        1_000_000,
        30_000_000,
        "Coffee Club".to_string(),
        95_000,
    );
    assert!(matches!(r, Err(ErrorCode::SystemPaused)));
    // Pause and cancel stay available during the emergency.
    assert!(pause_subscription(&mut sub, USER, 96_000).is_ok());

    let r = emergency_unpause(&mut platform, USER, 100_000);
    assert!(matches!(r, Err(ErrorCode::UnauthorizedAdmin)));
    emergency_unpause(&mut platform, ADMIN, 100_000).unwrap();
    assert!(!platform.emergency_pause);
    assert_eq!(platform.total_volume_24h, 0);
    assert_eq!(platform.last_volume_reset, 100_000);
    assert_eq!(platform.failed_tx_count, 0);
}

#[test]
fn initialize_platform_validates_rate() {
    assert!(matches!(
        initialize_platform(ADMIN, 100_000_000, 0, 1_000),
        Err(ErrorCode::FeeTooLow)
    ));
    assert!(matches!(
        initialize_platform(ADMIN, 100_000_000, 501, 1_000),
        Err(ErrorCode::FeeTooHigh)
    ));
    let (platform, ev) = initialize_platform(ADMIN, 100_000_000, 250, 1_000).unwrap();
    assert_eq!(platform.min_fee, 10_000);
    assert_eq!(platform.max_fee, 500_000);
    assert_eq!(platform.fee_basis_points, 250);
    assert_eq!(platform.last_volume_reset, 1_000);
    assert_eq!(ev.fee_basis_points, 250);
    assert_eq!(ev.daily_volume_limit, 100_000_000);
}
