//! The billing engine's error taxonomy. Every failure surfaces as one of
//! these named conditions; none is swallowed or converted to a generic
//! failure.

use vstd::prelude::*;

verus! {

#[derive(Clone, Copy, Debug, PartialEq, Eq, Structural)]
pub enum ErrorCode {
    // System errors
    /// The global emergency pause is on.
    SystemPaused,
    /// A payment for this subscription is already in flight.
    PaymentInProgress,
    /// A checked counter update would overflow.
    Overflow,
    // Subscription lifecycle errors
    /// The subscription has been cancelled.
    SubscriptionInactive,
    /// The subscription is paused by its owner.
    SubscriptionPaused,
    /// The due date has not been reached yet.
    PaymentNotDue,
    /// Pause requested while already paused.
    AlreadyPaused,
    /// Resume requested while not paused.
    NotPaused,
    /// Close requested while the subscription is still active.
    SubscriptionStillActive,
    // Spending limits and safety errors
    /// The charge exceeds the per-transaction safety cap.
    ExceedsTransactionCap,
    /// The cumulative total would exceed the lifetime safety cap.
    ExceedsLifetimeCap,
    /// The platform's rolling daily volume limit would be exceeded.
    VelocityExceeded,
    /// The charge deviates more than 10% from the original amount.
    PriceVarianceExceeded,
    // Payment errors
    /// The charge does not cover the platform fee.
    InsufficientAmount,
    /// The fee rate is below 1 basis point.
    FeeTooLow,
    /// The fee rate is above 500 basis points.
    FeeTooHigh,
    // Validation errors
    /// The billing frequency is under one hour.
    FrequencyTooShort,
    /// The billing frequency is over one year.
    FrequencyTooLong,
    /// The merchant display name is empty or over 32 characters.
    InvalidMerchantName,
    /// The per-cycle charge is zero.
    AmountTooLow,
    /// A token account's owner does not match the expected wallet.
    InvalidTokenAccountOwner,
    /// A token account's mint does not match the expected mint.
    InvalidMint,
    /// A token account is not the one the subscription references.
    InvalidTokenAccount,
    // Merchant errors
    MerchantNotVerified,
    MerchantSuspended,
    InvalidMerchantAccount,
    // Authorization errors
    /// The caller is not the subscription's owner.
    UnauthorizedUser,
    /// The caller is not the platform administrator.
    UnauthorizedAdmin,
    // Platform configuration errors
    /// A fee wallet does not hold the settlement mint it is meant for.
    InvalidFeeWalletMint,
    /// A configuration update named no field to change.
    NoUpdateProvided,
    ConfigNotInitialized,
    // Multi-token errors
    TokenNotAccepted,
    InvalidSettlementToken,
    TooManyAcceptedTokens,
    SettlementNotInAcceptedList,
    // Swap errors
    SwapFailed,
    SlippageExceeded,
    InvalidJupiterProgram,
    SwapRouteNotFound,
}

} // verus!
