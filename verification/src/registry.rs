//! Registry-wide state for the merchant trust engine, the verification
//! tiers, and the registry's error taxonomy.

use vstd::prelude::*;
use crate::model::AccountId;

verus! {

/// Price of 30 days of premium visibility.
pub const PREMIUM_BADGE_PRICE: u64 = 50_000_000;

/// A merchant's standing. `Community` is auto-earned through excellent
/// metrics, never assigned directly.
#[derive(Clone, Copy, Debug, PartialEq, Eq, Structural)]
pub enum VerificationTier {
    Unverified,
    Verified,
    Community,
    Suspended,
}

/// The merchant registry's error taxonomy.
#[derive(Clone, Copy, Debug, PartialEq, Eq, Structural)]
pub enum ErrorCode {
    /// The business name is empty or over 64 characters.
    InvalidBusinessName,
    /// The webhook URL is empty or over 128 characters.
    InvalidWebhookUrl,
    /// The category is empty or over 32 characters.
    InvalidCategory,
    /// Premium badges are sold only to Verified or Community merchants.
    MustBeVerifiedFirst,
    /// Ratings run from 1 to 5 stars.
    InvalidRating,
    /// The review comment is empty or over 256 characters.
    InvalidComment,
    /// A checked counter or score update would overflow.
    Overflow,
    /// The caller is not the registry administrator.
    UnauthorizedAdmin,
    /// The caller is not the merchant's owner.
    UnauthorizedMerchantOwner,
    /// A transaction report arrived from a program other than the billing
    /// engine.
    UnauthorizedCpiCaller,
    /// The Community tier is earned automatically, never assigned.
    CannotManuallySetCommunityTier,
    /// Reviews require an active subscription with the merchant.
    NoActiveSubscription,
    NoPaymentHistory,
    /// Reviews require at least 3 completed payments.
    InsufficientPaymentHistory,
    /// Reviews require at least 1 settlement unit paid in total.
    InsufficientTotalPaid,
    /// Reviews require a subscription at least 7 days old.
    SubscriptionTooNew,
    /// The suspension reason is empty or over 256 characters.
    InvalidSuspensionReason,
    /// A transaction report arrived directly instead of from inside
    /// another program's call.
    MustBeCalledViaCpi,
    /// A second review of the same merchant from the same payer.
    DuplicateReview,
}

/// Registry-wide counters, created once by the administrator.
#[derive(Clone, Copy, Debug, PartialEq, Eq, Structural)]
pub struct RegistryState {
    pub authority: AccountId,
    pub total_merchants: u64,
    pub verified_merchants: u64,
    pub premium_badge_price: u64,
}

/// One-time administrator setup of the merchant registry.
pub fn initialize_registry(authority: AccountId) -> (r: RegistryState)
    ensures
        r == (RegistryState {
            authority,
            total_merchants: 0,
            verified_merchants: 0,
            premium_badge_price: PREMIUM_BADGE_PRICE,
        }),
{
    RegistryState {
        authority,
        total_merchants: 0,
        verified_merchants: 0,
        premium_badge_price: PREMIUM_BADGE_PRICE,
    }
}

} // verus!
