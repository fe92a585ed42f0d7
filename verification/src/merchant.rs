//! The merchant trust record and the operations that mutate it:
//! application, administrator approval and suspension, premium badges,
//! profile updates, and the transaction-report boundary through which the
//! billing engine drives reputation.

use vstd::prelude::*;
use vstd::string::StrSliceExecFns;
use crate::arith::{saturating_sub_i32, spec_saturating_sub_i32};
use crate::model::{valid_timestamp, AccountId, CallOrigin, SECONDS_PER_DAY};
use crate::registry::{ErrorCode, RegistryState, VerificationTier};

verus! {

/// Longest accepted business name, in characters.
pub const MAX_BUSINESS_NAME_LEN: usize = 64;

/// Longest accepted webhook URL, in characters.
pub const MAX_WEBHOOK_URL_LEN: usize = 128;

/// Longest accepted category, in characters.
pub const MAX_CATEGORY_LEN: usize = 32;

/// Days of premium visibility one badge purchase buys.
pub const PREMIUM_BADGE_DURATION_DAYS: i64 = 30;

/// Reputation gained per successful transaction report.
pub const SCORE_PER_SUCCESS: i32 = 10;

/// Reputation lost per failed transaction report (saturating).
pub const SCORE_PER_FAILURE: i32 = 25;

/// Transactions needed before the Community tier can be earned.
pub const PROMOTION_MIN_TRANSACTIONS: u64 = 100;

/// Score needed before the Community tier can be earned.
pub const PROMOTION_MIN_SCORE: i32 = 1_000;

/// Failed transactions at or above which the Community tier is withheld.
pub const PROMOTION_MAX_FAILURES: u32 = 5;

/// Score below which a merchant is automatically suspended.
pub const SUSPENSION_SCORE: i32 = -100;

/// One merchant's trust record: identity, display fields, tier, score,
/// cumulative counters, and the time-boxed premium badge.
#[derive(Clone, Debug)]
pub struct Merchant {
    pub owner: AccountId,
    pub business_name: String,
    pub webhook_url: String,
    pub category: String,
    pub verification_tier: VerificationTier,
    pub community_score: i32,
    pub total_transactions: u64,
    pub total_volume: u64,
    pub failed_transactions: u32,
    pub premium_badge_active: bool,
    pub premium_badge_expires: i64,
    pub created_at: i64,
    pub last_updated: i64,
}

impl Merchant {
    /// Well-formedness: bounded display fields and clock-range timestamps.
    pub open spec fn wf(self) -> bool {
        &&& 1 <= self.business_name@.len() <= MAX_BUSINESS_NAME_LEN
        &&& 1 <= self.webhook_url@.len() <= MAX_WEBHOOK_URL_LEN
        &&& 1 <= self.category@.len() <= MAX_CATEGORY_LEN
        &&& valid_timestamp(self.created_at as int)
        &&& valid_timestamp(self.last_updated as int)
        &&& 0 <= self.premium_badge_expires
    }
}

/// Event reported when a merchant applies for verification.
#[derive(Clone, Debug)]
pub struct MerchantApplicationSubmitted {
    pub owner: AccountId,
    pub business_name: String,
    pub timestamp: i64,
}

/// Event reported when the administrator assigns a tier.
#[derive(Clone, Copy, Debug, PartialEq, Eq, Structural)]
pub struct MerchantVerified {
    pub tier: VerificationTier,
    pub timestamp: i64,
}

/// Event reported when a merchant is suspended by the administrator.
#[derive(Clone, Debug)]
pub struct MerchantSuspended {
    pub reason: String,
    pub score: i32,
}

/// Event reported when a premium badge is purchased.
#[derive(Clone, Copy, Debug, PartialEq, Eq, Structural)]
pub struct PremiumBadgeActivated {
    pub expires_at: i64,
}

/// The first failure an application runs into, in the order the checks
/// are made.
pub open spec fn application_error(
    registry: RegistryState,
    business_name: Seq<char>,
    webhook_url: Seq<char>,
    category: Seq<char>,
) -> Option<ErrorCode> {
    if business_name.len() == 0 || business_name.len() > MAX_BUSINESS_NAME_LEN as int {
        Some(ErrorCode::InvalidBusinessName)
    } else if webhook_url.len() == 0 || webhook_url.len() > MAX_WEBHOOK_URL_LEN as int {
        Some(ErrorCode::InvalidWebhookUrl)
    } else if category.len() == 0 || category.len() > MAX_CATEGORY_LEN as int {
        Some(ErrorCode::InvalidCategory)
    } else if registry.total_merchants == u64::MAX {
        Some(ErrorCode::Overflow)
    } else {
        None
    }
}

/// Apply for merchant verification: validates the display fields and
/// creates the record, Unverified with score zero, counting it in the
/// registry.
pub fn apply_for_verification(
    registry: &mut RegistryState,
    owner: AccountId,
    business_name: String,
    webhook_url: String,
    category: String,
    now: i64,
) -> (r: Result<(Merchant, MerchantApplicationSubmitted), ErrorCode>)
    requires
        valid_timestamp(now as int),
    ensures
        r is Err <==> application_error(
            *old(registry),
            business_name@,
            webhook_url@,
            category@,
        ) is Some,
        r matches Err(e) ==> Some(e) == application_error(
            *old(registry),
            business_name@,
            webhook_url@,
            category@,
        ) && *final(registry) == *old(registry),
        r matches Ok(ok) ==> ok.0 == (Merchant {
            owner,
            business_name,
            webhook_url,
            category,
            verification_tier: VerificationTier::Unverified,
            community_score: 0,
            total_transactions: 0,
            total_volume: 0,
            failed_transactions: 0,
            premium_badge_active: false,
            premium_badge_expires: 0,
            created_at: now,
            last_updated: now,
        }) && ok.0.wf() && ok.1.owner == owner && ok.1.business_name@ == business_name@
            && ok.1.timestamp == now && *final(registry) == (RegistryState {
            total_merchants: (old(registry).total_merchants + 1) as u64,
            ..*old(registry)
        }),
{
    let name_len: usize = business_name.as_str().unicode_len();
    if name_len == 0 || name_len > MAX_BUSINESS_NAME_LEN {
        return Err(ErrorCode::InvalidBusinessName);
    }
    let url_len: usize = webhook_url.as_str().unicode_len();
    if url_len == 0 || url_len > MAX_WEBHOOK_URL_LEN {
        return Err(ErrorCode::InvalidWebhookUrl);
    }
    let category_len: usize = category.as_str().unicode_len();
    if category_len == 0 || category_len > MAX_CATEGORY_LEN {
        return Err(ErrorCode::InvalidCategory);
    }
    let new_total: u64 = match registry.total_merchants.checked_add(1) {
        Some(v) => v,
        None => { return Err(ErrorCode::Overflow) },
    };
    let event = MerchantApplicationSubmitted {
        owner,
        business_name: business_name.clone(),
        timestamp: now,
    };
    let merchant = Merchant {
        owner,
        business_name,
        webhook_url,
        category,
        verification_tier: VerificationTier::Unverified,
        community_score: 0,
        total_transactions: 0,
        total_volume: 0,
        failed_transactions: 0,
        premium_badge_active: false,
        premium_badge_expires: 0,
        created_at: now,
        last_updated: now,
    };
    registry.total_merchants = new_total;
    Ok((merchant, event))
}

/// Administrator tier assignment. Any tier except Community can be
/// assigned directly; Community must be earned through the automatic
/// promotion rule.
pub fn approve_merchant(
    merchant: &mut Merchant,
    registry: &mut RegistryState,
    caller: AccountId,
    tier: VerificationTier,
    now: i64,
) -> (r: Result<MerchantVerified, ErrorCode>)
    ensures
        caller != old(registry).authority ==> r == Err::<MerchantVerified, ErrorCode>(
            ErrorCode::UnauthorizedAdmin,
        ),
        caller == old(registry).authority && tier == VerificationTier::Community ==> r == Err::<
            MerchantVerified,
            ErrorCode,
        >(ErrorCode::CannotManuallySetCommunityTier),
        caller == old(registry).authority && tier != VerificationTier::Community && old(
            merchant,
        ).verification_tier == VerificationTier::Unverified && tier == VerificationTier::Verified
            && old(registry).verified_merchants == u64::MAX ==> r == Err::<
            MerchantVerified,
            ErrorCode,
        >(ErrorCode::Overflow),
        r is Err ==> *final(merchant) == *old(merchant) && *final(registry) == *old(registry),
        r is Ok <==> caller == old(registry).authority && tier != VerificationTier::Community && !(
        old(merchant).verification_tier == VerificationTier::Unverified && tier
            == VerificationTier::Verified && old(registry).verified_merchants == u64::MAX),
        r matches Ok(ev) ==> *final(merchant) == (Merchant {
            verification_tier: tier,
            last_updated: now,
            ..*old(merchant)
        }) && ev == (MerchantVerified { tier, timestamp: now }) && *final(registry)
            == (RegistryState {
            verified_merchants: if old(merchant).verification_tier
                == VerificationTier::Unverified && tier == VerificationTier::Verified {
                (old(registry).verified_merchants + 1) as u64
            } else {
                old(registry).verified_merchants
            },
            ..*old(registry)
        }),
        // The Community tier can never be reached through direct
        // assignment.
        r is Ok ==> final(merchant).verification_tier != VerificationTier::Community,
        old(merchant).wf() && valid_timestamp(now as int) ==> final(merchant).wf(),
{
    if caller != registry.authority {
        return Err(ErrorCode::UnauthorizedAdmin);
    }
    if tier == VerificationTier::Community {
        return Err(ErrorCode::CannotManuallySetCommunityTier);
    }
    let was_unverified: bool = merchant.verification_tier == VerificationTier::Unverified;
    if was_unverified && tier == VerificationTier::Verified {
        let new_verified: u64 = match registry.verified_merchants.checked_add(1) {
            Some(v) => v,
            None => { return Err(ErrorCode::Overflow) },
        };
        registry.verified_merchants = new_verified;
    }
    merchant.verification_tier = tier;
    merchant.last_updated = now;
    Ok(MerchantVerified { tier, timestamp: now })
}

/// Purchase 30 days of premium visibility. Only Verified or Community
/// merchants may buy; the host ledger transfers the registry's badge
/// price from the merchant to the registry fee account.
pub fn subscribe_premium_badge(
    merchant: &mut Merchant,
    registry: &RegistryState,
    caller: AccountId,
    now: i64,
) -> (r: Result<PremiumBadgeActivated, ErrorCode>)
    requires
        valid_timestamp(now as int),
    ensures
        caller != old(merchant).owner ==> r == Err::<PremiumBadgeActivated, ErrorCode>(
            ErrorCode::UnauthorizedMerchantOwner,
        ),
        caller == old(merchant).owner && old(merchant).verification_tier
            != VerificationTier::Verified && old(merchant).verification_tier
            != VerificationTier::Community ==> r == Err::<PremiumBadgeActivated, ErrorCode>(
            ErrorCode::MustBeVerifiedFirst,
        ),
        r is Err ==> *final(merchant) == *old(merchant),
        r is Ok <==> caller == old(merchant).owner && (old(merchant).verification_tier
            == VerificationTier::Verified || old(merchant).verification_tier
            == VerificationTier::Community),
        r matches Ok(ev) ==> *final(merchant) == (Merchant {
            premium_badge_active: true,
            premium_badge_expires: (now + PREMIUM_BADGE_DURATION_DAYS * SECONDS_PER_DAY) as i64,
            last_updated: now,
            ..*old(merchant)
        }) && ev == (PremiumBadgeActivated {
            expires_at: (now + PREMIUM_BADGE_DURATION_DAYS * SECONDS_PER_DAY) as i64,
        }),
        old(merchant).wf() ==> final(merchant).wf(),
{
    if caller != merchant.owner {
        return Err(ErrorCode::UnauthorizedMerchantOwner);
    }
    if !(merchant.verification_tier == VerificationTier::Verified || merchant.verification_tier
        == VerificationTier::Community) {
        return Err(ErrorCode::MustBeVerifiedFirst);
    }
    merchant.premium_badge_active = true;
    merchant.premium_badge_expires = now + PREMIUM_BADGE_DURATION_DAYS * SECONDS_PER_DAY;
    merchant.last_updated = now;
    Ok(PremiumBadgeActivated { expires_at: merchant.premium_badge_expires })
}

/// Whether a merchant currently meets the automatic Community promotion
/// rule: Verified standing with at least 100 transactions, a score of at
/// least 1000, and fewer than 5 failures.
pub open spec fn auto_promote(m: Merchant) -> bool {
    &&& m.verification_tier == VerificationTier::Verified
    &&& m.total_transactions >= PROMOTION_MIN_TRANSACTIONS
    &&& m.community_score >= PROMOTION_MIN_SCORE
    &&& m.failed_transactions < PROMOTION_MAX_FAILURES
}

/// The automatic tier rules applied after every score mutation: promotion
/// first, then suspension, so that suspension wins whenever the score is
/// below the threshold. Suspension also clears the premium badge.
pub open spec fn apply_tier_rules_spec(m: Merchant) -> Merchant {
    let promoted = if auto_promote(m) {
        Merchant { verification_tier: VerificationTier::Community, ..m }
    } else {
        m
    };
    if promoted.community_score < SUSPENSION_SCORE {
        Merchant {
            verification_tier: VerificationTier::Suspended,
            premium_badge_active: false,
            ..promoted
        }
    } else {
        promoted
    }
}

/// Tier monotonicity: the automatic rules can make a merchant Community
/// only when the promotion rule holds, and Suspended only when the score
/// is below the suspension threshold; a score below the threshold always
/// suspends and clears the badge.
pub proof fn lemma_tier_rules(m: Merchant)
    ensures
        apply_tier_rules_spec(m).verification_tier == VerificationTier::Community ==> m.verification_tier
            == VerificationTier::Community || auto_promote(m),
        apply_tier_rules_spec(m).verification_tier == VerificationTier::Suspended ==> m.verification_tier
            == VerificationTier::Suspended || m.community_score < SUSPENSION_SCORE,
        m.community_score < SUSPENSION_SCORE ==> apply_tier_rules_spec(m).verification_tier
            == VerificationTier::Suspended && !apply_tier_rules_spec(m).premium_badge_active,
        apply_tier_rules_spec(m).community_score == m.community_score,
{
}

/// Apply the automatic tier rules to the record in place.
pub(crate) fn apply_tier_rules(merchant: &mut Merchant) -> (tuple: ())
    ensures
        *final(merchant) == apply_tier_rules_spec(*old(merchant)),
{
    if merchant.verification_tier == VerificationTier::Verified && merchant.total_transactions
        >= PROMOTION_MIN_TRANSACTIONS && merchant.community_score >= PROMOTION_MIN_SCORE
        && merchant.failed_transactions < PROMOTION_MAX_FAILURES {
        merchant.verification_tier = VerificationTier::Community;
    }
    if merchant.community_score < SUSPENSION_SCORE {
        merchant.verification_tier = VerificationTier::Suspended;
        merchant.premium_badge_active = false;
    }
}

/// An expired premium badge is cleared lazily the next time a transaction
/// report touches the record.
pub open spec fn badge_after_expiry(m: Merchant, now: i64) -> Merchant {
    if m.premium_badge_active && now >= m.premium_badge_expires {
        Merchant { premium_badge_active: false, ..m }
    } else {
        m
    }
}

/// Whether the checked counter updates of a transaction report would
/// overflow: fatal for the success counters and score gain; a failed
/// report's score loss saturates and is never fatal.
pub open spec fn report_overflow(m: Merchant, amount: u64, success: bool) -> bool {
    if success {
        m.total_transactions == u64::MAX || m.total_volume + amount > u64::MAX
            || m.community_score + SCORE_PER_SUCCESS > i32::MAX
    } else {
        m.failed_transactions == u32::MAX
    }
}

/// The full effect of an accepted transaction report: lazy badge expiry,
/// counter and score updates, the touch timestamp, then the automatic
/// tier rules.
pub open spec fn report_transition(m: Merchant, amount: u64, success: bool, now: i64) -> Merchant {
    let cleared = badge_after_expiry(m, now);
    let counted = if success {
        Merchant {
            total_transactions: (cleared.total_transactions + 1) as u64,
            total_volume: (cleared.total_volume + amount) as u64,
            community_score: (cleared.community_score + SCORE_PER_SUCCESS) as i32,
            ..cleared
        }
    } else {
        Merchant {
            failed_transactions: (cleared.failed_transactions + 1) as u32,
            community_score: spec_saturating_sub_i32(cleared.community_score, SCORE_PER_FAILURE),
            ..cleared
        }
    };
    apply_tier_rules_spec(Merchant { last_updated: now, ..counted })
}

/// Tier monotonicity across a transaction report: the record comes out
/// Community only if it went in Community already or went in Verified
/// (the automatic rule promotes no other standing), and comes out
/// Suspended only if it went in Suspended or its score ended below the
/// suspension threshold.
pub proof fn lemma_report_tier_monotonic(m: Merchant, amount: u64, success: bool, now: i64)
    ensures
        report_transition(m, amount, success, now).verification_tier
            == VerificationTier::Community ==> m.verification_tier == VerificationTier::Community
            || m.verification_tier == VerificationTier::Verified,
        report_transition(m, amount, success, now).verification_tier
            == VerificationTier::Suspended ==> m.verification_tier == VerificationTier::Suspended
            || report_transition(m, amount, success, now).community_score < SUSPENSION_SCORE,
{
}

/// Whether a call origin proves the report was made by the billing engine
/// itself, as a nested call from the given program.
pub open spec fn authorized_reporter(origin: CallOrigin, billing_program: AccountId) -> bool {
    origin matches CallOrigin::Nested { calling_program } && calling_program == billing_program
}

/// Record one payment outcome against a merchant. This is the only path
/// by which billing history reaches the trust record: a report is
/// accepted only when the host runtime shows it arrived as a nested call
/// made by the billing engine, so no outside caller can forge one.
pub fn record_transaction(
    merchant: &mut Merchant,
    origin: CallOrigin,
    billing_program: AccountId,
    amount: u64,
    success: bool,
    now: i64,
) -> (r: Result<(), ErrorCode>)
    requires
        valid_timestamp(now as int),
    ensures
        origin is Direct ==> r == Err::<(), ErrorCode>(ErrorCode::MustBeCalledViaCpi),
        origin matches CallOrigin::Nested { calling_program } && calling_program
            != billing_program ==> r == Err::<(), ErrorCode>(ErrorCode::UnauthorizedCpiCaller),
        authorized_reporter(origin, billing_program) && report_overflow(
            *old(merchant),
            amount,
            success,
        ) ==> r == Err::<(), ErrorCode>(ErrorCode::Overflow),
        r is Err ==> *final(merchant) == *old(merchant),
        r is Ok <==> authorized_reporter(origin, billing_program) && !report_overflow(
            *old(merchant),
            amount,
            success,
        ),
        r is Ok ==> *final(merchant) == report_transition(*old(merchant), amount, success, now),
        old(merchant).wf() ==> final(merchant).wf(),
        // Tier monotonicity: a report can make a merchant Community only
        // out of Verified standing, and Suspended only when its score
        // ends below the suspension threshold; a score below the
        // threshold always suspends and clears the badge.
        final(merchant).verification_tier == VerificationTier::Community ==> old(
            merchant,
        ).verification_tier == VerificationTier::Community || old(merchant).verification_tier
            == VerificationTier::Verified,
        final(merchant).verification_tier == VerificationTier::Suspended ==> old(
            merchant,
        ).verification_tier == VerificationTier::Suspended || final(merchant).community_score
            < SUSPENSION_SCORE,
        r is Ok && final(merchant).community_score < SUSPENSION_SCORE ==> final(merchant).verification_tier == VerificationTier::Suspended && !final(merchant).premium_badge_active,
{
    let calling_program: AccountId = match origin {
        CallOrigin::Direct => { return Err(ErrorCode::MustBeCalledViaCpi) },
        CallOrigin::Nested { calling_program } => calling_program,
    };
    if calling_program != billing_program {
        return Err(ErrorCode::UnauthorizedCpiCaller);
    }
    if success {
        // Probe every checked update before mutating, so an overflow
        // aborts the whole report.
        let new_transactions: u64 = match merchant.total_transactions.checked_add(1) {
            Some(v) => v,
            None => { return Err(ErrorCode::Overflow) },
        };
        let new_volume: u64 = match merchant.total_volume.checked_add(amount) {
            Some(v) => v,
            None => { return Err(ErrorCode::Overflow) },
        };
        let new_score: i32 = match merchant.community_score.checked_add(SCORE_PER_SUCCESS) {
            Some(v) => v,
            None => { return Err(ErrorCode::Overflow) },
        };
        if merchant.premium_badge_active && now >= merchant.premium_badge_expires {
            merchant.premium_badge_active = false;
        }
        merchant.total_transactions = new_transactions;
        merchant.total_volume = new_volume;
        merchant.community_score = new_score;
    } else {
        let new_failed: u32 = match merchant.failed_transactions.checked_add(1) {
            Some(v) => v,
            None => { return Err(ErrorCode::Overflow) },
        };
        if merchant.premium_badge_active && now >= merchant.premium_badge_expires {
            merchant.premium_badge_active = false;
        }
        merchant.failed_transactions = new_failed;
        merchant.community_score = saturating_sub_i32(merchant.community_score, SCORE_PER_FAILURE);
    }
    merchant.last_updated = now;
    apply_tier_rules(merchant);
    Ok(())
}

/// Administrator suspension for violations: sets the Suspended tier and
/// clears any premium badge.
pub fn suspend_merchant(
    merchant: &mut Merchant,
    registry: &RegistryState,
    caller: AccountId,
    reason: String,
    now: i64,
) -> (r: Result<MerchantSuspended, ErrorCode>)
    ensures
        caller != registry.authority ==> r == Err::<MerchantSuspended, ErrorCode>(
            ErrorCode::UnauthorizedAdmin,
        ),
        caller == registry.authority && (reason@.len() == 0 || reason@.len() > 256) ==> r == Err::<
            MerchantSuspended,
            ErrorCode,
        >(ErrorCode::InvalidSuspensionReason),
        r is Err ==> *final(merchant) == *old(merchant),
        r is Ok <==> caller == registry.authority && 1 <= reason@.len() <= 256,
        r matches Ok(ev) ==> *final(merchant) == (Merchant {
            verification_tier: VerificationTier::Suspended,
            premium_badge_active: false,
            last_updated: now,
            ..*old(merchant)
        }) && ev.reason@ == reason@ && ev.score == old(merchant).community_score,
        old(merchant).wf() && valid_timestamp(now as int) ==> final(merchant).wf(),
{
    if caller != registry.authority {
        return Err(ErrorCode::UnauthorizedAdmin);
    }
    let reason_len: usize = reason.as_str().unicode_len();
    if reason_len == 0 || reason_len > 256 {
        return Err(ErrorCode::InvalidSuspensionReason);
    }
    merchant.verification_tier = VerificationTier::Suspended;
    merchant.premium_badge_active = false;
    merchant.last_updated = now;
    Ok(MerchantSuspended { reason, score: merchant.community_score })
}

/// The first failure a profile update runs into, in the order the checks
/// are made.
pub open spec fn profile_update_error(
    m: Merchant,
    caller: AccountId,
    business_name: Option<Seq<char>>,
    webhook_url: Option<Seq<char>>,
    category: Option<Seq<char>>,
) -> Option<ErrorCode> {
    if caller != m.owner {
        Some(ErrorCode::UnauthorizedMerchantOwner)
    } else if business_name matches Some(name) && (name.len() == 0 || name.len()
        > MAX_BUSINESS_NAME_LEN as int) {
        Some(ErrorCode::InvalidBusinessName)
    } else if webhook_url matches Some(url) && (url.len() == 0 || url.len()
        > MAX_WEBHOOK_URL_LEN as int) {
        Some(ErrorCode::InvalidWebhookUrl)
    } else if category matches Some(cat) && (cat.len() == 0 || cat.len()
        > MAX_CATEGORY_LEN as int) {
        Some(ErrorCode::InvalidCategory)
    } else {
        None
    }
}

/// Merchant-owner update of the display fields; fields left as `None`
/// stay as they are. A simple field edit with no business rule beyond
/// validation.
pub fn update_merchant_info(
    merchant: &mut Merchant,
    caller: AccountId,
    business_name: Option<String>,
    webhook_url: Option<String>,
    category: Option<String>,
    now: i64,
) -> (r: Result<(), ErrorCode>)
    ensures
        r is Err <==> profile_update_error(
            *old(merchant),
            caller,
            match business_name {
                Some(ref s) => Some(s@),
                None => None,
            },
            match webhook_url {
                Some(ref s) => Some(s@),
                None => None,
            },
            match category {
                Some(ref s) => Some(s@),
                None => None,
            },
        ) is Some,
        r matches Err(e) ==> Some(e) == profile_update_error(
            *old(merchant),
            caller,
            match business_name {
                Some(ref s) => Some(s@),
                None => None,
            },
            match webhook_url {
                Some(ref s) => Some(s@),
                None => None,
            },
            match category {
                Some(ref s) => Some(s@),
                None => None,
            },
        ) && *final(merchant) == *old(merchant),
        r is Ok ==> final(merchant).business_name@ == (match business_name {
            Some(ref s) => s@,
            None => old(merchant).business_name@,
        }) && final(merchant).webhook_url@ == (match webhook_url {
            Some(ref s) => s@,
            None => old(merchant).webhook_url@,
        }) && final(merchant).category@ == (match category {
            Some(ref s) => s@,
            None => old(merchant).category@,
        }) && final(merchant).last_updated == now && *final(merchant) == (Merchant {
            business_name: final(merchant).business_name,
            webhook_url: final(merchant).webhook_url,
            category: final(merchant).category,
            last_updated: now,
            ..*old(merchant)
        }),
        old(merchant).wf() && valid_timestamp(now as int) ==> final(merchant).wf(),
{
    if caller != merchant.owner {
        return Err(ErrorCode::UnauthorizedMerchantOwner);
    }
    if let Some(ref name) = business_name {
        let len: usize = name.as_str().unicode_len();
        if len == 0 || len > MAX_BUSINESS_NAME_LEN {
            return Err(ErrorCode::InvalidBusinessName);
        }
    }
    if let Some(ref url) = webhook_url {
        let len: usize = url.as_str().unicode_len();
        if len == 0 || len > MAX_WEBHOOK_URL_LEN {
            return Err(ErrorCode::InvalidWebhookUrl);
        }
    }
    if let Some(ref cat) = category {
        let len: usize = cat.as_str().unicode_len();
        if len == 0 || len > MAX_CATEGORY_LEN {
            return Err(ErrorCode::InvalidCategory);
        }
    }
    if let Some(name) = business_name {
        merchant.business_name = name;
    }
    if let Some(url) = webhook_url {
        merchant.webhook_url = url;
    }
    if let Some(cat) = category {
        merchant.category = cat;
    }
    merchant.last_updated = now;
    Ok(())
}

} // verus!
