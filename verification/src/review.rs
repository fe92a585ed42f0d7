//! The review gate: a reputation-affecting review is admitted only on
//! proof of a sufficiently old, funded and frequent subscription
//! relationship with the merchant, and only once per payer and merchant.

use vstd::prelude::*;
use vstd::string::StrSliceExecFns;
use crate::arith::{saturating_sub_i32, spec_saturating_sub_i32};
use crate::merchant::{apply_tier_rules, apply_tier_rules_spec, Merchant};
use crate::model::{valid_timestamp, AccountId};
use crate::registry::ErrorCode;
use crate::subscription::Subscription;

verus! {

/// Longest accepted review comment, in characters.
pub const MAX_REVIEW_COMMENT_LEN: usize = 256;

/// Completed payments a subscription needs before its payer may review.
pub const MIN_REVIEW_PAYMENTS: u32 = 3;

/// Cumulative amount (one settlement unit in minor units) a subscription
/// needs before its payer may review.
pub const MIN_REVIEW_TOTAL_PAID: u64 = 1_000_000;

/// Age (seven days, in seconds) a subscription needs before its payer may
/// review.
pub const MIN_SUBSCRIPTION_AGE_SECONDS: i64 = 604_800;

/// One accepted review, immutable once created.
#[derive(Clone, Debug)]
pub struct Review {
    /// The reviewed merchant, by owner identity.
    pub merchant: AccountId,
    pub reviewer: AccountId,
    pub rating: u8,
    pub comment: String,
    pub timestamp: i64,
}

/// Event reported when a review is accepted.
#[derive(Clone, Copy, Debug, PartialEq, Eq, Structural)]
pub struct ReviewSubmitted {
    pub reviewer: AccountId,
    pub rating: u8,
    pub new_score: i32,
}

/// The store of accepted reviews, keyed by merchant and rating payer: the
/// host's duplicate-key rejection is what makes a second review from the
/// same relationship fail.
#[derive(Clone, Debug)]
pub struct ReviewBook {
    pub reviews: Vec<Review>,
}

impl ReviewBook {
    /// Well-formedness: no two reviews share both merchant and author.
    pub open spec fn wf(self) -> bool {
        forall|i: int, j: int|
            0 <= i < j < self.reviews@.len() ==> !(self.reviews@[i].merchant
                == self.reviews@[j].merchant && self.reviews@[i].reviewer
                == self.reviews@[j].reviewer)
    }

    /// Whether some review of this merchant by this author is on file.
    pub open spec fn contains_pair(self, merchant: AccountId, reviewer: AccountId) -> bool {
        exists|i: int|
            0 <= i < self.reviews@.len() && self.reviews@[i].merchant == merchant
                && self.reviews@[i].reviewer == reviewer
    }

    /// An empty book.
    pub fn new() -> (r: ReviewBook)
        ensures
            r.reviews@ =~= Seq::<Review>::empty(),
            r.wf(),
    {
        ReviewBook { reviews: Vec::new() }
    }

    /// Look up whether this author has already reviewed this merchant.
    pub fn has_review(&self, merchant: AccountId, reviewer: AccountId) -> (b: bool)
        ensures
            b == self.contains_pair(merchant, reviewer),
    {
        let mut i: usize = 0;
        while i < self.reviews.len()
            invariant
                i <= self.reviews@.len(),
                forall|k: int|
                    0 <= k < i ==> !(self.reviews@[k].merchant == merchant
                        && self.reviews@[k].reviewer == reviewer),
            decreases self.reviews@.len() - i,
        {
            let entry = &self.reviews[i];
            if entry.merchant == merchant && entry.reviewer == reviewer {
                proof {
                    assert(self.reviews@[i as int].merchant == merchant && self.reviews@[
                        i as int
                    ].reviewer == reviewer);
                }
                return true;
            }
            i += 1;
        }
        false
    }
}

/// At most one review of a merchant per author: in a well-formed book,
/// two reviews sharing merchant and author are the same review.
pub proof fn lemma_one_review_per_pair(book: ReviewBook, i: int, j: int)
    requires
        book.wf(),
        0 <= i < book.reviews@.len(),
        0 <= j < book.reviews@.len(),
        book.reviews@[i].merchant == book.reviews@[j].merchant,
        book.reviews@[i].reviewer == book.reviews@[j].reviewer,
    ensures
        i == j,
{
}

/// The score delta a rating applies: 5 stars +20, 4 stars +10, 3 stars 0,
/// 2 stars -15, 1 star -30.
pub open spec fn review_delta(rating: u8) -> i32 {
    if rating == 5 {
        20
    } else if rating == 4 {
        10
    } else if rating == 3 {
        0
    } else if rating == 2 {
        (-15) as i32
    } else {
        (-30) as i32
    }
}

/// A merchant's score after a review: non-negative deltas are checked
/// (this function assumes no overflow), negative ones saturate.
pub open spec fn review_score_after(score: i32, rating: u8) -> i32 {
    let delta = review_delta(rating);
    if delta >= 0 {
        (score + delta) as i32
    } else {
        spec_saturating_sub_i32(score, (-delta) as i32)
    }
}

/// The full effect of an accepted review on the merchant: the score
/// delta, the touch timestamp, then the automatic tier rules.
pub open spec fn review_transition(m: Merchant, rating: u8, now: i64) -> Merchant {
    apply_tier_rules_spec(
        Merchant {
            community_score: review_score_after(m.community_score, rating),
            last_updated: now,
            ..m
        },
    )
}

/// Tier monotonicity across a review: the record comes out Community only
/// if it went in Community already or went in Verified, and comes out
/// Suspended only if it went in Suspended or its score ended below the
/// suspension threshold.
pub proof fn lemma_review_tier_monotonic(m: Merchant, rating: u8, now: i64)
    ensures
        review_transition(m, rating, now).verification_tier
            == crate::registry::VerificationTier::Community ==> m.verification_tier
            == crate::registry::VerificationTier::Community || m.verification_tier
            == crate::registry::VerificationTier::Verified,
        review_transition(m, rating, now).verification_tier
            == crate::registry::VerificationTier::Suspended ==> m.verification_tier
            == crate::registry::VerificationTier::Suspended || review_transition(
            m,
            rating,
            now,
        ).community_score < crate::merchant::SUSPENSION_SCORE,
{
}

/// The first failure a review runs into, in the order the checks are
/// made: the duplicate-key store first, then the relationship evidence,
/// then the review fields, then the age, then the checked score update.
pub open spec fn review_error(
    book: ReviewBook,
    m: Merchant,
    s: Subscription,
    reviewer: AccountId,
    rating: u8,
    comment: Seq<char>,
    now: i64,
) -> Option<ErrorCode> {
    if book.contains_pair(m.owner, reviewer) {
        Some(ErrorCode::DuplicateReview)
    } else if !s.is_active {
        Some(ErrorCode::NoActiveSubscription)
    } else if s.payment_count < MIN_REVIEW_PAYMENTS {
        Some(ErrorCode::InsufficientPaymentHistory)
    } else if s.total_paid < MIN_REVIEW_TOTAL_PAID {
        Some(ErrorCode::InsufficientTotalPaid)
    } else if rating < 1 || rating > 5 {
        Some(ErrorCode::InvalidRating)
    } else if comment.len() == 0 || comment.len() > MAX_REVIEW_COMMENT_LEN as int {
        Some(ErrorCode::InvalidComment)
    } else if now - s.created_at < MIN_SUBSCRIPTION_AGE_SECONDS {
        Some(ErrorCode::SubscriptionTooNew)
    } else if review_delta(rating) >= 0 && m.community_score + review_delta(rating) > i32::MAX {
        Some(ErrorCode::Overflow)
    } else {
        None
    }
}

/// Submit a review. The cited subscription must bind its author to the
/// merchant (the host resolves it by exactly that pair, which the
/// preconditions mirror); it must be active, with at least 3 payments, at
/// least one settlement unit paid, and at least 7 days of age. A second
/// review for the same pair is rejected, never overwritten.
pub fn submit_review(
    book: &mut ReviewBook,
    merchant: &mut Merchant,
    subscription: &Subscription,
    reviewer: AccountId,
    rating: u8,
    comment: String,
    now: i64,
) -> (r: Result<ReviewSubmitted, ErrorCode>)
    requires
        old(book).wf(),
        subscription.user == reviewer,
        subscription.merchant == old(merchant).owner,
        subscription.wf(),
        valid_timestamp(now as int),
    ensures
        r is Err <==> review_error(
            *old(book),
            *old(merchant),
            *subscription,
            reviewer,
            rating,
            comment@,
            now,
        ) is Some,
        r matches Err(e) ==> Some(e) == review_error(
            *old(book),
            *old(merchant),
            *subscription,
            reviewer,
            rating,
            comment@,
            now,
        ) && *final(book) == *old(book) && *final(merchant) == *old(merchant),
        r matches Ok(ev) ==> final(book).reviews@ == old(book).reviews@.push(
            Review { merchant: old(merchant).owner, reviewer, rating, comment, timestamp: now },
        ) && *final(merchant) == review_transition(*old(merchant), rating, now) && ev
            == (ReviewSubmitted {
            reviewer,
            rating,
            new_score: final(merchant).community_score,
        }),
        final(book).wf(),
        // Sybil resistance: a young, thin or under-funded relationship is always
        // rejected, and one pair reviews at most once.
        now - subscription.created_at < MIN_SUBSCRIPTION_AGE_SECONDS ==> r is Err,
        subscription.payment_count < MIN_REVIEW_PAYMENTS ==> r is Err,
        subscription.total_paid < MIN_REVIEW_TOTAL_PAID ==> r is Err,
        old(book).contains_pair(old(merchant).owner, reviewer) ==> r == Err::<
            ReviewSubmitted,
            ErrorCode,
        >(ErrorCode::DuplicateReview),
        r is Ok ==> final(book).contains_pair(old(merchant).owner, reviewer),
        old(merchant).wf() ==> final(merchant).wf(),
        // Tier monotonicity holds through reviews as it does through
        // reports: Community only out of Verified standing, Suspended
        // only when the score ends below the suspension threshold.
        final(merchant).verification_tier == crate::registry::VerificationTier::Community ==> old(
            merchant,
        ).verification_tier == crate::registry::VerificationTier::Community || old(
            merchant,
        ).verification_tier == crate::registry::VerificationTier::Verified,
        final(merchant).verification_tier == crate::registry::VerificationTier::Suspended ==> old(
            merchant,
        ).verification_tier == crate::registry::VerificationTier::Suspended || final(merchant).community_score < crate::merchant::SUSPENSION_SCORE,
        r is Ok && final(merchant).community_score < crate::merchant::SUSPENSION_SCORE ==> final(merchant).verification_tier == crate::registry::VerificationTier::Suspended && !final(merchant).premium_badge_active,
{
    if book.has_review(merchant.owner, reviewer) {
        return Err(ErrorCode::DuplicateReview);
    }
    if !subscription.is_active {
        return Err(ErrorCode::NoActiveSubscription);
    }
    if subscription.payment_count < MIN_REVIEW_PAYMENTS {
        return Err(ErrorCode::InsufficientPaymentHistory);
    }
    if subscription.total_paid < MIN_REVIEW_TOTAL_PAID {
        return Err(ErrorCode::InsufficientTotalPaid);
    }
    if rating < 1 || rating > 5 {
        return Err(ErrorCode::InvalidRating);
    }
    let comment_len: usize = comment.as_str().unicode_len();
    if comment_len == 0 || comment_len > MAX_REVIEW_COMMENT_LEN {
        return Err(ErrorCode::InvalidComment);
    }
    if now - subscription.created_at < MIN_SUBSCRIPTION_AGE_SECONDS {
        return Err(ErrorCode::SubscriptionTooNew);
    }
    let delta: i32 = if rating == 5 {
        20
    } else if rating == 4 {
        10
    } else if rating == 3 {
        0
    } else if rating == 2 {
        -15
    } else {
        -30
    };
    let new_score: i32 = if delta >= 0 {
        match merchant.community_score.checked_add(delta) {
            Some(v) => v,
            None => { return Err(ErrorCode::Overflow) },
        }
    } else {
        saturating_sub_i32(merchant.community_score, -delta)
    };
    let ghost old_book = *book;
    let review = Review { merchant: merchant.owner, reviewer, rating, comment, timestamp: now };
    book.reviews.push(review);
    proof {
        let s = book.reviews@;
        assert forall|i: int, j: int|
            0 <= i < j < s.len() implies !(s[i].merchant == s[j].merchant && s[i].reviewer
            == s[j].reviewer) by {
            if j == s.len() - 1 {
                assert(s[i] == old_book.reviews@[i]);
                if s[i].merchant == s[j].merchant && s[i].reviewer == s[j].reviewer {
                    assert(old_book.contains_pair(old(merchant).owner, reviewer));
                }
            } else {
                assert(s[i] == old_book.reviews@[i]);
                assert(s[j] == old_book.reviews@[j]);
            }
        }
    }
    merchant.community_score = new_score;
    merchant.last_updated = now;
    apply_tier_rules(merchant);
    proof {
        let n = book.reviews@.len() - 1;
        assert(book.reviews@[n].merchant == old(merchant).owner && book.reviews@[n].reviewer
            == reviewer);
    }
    Ok(ReviewSubmitted { reviewer, rating, new_score: merchant.community_score })
}

} // verus!
