//! The payment score and the composite trust score.

use vstd::prelude::*;
use crate::types::PaymentReputation;

verus! {

/// The arithmetic of `compute_payment_score` on `rep` stays within `u32`.
pub open spec fn payment_score_fits(rep: PaymentReputation) -> bool {
    rep.total_deposits == 0 || {
        &&& rep.successful_refunds * 100 <= u32::MAX
        &&& rep.disputes > rep.dispute_wins ==> (rep.disputes - rep.dispute_wins) * 10 <= u32::MAX
    }
}

/// Payment score: 100 with no deposits; otherwise the percentage of deposits
/// refunded, less 10 points per dispute lost, kept within 0 to 100.
pub open spec fn payment_score(rep: PaymentReputation) -> int {
    if rep.total_deposits == 0 {
        100
    } else {
        let base: int = (rep.successful_refunds * 100) / (rep.total_deposits as int);
        let lost: int = if rep.disputes > rep.dispute_wins {
            rep.disputes - rep.dispute_wins
        } else {
            0
        };
        let s: int = if base > lost * 10 {
            base - lost * 10
        } else {
            0
        };
        if s < 100 {
            s
        } else {
            100
        }
    }
}

/// Whether the arithmetic of `compute_payment_score` on `rep` stays within `u32`.
pub fn payment_score_within_limits(rep: &PaymentReputation) -> (b: bool)
    ensures
        b == payment_score_fits(*rep),
{
    if rep.total_deposits == 0 {
        return true;
    }
    if rep.successful_refunds > u32::MAX / 100 {
        return false;
    }
    rep.disputes <= rep.dispute_wins || rep.disputes - rep.dispute_wins <= u32::MAX / 10
}

/// Computes the payment score (0 to 100) of a reputation record.
pub fn compute_payment_score(rep: &PaymentReputation) -> (s: u32)
    requires
        payment_score_fits(*rep),
    ensures
        s == payment_score(*rep),
        s <= 100,
{
    if rep.total_deposits == 0 {
        return 100;
    }
    let base = (rep.successful_refunds * 100) / rep.total_deposits.max(1);
    let penalty = rep.disputes.saturating_sub(rep.dispute_wins) * 10;
    base.saturating_sub(penalty).min(100)
}

/// The arithmetic of the trust score stays within `u32`.
pub open spec fn trust_score_fits(total_checkins: u32, total_reviews: u32, payment: u32) -> bool {
    &&& total_checkins * 4 <= u32::MAX
    &&& total_reviews * 10 <= u32::MAX
    &&& payment <= 100
}

/// Composite trust score: 4 points per check-in up to 400, 10 points per
/// review up to 300, and 3 points per payment-score point.
pub open spec fn trust_score(total_checkins: u32, total_reviews: u32, payment: u32) -> int {
    let c: int = if total_checkins * 4 < 400 {
        total_checkins * 4
    } else {
        400
    };
    let r: int = if total_reviews * 10 < 300 {
        total_reviews * 10
    } else {
        300
    };
    c + r + payment * 3
}

/// Computes the composite trust score (0 to 1000).
pub fn compute_trust_score(total_checkins: u32, total_reviews: u32, payment: u32) -> (s: u32)
    requires
        trust_score_fits(total_checkins, total_reviews, payment),
    ensures
        s == trust_score(total_checkins, total_reviews, payment),
        s <= 1000,
{
    let checkin_pts = (total_checkins * 4).min(400);
    let review_pts = (total_reviews * 10).min(300);
    let payment_pts = payment * 3;
    checkin_pts + review_pts + payment_pts
}

} // verus!
