//! Properties of the ledger that span requests, stated over its model.

use vstd::prelude::*;
use crate::ledger::{
    deposit_refunded, dispute_recorded, distinct_count, is_checkin_milestone, lemma_country_codes_index,
    lemma_distinct_count_bounded, names, payment_record_ok, visited, lemma_checkin_keeps_inv, lemma_keeps_refl, lemma_keeps_trans,
    lemma_lists_kept_push, lemma_lists_kept_refl, lemma_minted_keeps, lemma_minted_unless_held_keeps,
    lemma_payment_keeps_inv, lemma_review_keeps_inv, lemma_verify_keeps_inv, rescored,
    lemma_rolled_average_bounded, new_payment_reputation, new_traveler, rating_ok,
    rolled_average, TravelLedger,
};
use crate::score::{payment_score, trust_score};
use crate::types::{
    Address, BadgeRecord, BadgeType, PaymentReputation, ProviderProfile, ReviewRecord, TravelError, TravelerProfile,
};

verus! {

/// The contract can be initialized once: after a successful `initialize`,
/// every further `initialize` is refused with AlreadyInitialized.
pub proof fn law_initialize_once(l: TravelLedger, admin: Address)
    requires
        l.admin is None,
    ensures
        l.initialized_with(admin).admin is Some,
        l.initialized_with(admin).admin_error(admin) is None,
{
}

/// Before `initialize`, registrations are refused with NotInitialized and
/// admin-only requests too.
pub proof fn law_uninitialized_refuses(l: TravelLedger, caller: Address, place_id: String)
    requires
        l.admin is None,
    ensures
        l.register_traveler_error(caller) == Some(TravelError::NotInitialized),
        l.register_provider_error(caller) == Some(TravelError::NotInitialized),
        l.register_place_error(place_id) == Some(TravelError::NotInitialized),
        l.admin_error(caller) == Some(TravelError::NotInitialized),
{
}

/// Admin-only requests from anyone but the admin are refused with Unauthorized.
pub proof fn law_only_admin(l: TravelLedger, caller: Address, provider: Address, owner: Address, badge_id: u32)
    requires
        l.admin matches Some(a) && a@ != caller@,
    ensures
        l.admin_error(caller) == Some(TravelError::Unauthorized),
        l.verify_provider_error(caller, provider) == Some(TravelError::Unauthorized),
        l.revoke_badge_error(caller, owner, badge_id) == Some(TravelError::Unauthorized),
        l.payment_error(caller, owner) == Some(TravelError::Unauthorized),
        l.flag_review_error(caller, owner, provider) == Some(TravelError::Unauthorized),
{
}

/// After the admin role is handed to `new_admin`, the new admin passes the
/// admin check and the old one, if another address, no longer does.
pub proof fn law_transfer_admin(l: TravelLedger, current: Address, new_admin: Address)
    requires
        l.admin_error(current) is None,
    ensures
        l.with_admin(new_admin).admin_error(new_admin) is None,
        current@ != new_admin@ ==> l.with_admin(new_admin).admin_error(current) == Some(TravelError::Unauthorized),
{
}

/// A registered traveler reads back as registered: the given name and
/// country, no check-ins or reviews, trust score 500, and a payment
/// reputation with score 100.
pub proof fn law_register_traveler_reads_back(
    l: TravelLedger,
    owner: Address,
    display_name: String,
    country_code: String,
    now: u64,
)
    ensures
        l.with_traveler(owner, display_name, country_code, now).travelers[owner@] == new_traveler(
            owner,
            display_name,
            country_code,
            now,
        ),
        l.with_traveler(owner, display_name, country_code, now).travelers[owner@].trust_score == 500,
        l.with_traveler(owner, display_name, country_code, now).payment_reps[owner@] == new_payment_reputation(
            owner,
            now,
        ),
        l.with_traveler(owner, display_name, country_code, now).payment_reps[owner@].score == 100,
{
}

/// A profile is registered once: registering the same traveler again is
/// refused with ProfileAlreadyExists.
pub proof fn law_register_traveler_once(
    l: TravelLedger,
    owner: Address,
    display_name: String,
    country_code: String,
    now: u64,
    again: Address,
)
    requires
        l.register_traveler_error(owner) is None,
        again@ == owner@,
    ensures
        l.with_traveler(owner, display_name, country_code, now).register_traveler_error(again) == Some(
            TravelError::ProfileAlreadyExists,
        ),
{
}

/// Only a verified provider can stamp a check-in: an unverified one is
/// refused with ProviderNotVerified.
pub proof fn law_checkin_needs_verified_provider(
    l: TravelLedger,
    provider: Address,
    traveler: Address,
    place_id: String,
)
    requires
        l.admin is Some,
        l.providers.contains_key(provider@),
        !l.providers[provider@].is_verified,
    ensures
        l.confirm_checkin_error(provider, traveler, place_id) == Some(TravelError::ProviderNotVerified),
{
}

/// Every stored check-in was confirmed by a provider that is verified.
pub proof fn law_checkins_confirmed_by_verified(l: TravelLedger, key: (Seq<char>, u64))
    requires
        l.inv(),
        l.checkins.contains_key(key),
    ensures
        l.providers.contains_key(l.checkins[key].confirmed_by@),
        l.providers[l.checkins[key].confirmed_by@].is_verified,
{
}

/// Counts agree with lists: a traveler's check-in count is the number of
/// its check-ins, listed in increasing id order, each a stored check-in of
/// that traveler; a provider's rating count is the number of its listed
/// reviews, each stored; a place's visitor count is the number of its
/// listed visits.
pub proof fn law_counts_agree(l: TravelLedger, traveler: Seq<char>, provider: Seq<char>, place: Seq<char>)
    requires
        l.inv(),
    ensures
        l.travelers.contains_key(traveler) ==> l.travelers[traveler].total_checkins == l.checkin_ids(traveler).len(),
        forall|i: int, j: int|
            0 <= i < j < l.checkin_ids(traveler).len() ==> #[trigger] l.checkin_ids(traveler)[i]
                < #[trigger] l.checkin_ids(traveler)[j],
        forall|i: int|
            0 <= i < l.checkin_ids(traveler).len() ==> l.checkins.contains_key(
                (traveler, #[trigger] l.checkin_ids(traveler)[i]),
            ),
        l.providers.contains_key(provider) ==> l.providers[provider].total_ratings == l.reviewers(provider).len(),
        forall|i: int|
            0 <= i < l.reviewers(provider).len() ==> l.reviews.contains_key(
                (#[trigger] l.reviewers(provider)[i]@, provider),
            ),
        l.places.contains_key(place) ==> l.places[place].total_visitors == l.visitors(place).len(),
{
}

/// Check-in ids are handed out in increasing order: a check-in stamped
/// after another gets a larger id, and no stored check-in is overwritten.
pub proof fn law_checkin_ids_increase(
    l: TravelLedger,
    provider: Address,
    traveler: Address,
    place_id: String,
    note: String,
    now: u64,
    next: TravelLedger,
    key: (Seq<char>, u64),
)
    requires
        l.inv(),
        l.confirm_checkin_error(provider, traveler, place_id) is None,
        l.id_count < u64::MAX,
        l.with_checkin(provider, traveler, place_id, note, now).milestone_awarded(
            next,
            traveler,
            (l.travelers[traveler@].total_checkins + 1) as u32,
            now,
        ),
        l.checkins.contains_key(key),
    ensures
        next.id_count == l.id_count + 1,
        key.1 < next.id_count,
        next.checkins.contains_key(key),
        next.checkins[key] == l.checkins[key],
        next.checkins[(traveler@, next.id_count)].confirmed_by == provider,
{
}

/// A review needs a check-in of the author that the rated provider
/// confirmed: without one it is refused with CheckInNotFound or
/// CheckInNotConfirmed.
pub proof fn law_review_needs_confirmed_checkin(
    l: TravelLedger,
    reviewer: Address,
    provider: Address,
    checkin_id: u64,
    rating: u32,
)
    requires
        l.leave_review_error(reviewer, provider, checkin_id, rating) is None,
    ensures
        l.checkins.contains_key((reviewer@, checkin_id)),
        l.checkins[(reviewer@, checkin_id)].confirmed_by@ == provider@,
        1 <= rating <= 5,
{
}

/// Every stored review links to a check-in of its author that the
/// rated provider confirmed, and has a rating of 1 to 5.
pub proof fn law_reviews_backed_by_checkins(l: TravelLedger, key: (Seq<char>, Seq<char>))
    requires
        l.inv(),
        l.reviews.contains_key(key),
    ensures
        l.checkins.contains_key((key.0, l.reviews[key].checkin_id)),
        l.checkins[(key.0, l.reviews[key].checkin_id)].confirmed_by@ == key.1,
        1 <= l.reviews[key].rating <= 5,
{
}

/// An author rates a provider once: after a review, a second review of
/// the same provider by the same author is refused.
pub proof fn law_review_once(
    l: TravelLedger,
    reviewer: Address,
    provider: Address,
    checkin_id: u64,
    rating: u32,
    comment: String,
    now: u64,
    next: TravelLedger,
    checkin_id2: u64,
    rating2: u32,
)
    requires
        l.leave_review_error(reviewer, provider, checkin_id, rating) is None,
        l.with_review(reviewer, provider, checkin_id, rating, comment, now).reviewer_badge_awarded(
            next,
            reviewer,
            (l.travelers[reviewer@].total_reviews + 1) as u32,
            now,
        ),
    ensures
        next.leave_review_error(reviewer, provider, checkin_id2, rating2) is Some,
{
    let mid = l.with_review(reviewer, provider, checkin_id, rating, comment, now);
    assert(next.reviews == mid.reviews);
    assert(next.admin == mid.admin);
    assert(next.travelers == mid.travelers);
    assert(next.checkins == mid.checkins);
}

/// Ratings are kept as averages times 100: a provider's average is 0
/// before its first rating and within 100 to 500 after, and one more
/// rating of 1 to 5 keeps it within 100 to 500.
pub proof fn law_rating_average_bounded(l: TravelLedger, provider: Seq<char>, rating: u32)
    requires
        l.inv(),
        l.providers.contains_key(provider),
        1 <= rating <= 5,
    ensures
        rating_ok(l.providers[provider]),
        100 <= rolled_average(l.providers[provider].avg_rating, l.providers[provider].total_ratings, rating)
            <= 500,
{
    lemma_rolled_average_bounded(l.providers[provider].avg_rating, l.providers[provider].total_ratings, rating);
}

/// The payment score is always within 0 to 100.
pub proof fn law_payment_score_bounded(rep: PaymentReputation)
    ensures
        0 <= payment_score(rep) <= 100,
{
}

/// The trust score is always within 0 to 1000 for a payment score of at
/// most 100.
pub proof fn law_trust_score_bounded(total_checkins: u32, total_reviews: u32, payment: u32)
    requires
        payment <= 100,
    ensures
        0 <= trust_score(total_checkins, total_reviews, payment) <= 1000,
{
}

/// Badges are soulbound: every badge is stored under its owner, and
/// minting a badge (within `u32` ids) leaves every existing badge as it was.
pub proof fn law_badges_soulbound(
    l: TravelLedger,
    owner: Address,
    badge_type: BadgeType,
    title: String,
    now: u64,
    key: (Seq<char>, u32),
)
    requires
        l.inv(),
        l.badge_fits(owner@),
        l.badges.contains_key(key),
    ensures
        l.badges[key].owner@ == key.0,
        l.badges[key].id == key.1,
        l.with_badge(owner, badge_type, title, now).badges.contains_key(key),
        l.with_badge(owner, badge_type, title, now).badges[key] == l.badges[key],
{
    assert(!l.badges.contains_key((owner@, l.next_badge_id(owner@) as u32)));
}

/// Revoking a badge keeps it, with its owner, id, type and title, and only
/// marks it revoked.
pub proof fn law_revocation_keeps_badge(l: TravelLedger, admin: Address, owner: Address, badge_id: u32)
    requires
        l.revoke_badge_error(admin, owner, badge_id) is None,
    ensures
        l.with_revoked_badge((owner@, badge_id)).badges.contains_key((owner@, badge_id)),
        l.with_revoked_badge((owner@, badge_id)).badges[(owner@, badge_id)] == (BadgeRecord {
            is_revoked: true,
            ..l.badges[(owner@, badge_id)]
        }),
        l.with_revoked_badge((owner@, badge_id)).owner_badges == l.owner_badges,
{
}

/// A check-in milestone badge is minted exactly at 10, 25, 50 and 100
/// check-ins, unless the traveler already holds an active one of it.
pub proof fn law_milestones(l: TravelLedger, next: TravelLedger, traveler: Address, total: u32, now: u64)
    requires
        l.milestone_awarded(next, traveler, total, now),
    ensures
        !is_checkin_milestone(total) ==> next == l,
        is_checkin_milestone(total) && l.has_active_badge(traveler@, BadgeType::CheckInMilestone(total)) ==> next
            == l,
        is_checkin_milestone(total) && !l.has_active_badge(traveler@, BadgeType::CheckInMilestone(total)) ==> {
            let key = (traveler@, l.next_badge_id(traveler@) as u32);
            &&& next.badges.contains_key(key)
            &&& next.badges[key].badge_type == BadgeType::CheckInMilestone(total)
            &&& !next.badges[key].is_revoked
            &&& next.badge_ids(traveler@) == l.badge_ids(traveler@).push(key.1)
        },
{
}

// ── Every request keeps the records ──────────────────────────────────────
// Together with `lemma_keeps_trans`, these say that over any run of
// requests no record is lost: check-ins stay as stamped, reviews and badges
// stay (a review may become flagged, a badge revoked, neither undone), lists
// only grow at the end, and only `initialize` and `transfer_admin` change
// the admin. They also say that a place's visitor list holds the travelers
// of the successful check-ins there, and a provider's list of review
// authors the authors of its successful reviews, each in call order.

/// `initialize` keeps every record and list, sets the admin and starts the
/// check-in counter at zero.
pub proof fn law_initialize_keeps_records(l: TravelLedger, admin: Address)
    requires
        l.inv(),
        l.admin is None,
    ensures
        l.keeps_records(l.initialized_with(admin)),
        l.initialized_with(admin).admin == Some(admin),
        l.initialized_with(admin).checkins == l.checkins,
        l.initialized_with(admin).id_count == 0,
        l.initialized_with(admin).place_visitors == l.place_visitors,
        l.initialized_with(admin).provider_reviewers == l.provider_reviewers,
{
    lemma_keeps_refl(l);
}

/// `transfer_admin` keeps every record, the check-ins, the visitor lists and
/// the lists of review authors.
pub proof fn law_transfer_admin_keeps_records(l: TravelLedger, new_admin: Address)
    ensures
        l.keeps_records(l.with_admin(new_admin)),
        l.with_admin(new_admin).checkins == l.checkins,
        l.with_admin(new_admin).place_visitors == l.place_visitors,
        l.with_admin(new_admin).provider_reviewers == l.provider_reviewers,
{
    lemma_keeps_refl(l);
}

/// `register_traveler` keeps every record, the admin, the
/// check-ins, the visitor lists and the lists of review authors.
pub proof fn law_register_traveler_keeps_records(
    l: TravelLedger,
    next: TravelLedger,
    r: Result<(), TravelError>,
    owner: Address,
    display_name: String,
    country_code: String,
    now: u64,
)
    requires
        l.inv(),
        l.register_traveler_outcome(next, r, owner, display_name, country_code, now),
    ensures
        l.keeps_records(next),
        next.admin == l.admin,
        next.checkins == l.checkins,
        next.place_visitors == l.place_visitors,
        next.provider_reviewers == l.provider_reviewers,
{
    lemma_keeps_refl(l);
}

/// `register_provider` keeps every record, the admin, the
/// check-ins, the visitor lists and the lists of review authors.
pub proof fn law_register_provider_keeps_records(
    l: TravelLedger,
    next: TravelLedger,
    r: Result<(), TravelError>,
    owner: Address,
    business_name: String,
    category: String,
    country_code: String,
    license_number: String,
    now: u64,
)
    requires
        l.inv(),
        l.register_provider_outcome(next, r, owner, business_name, category, country_code, license_number, now),
    ensures
        l.keeps_records(next),
        next.admin == l.admin,
        next.checkins == l.checkins,
        next.place_visitors == l.place_visitors,
        next.provider_reviewers == l.provider_reviewers,
{
    lemma_keeps_refl(l);
}

/// `register_place` keeps every record, the admin, the
/// check-ins, the visitor lists and the lists of review authors.
pub proof fn law_register_place_keeps_records(
    l: TravelLedger,
    next: TravelLedger,
    r: Result<(), TravelError>,
    registrar: Address,
    place_id: String,
    name: String,
    country_code: String,
    category: String,
    description: String,
    now: u64,
)
    requires
        l.inv(),
        l.register_place_outcome(next, r, registrar, place_id, name, country_code, category, description, now),
    ensures
        l.keeps_records(next),
        next.admin == l.admin,
        next.checkins == l.checkins,
        next.place_visitors == l.place_visitors,
        next.provider_reviewers == l.provider_reviewers,
{
    lemma_keeps_refl(l);
}

/// `verify_provider` keeps every record, the admin, the
/// check-ins, the visitor lists and the lists of review authors.
pub proof fn law_verify_provider_keeps_records(
    l: TravelLedger,
    next: TravelLedger,
    r: Result<(), TravelError>,
    admin: Address,
    provider: Address,
    now: u64,
)
    requires
        l.inv(),
        l.verify_provider_fits(admin, provider),
        l.verify_provider_outcome(next, r, admin, provider, now),
    ensures
        l.keeps_records(next),
        next.admin == l.admin,
        next.checkins == l.checkins,
        next.place_visitors == l.place_visitors,
        next.provider_reviewers == l.provider_reviewers,
{
    lemma_keeps_refl(l);
    if r is Ok {
        let mid = l.with_verified_provider(provider@);
        lemma_verify_keeps_inv(l, provider@);
        lemma_keeps_refl(mid);
        lemma_minted_keeps(mid, next, provider, BadgeType::VerifiedProvider, "Nhà cung cấp đã xác minh"@, now);
        lemma_keeps_trans(l, mid, next);
    }
}

/// `confirm_checkin` keeps every record, the admin and the lists of review
/// authors. A successful one adds exactly one check-in, under the id it
/// returns, and appends its traveler to the place's visitor list; a refused
/// one changes neither.
pub proof fn law_confirm_checkin_keeps_records(
    l: TravelLedger,
    next: TravelLedger,
    r: Result<u64, TravelError>,
    provider: Address,
    traveler: Address,
    place_id: String,
    note: String,
    now: u64,
)
    requires
        l.inv(),
        l.confirm_checkin_fits(provider, traveler, place_id),
        l.confirm_checkin_outcome(next, r, provider, traveler, place_id, note, now),
    ensures
        l.keeps_records(next),
        next.admin == l.admin,
        r is Err ==> next.place_visitors == l.place_visitors,
        r is Ok ==> next.place_visitors == l.place_visitors.insert(place_id@, l.visitors(place_id@).push(traveler)),
        next.provider_reviewers == l.provider_reviewers,
        r is Err ==> next.checkins == l.checkins,
        r matches Ok(id) ==> !l.checkins.contains_key((traveler@, id)) && next.checkins.dom() == l.checkins.dom().insert(
            (traveler@, id),
        ),
{
    lemma_keeps_refl(l);
    if r is Ok {
        let mid = l.with_checkin(provider, traveler, place_id, note, now);
        let t = traveler@;
        let id = (l.id_count + 1) as u64;
        assert(!l.checkins.contains_key((t, id)));
        lemma_lists_kept_push(l.traveler_checkins, t, id);
        lemma_lists_kept_push(l.place_visitors, place_id@, traveler);
        lemma_lists_kept_refl(l.provider_reviewers);
        lemma_lists_kept_refl(l.owner_badges);
        assert(l.keeps_records(mid));
        lemma_checkin_keeps_inv(l, provider, traveler, place_id, note, now);
        let total = (l.travelers[t].total_checkins + 1) as u32;
        if is_checkin_milestone(total) {
            lemma_minted_unless_held_keeps(mid, next, traveler, BadgeType::CheckInMilestone(total), "Mốc check-in"@, now);
        } else {
            lemma_keeps_refl(mid);
        }
        lemma_keeps_trans(l, mid, next);
    }
}

/// `leave_review` keeps every record, the admin, the check-ins and the
/// visitor lists. A successful one appends its author to the provider's list
/// of review authors; a refused one leaves that list as it was.
pub proof fn law_leave_review_keeps_records(
    l: TravelLedger,
    next: TravelLedger,
    r: Result<(), TravelError>,
    reviewer: Address,
    provider: Address,
    checkin_id: u64,
    rating: u32,
    comment: String,
    now: u64,
)
    requires
        l.inv(),
        l.leave_review_fits(reviewer, provider, checkin_id, rating),
        l.leave_review_outcome(next, r, reviewer, provider, checkin_id, rating, comment, now),
    ensures
        l.keeps_records(next),
        next.admin == l.admin,
        next.checkins == l.checkins,
        next.place_visitors == l.place_visitors,
        r is Err ==> next.provider_reviewers == l.provider_reviewers,
        r is Ok ==> next.provider_reviewers == l.provider_reviewers.insert(provider@, l.reviewers(provider@).push(reviewer)),
{
    lemma_keeps_refl(l);
    if r is Ok {
        let mid = l.with_review(reviewer, provider, checkin_id, rating, comment, now);
        lemma_lists_kept_refl(l.traveler_checkins);
        lemma_lists_kept_refl(l.place_visitors);
        lemma_lists_kept_push(l.provider_reviewers, provider@, reviewer);
        lemma_lists_kept_refl(l.owner_badges);
        assert(l.keeps_records(mid));
        lemma_review_keeps_inv(l, reviewer, provider, checkin_id, rating, comment, now);
        let total = (l.travelers[reviewer@].total_reviews + 1) as u32;
        if total >= 20 {
            lemma_minted_unless_held_keeps(mid, next, reviewer, BadgeType::TrustedReviewer, "Người đánh giá uy tín"@, now);
        } else {
            lemma_keeps_refl(mid);
        }
        lemma_keeps_trans(l, mid, next);
    }
}

/// `record_payment_success` keeps every record, the admin, the
/// check-ins, the visitor lists and the lists of review authors.
pub proof fn law_payment_success_keeps_records(
    l: TravelLedger,
    next: TravelLedger,
    r: Result<(), TravelError>,
    admin: Address,
    owner: Address,
    now: u64,
)
    requires
        l.inv(),
        l.payment_success_fits(admin, owner),
        l.payment_success_outcome(next, r, admin, owner, now),
    ensures
        l.keeps_records(next),
        next.admin == l.admin,
        next.checkins == l.checkins,
        next.place_visitors == l.place_visitors,
        next.provider_reviewers == l.provider_reviewers,
{
    lemma_keeps_refl(l);
    if r is Ok {
        let rep = rescored(deposit_refunded(l.payment_reps[owner@]), now);
        let mid = l.with_payment_rep(owner@, rep);
        assert(l.keeps_records(mid));
        lemma_payment_keeps_inv(l, owner@, rep);
        if rep.disputes == 0 && rep.total_deposits >= 10 {
            lemma_minted_unless_held_keeps(mid, next, owner, BadgeType::PaymentChampion, "Thanh toán uy tín"@, now);
        } else {
            lemma_keeps_refl(mid);
        }
        lemma_keeps_trans(l, mid, next);
    }
}

/// `record_dispute`, `flag_review`, `revoke_badge` and `update_trust_score`
/// keep every record, the admin, the check-ins, the visitor lists and the
/// lists of review authors.
pub proof fn law_small_requests_keep_records(
    l: TravelLedger,
    next: TravelLedger,
    r: Result<(), TravelError>,
    admin: Address,
    owner: Address,
    provider: Address,
    won: bool,
    badge_id: u32,
    now: u64,
)
    requires
        l.inv(),
        l.dispute_outcome(next, r, admin, owner, won, now) || (l.flag_review_error(admin, owner, provider) is None
            && next == l.with_flagged_review((owner@, provider@))) || (l.revoke_badge_error(admin, owner, badge_id)
            is None && next == l.with_revoked_badge((owner@, badge_id))) || (l.travelers.contains_key(owner@)
            && next == l.with_trust_score(owner@, l.trust_score_of(owner@) as u32)),
    ensures
        l.keeps_records(next),
        next.admin == l.admin,
        next.checkins == l.checkins,
        next.place_visitors == l.place_visitors,
        next.provider_reviewers == l.provider_reviewers,
{
    lemma_keeps_refl(l);
}

// ── Records and counts over the ledger's history ─────────────────────────

/// A traveler's countries visited are the distinct country codes of its
/// check-ins, listed in check-in order, and never more than its check-ins.
pub proof fn law_countries_visited(l: TravelLedger, traveler: Seq<char>)
    requires
        l.inv(),
        l.travelers.contains_key(traveler),
    ensures
        l.travelers[traveler].countries_visited == distinct_count(l.countries_of(traveler)),
        l.countries_of(traveler).len() == l.checkin_ids(traveler).len(),
        forall|j: int|
            0 <= j < l.checkin_ids(traveler).len() ==> #[trigger] l.countries_of(traveler)[j] == l.checkins[(
            traveler,
            l.checkin_ids(traveler)[j],
            )].country_code@,
        l.travelers[traveler].countries_visited <= l.travelers[traveler].total_checkins,
{
    lemma_country_codes_index(l.checkins, traveler, l.checkin_ids(traveler));
    lemma_distinct_count_bounded(l.countries_of(traveler));
}

/// Check-in ids count the check-ins: the counter is the number of stored
/// check-ins, each id belongs to one check-in, every check-in is listed
/// under its traveler, and a successful `confirm_checkin` returns the
/// number of earlier check-ins plus one.
pub proof fn law_checkin_ids_count(
    l: TravelLedger,
    next: TravelLedger,
    r: Result<u64, TravelError>,
    provider: Address,
    traveler: Address,
    place_id: String,
    note: String,
    now: u64,
    k1: (Seq<char>, u64),
    k2: (Seq<char>, u64),
)
    requires
        l.inv(),
        l.confirm_checkin_outcome(next, r, provider, traveler, place_id, note, now),
    ensures
        l.checkins.dom().len() == l.id_count,
        l.checkins.contains_key(k1) && l.checkins.contains_key(k2) && k1.1 == k2.1 ==> k1 == k2,
        l.checkins.contains_key(k1) ==> l.checkin_ids(k1.0).contains(k1.1),
        r matches Ok(id) ==> id == l.checkins.dom().len() + 1,
{
}

/// Once a review of a provider by a given author is stored, every further
/// review of the same pair that passes the rating, profile and check-in
/// checks is refused with ReviewAlreadyExists (reviews are never removed:
/// see the `*_keeps_records` laws).
pub proof fn law_review_pair_refused(
    l: TravelLedger,
    reviewer: Address,
    provider: Address,
    checkin_id: u64,
    rating: u32,
)
    requires
        l.reviews.contains_key((reviewer@, provider@)),
        l.admin is Some,
        1 <= rating <= 5,
        l.travelers.contains_key(reviewer@),
        l.checkins.contains_key((reviewer@, checkin_id)),
        l.checkins[(reviewer@, checkin_id)].confirmed_by@ == provider@,
    ensures
        l.leave_review_error(reviewer, provider, checkin_id, rating) == Some(TravelError::ReviewAlreadyExists),
{
}

/// A provider's list of review authors names each author once, names
/// every author of a stored review of it, and has as many entries as the
/// provider has ratings.
pub proof fn law_reviewer_list_exact(l: TravelLedger, provider: Seq<char>, key: (Seq<char>, Seq<char>))
    requires
        l.inv(),
    ensures
        forall|i: int, j: int|
            0 <= i < j < l.reviewers(provider).len() ==> #[trigger] l.reviewers(provider)[i]@
                != #[trigger] l.reviewers(provider)[j]@,
        l.reviews.contains_key(key) ==> names(l.reviewers(key.1), key.0),
        l.providers.contains_key(provider) ==> l.providers[provider].total_ratings == l.reviewers(provider).len(),
{
}

/// Every entry of a place's visitor list is a traveler with a check-in at
/// that place, and the place's visitor count is the length of its list.
pub proof fn law_visitor_list_sound(l: TravelLedger, place: Seq<char>, i: int)
    requires
        l.inv(),
        0 <= i < l.visitors(place).len(),
    ensures
        visited(l.checkins, l.visitors(place)[i]@, place),
        l.places.contains_key(place) ==> l.places[place].total_visitors == l.visitors(place).len(),
{
    assert(l.place_visitors.contains_key(place));
    assert(l.place_visitors[place][i] == l.visitors(place)[i]);
}

/// The badges of an owner are numbered 1, 2, ..., n in minting order: the
/// badge with id `i` exists exactly when 1 <= i <= n, and is stored under
/// its owner with its own id.
pub proof fn law_badge_numbering(l: TravelLedger, owner: Seq<char>, i: u32)
    requires
        l.inv(),
    ensures
        l.badges.contains_key((owner, i)) <==> 1 <= i <= l.badge_ids(owner).len(),
        forall|j: int| 0 <= j < l.badge_ids(owner).len() ==> #[trigger] l.badge_ids(owner)[j] == j + 1,
        l.badges.contains_key((owner, i)) ==> l.badges[(owner, i)].id == i && l.badges[(owner, i)].owner@ == owner,
{
    if 1 <= i <= l.badge_ids(owner).len() {
        assert(l.owner_badges.contains_key(owner));
        assert(l.owner_badges[owner][i - 1] == i);
    }
    assert forall|j: int| 0 <= j < l.badge_ids(owner).len() implies #[trigger] l.badge_ids(owner)[j] == j + 1 by {
        assert(l.owner_badges[owner][j] == j + 1);
    }
}

/// Minting a badge unless one is held is idempotent: afterwards the owner
/// holds an active badge of that type, so the same mint changes nothing.
pub proof fn law_mint_idempotent(
    l: TravelLedger,
    next: TravelLedger,
    owner: Address,
    badge_type: BadgeType,
    title: Seq<char>,
    now: u64,
)
    requires
        l.inv(),
        !l.has_active_badge(owner@, badge_type) ==> l.badge_fits(owner@),
        l.minted_unless_held(next, owner, badge_type, title, now),
    ensures
        next.has_active_badge(owner@, badge_type),
        forall|again: TravelLedger, title2: Seq<char>, now2: u64|
            next.minted_unless_held(again, owner, badge_type, title2, now2) ==> again == next,
{
    if !l.has_active_badge(owner@, badge_type) {
        let ids = l.badge_ids(owner@);
        let id = l.next_badge_id(owner@) as u32;
        assert(next.badge_ids(owner@) == ids.push(id));
        assert(next.badge_ids(owner@)[ids.len() as int] == id);
        assert(next.badges.contains_key((owner@, next.badge_ids(owner@)[ids.len() as int])));
    }
}

/// Updating a trust score twice gives the same score and the same ledger
/// as updating it once.
pub proof fn law_trust_score_idempotent(l: TravelLedger, traveler: Seq<char>)
    requires
        l.travelers.contains_key(traveler),
        0 <= l.trust_score_of(traveler) <= u32::MAX,
    ensures
        ({
            let s = l.trust_score_of(traveler) as u32;
            let once = l.with_trust_score(traveler, s);
            &&& once.trust_score_of(traveler) == l.trust_score_of(traveler)
            &&& once.with_trust_score(traveler, s) == once
        }),
{
    let s = l.trust_score_of(traveler) as u32;
    let once = l.with_trust_score(traveler, s);
    assert(once.travelers.insert(traveler, TravelerProfile { trust_score: s, ..once.travelers[traveler] })
        =~= once.travelers);
}

/// Every payment record is consistent: refunds match deposits, won
/// disputes are among the disputes, and the score (0 to 100) is computed
/// from them.
pub proof fn law_payment_records_consistent(l: TravelLedger, owner: Seq<char>)
    requires
        l.inv(),
        l.payment_reps.contains_key(owner),
    ensures
        payment_record_ok(l.payment_reps[owner]),
        l.payment_reps[owner].score <= 100,
{
}

/// A won dispute keeps the payment score; a lost one never raises it.
pub proof fn law_dispute_score(rep: PaymentReputation, won: bool)
    requires
        rep.dispute_wins <= rep.disputes,
        rep.score == payment_score(rep),
        rep.disputes < u32::MAX,
    ensures
        won ==> payment_score(dispute_recorded(rep, won)) == rep.score,
        !won ==> payment_score(dispute_recorded(rep, won)) <= rep.score,
{
}

// ── What the requests compute, in plain arithmetic ───────────────────────

/// The trust score is 4 points per check-in up to 400, plus 10 points per
/// review up to 300, plus 3 points per payment-score point; the three parts
/// add up independently.
pub proof fn law_trust_score_parts(total_checkins: u32, total_reviews: u32, payment: u32)
    ensures
        trust_score(total_checkins, total_reviews, payment) == trust_score(total_checkins, 0, 0) + trust_score(
            0,
            total_reviews,
            0,
        ) + 3 * payment,
        total_checkins <= 100 ==> trust_score(total_checkins, 0, 0) == 4 * total_checkins,
        total_checkins >= 100 ==> trust_score(total_checkins, 0, 0) == 400,
        total_reviews <= 30 ==> trust_score(0, total_reviews, 0) == 10 * total_reviews,
        total_reviews >= 30 ==> trust_score(0, total_reviews, 0) == 300,
        trust_score(0, 0, payment) == 3 * payment,
{
}

/// The trust score that `update_trust_score` gives a traveler, from the
/// traveler's counters and payment score (100 without a payment record).
pub proof fn law_trust_score_of_traveler(l: TravelLedger, traveler: Seq<char>)
    requires
        l.travelers.contains_key(traveler),
    ensures
        ({
            let p = l.travelers[traveler];
            let pay: int = if l.payment_reps.contains_key(traveler) {
                l.payment_reps[traveler].score as int
            } else {
                100
            };
            let c: int = 4 * p.total_checkins;
            let r: int = 10 * p.total_reviews;
            l.trust_score_of(traveler) == (if c <= 400 { c } else { 400 }) + (if r <= 300 { r } else { 300 }) + 3
                * pay
        }),
{
}

/// The payment score is 100 with no deposits; otherwise it is the
/// percentage of deposits refunded (rounded down) less 10 points per lost
/// dispute, kept within 0 to 100.
pub proof fn law_payment_score_formula(rep: PaymentReputation)
    ensures
        rep.total_deposits == 0 ==> payment_score(rep) == 100,
        rep.total_deposits > 0 ==> {
            let lost: int = if rep.disputes >= rep.dispute_wins {
                rep.disputes - rep.dispute_wins
            } else {
                0
            };
            let raw: int = (100 * rep.successful_refunds) / (rep.total_deposits as int) - 10 * lost;
            &&& raw <= 0 ==> payment_score(rep) == 0
            &&& 0 <= raw <= 100 ==> payment_score(rep) == raw
            &&& raw >= 100 ==> payment_score(rep) == 100
        },
{
}

/// Recording a dispute: a won one keeps the payment score; a lost one,
/// once there are deposits all refunded, takes exactly 10 points off (down
/// to 0), and with no deposits the score stays 100.
pub proof fn law_dispute_changes_score(
    l: TravelLedger,
    next: TravelLedger,
    admin: Address,
    owner: Address,
    won: bool,
    now: u64,
)
    requires
        l.inv(),
        l.dispute_fits(admin, owner, won),
        l.dispute_outcome(next, Ok(()), admin, owner, won, now),
    ensures
        ({
            let old_rep = l.payment_reps[owner@];
            let rep = next.payment_reps[owner@];
            &&& rep.disputes == old_rep.disputes + 1
            &&& rep.dispute_wins == old_rep.dispute_wins + (if won { 1int } else { 0int })
            &&& rep.total_deposits == old_rep.total_deposits
            &&& rep.successful_refunds == old_rep.successful_refunds
            &&& rep.last_updated == now
            &&& won ==> rep.score == old_rep.score
            &&& !won && old_rep.total_deposits == 0 ==> rep.score == 100
            &&& !won && old_rep.total_deposits > 0 && old_rep.score >= 10 ==> rep.score == old_rep.score - 10
            &&& !won && old_rep.total_deposits > 0 && old_rep.score < 10 ==> rep.score == 0
        }),
{
    let old_rep = l.payment_reps[owner@];
    assert(payment_record_ok(old_rep));
    if old_rep.total_deposits > 0 {
        assert((old_rep.successful_refunds * 100) / (old_rep.total_deposits as int) == 100) by (nonlinear_arith)
            requires
                old_rep.successful_refunds == old_rep.total_deposits,
                old_rep.total_deposits > 0,
        ;
    }
}

/// Recording a refunded deposit raises deposits and refunds by one, keeps
/// the disputes, and (all deposits being refunded) scores 100 less 10 per
/// lost dispute, down to 0.
pub proof fn law_payment_success_changes_score(
    l: TravelLedger,
    next: TravelLedger,
    admin: Address,
    owner: Address,
    now: u64,
)
    requires
        l.inv(),
        l.payment_success_fits(admin, owner),
        l.payment_success_outcome(next, Ok(()), admin, owner, now),
    ensures
        ({
            let old_rep = l.payment_reps[owner@];
            let rep = next.payment_reps[owner@];
            let lost: int = old_rep.disputes - old_rep.dispute_wins;
            &&& rep.total_deposits == old_rep.total_deposits + 1
            &&& rep.successful_refunds == old_rep.successful_refunds + 1
            &&& rep.disputes == old_rep.disputes
            &&& rep.dispute_wins == old_rep.dispute_wins
            &&& rep.last_updated == now
            &&& lost <= 10 ==> rep.score == 100 - 10 * lost
            &&& lost >= 10 ==> rep.score == 0
        }),
{
    let old_rep = l.payment_reps[owner@];
    assert(payment_record_ok(old_rep));
    let d: int = old_rep.total_deposits + 1;
    assert((d * 100) / d == 100) by (nonlinear_arith)
        requires
            d > 0,
    ;
    let mid = l.with_payment_rep(owner@, rescored(deposit_refunded(old_rep), now));
    assert(mid.payment_reps[owner@] == rescored(deposit_refunded(old_rep), now));
}

/// A successful check-in that brings the traveler to 10, 25, 50 or 100
/// check-ins mints a CheckInMilestone badge of that total, titled
/// "Mốc check-in", unless the traveler holds an active one; at any other total no badge is minted.
pub proof fn law_checkin_milestone_badges(
    l: TravelLedger,
    next: TravelLedger,
    id: u64,
    provider: Address,
    traveler: Address,
    place_id: String,
    note: String,
    now: u64,
)
    requires
        l.confirm_checkin_fits(provider, traveler, place_id),
        l.confirm_checkin_outcome(next, Ok(id), provider, traveler, place_id, note, now),
    ensures
        ({
            let t = traveler@;
            let total: int = l.travelers[t].total_checkins + 1;
            let ids = l.badge_ids(t);
            let new_id = (ids.len() + 1) as u32;
            &&& next.travelers[t].total_checkins == total
            &&& (total == 10 || total == 25 || total == 50 || total == 100) && !l.has_active_badge(
                t,
                BadgeType::CheckInMilestone(total as u32),
            ) ==> {
                &&& next.badge_ids(t) == ids.push(new_id)
                &&& next.badges.contains_key((t, new_id))
                &&& next.badges[(t, new_id)].badge_type == BadgeType::CheckInMilestone(total as u32)
                &&& next.badges[(t, new_id)].title@ == "Mốc check-in"@
                &&& next.badges[(t, new_id)].owner == traveler
                &&& next.badges[(t, new_id)].issued_at == now
                &&& !next.badges[(t, new_id)].is_revoked
            }
            &&& !(total == 10 || total == 25 || total == 50 || total == 100) ==> next.badges == l.badges
                && next.owner_badges == l.owner_badges
        }),
{
}

/// Once a traveler has left 20 or more reviews, a successful review mints
/// a TrustedReviewer badge, titled "Người đánh giá uy tín", unless one is
/// held; below 20 none is minted.
pub proof fn law_trusted_reviewer_badge(
    l: TravelLedger,
    next: TravelLedger,
    reviewer: Address,
    provider: Address,
    checkin_id: u64,
    rating: u32,
    comment: String,
    now: u64,
)
    requires
        l.leave_review_fits(reviewer, provider, checkin_id, rating),
        l.leave_review_outcome(next, Ok(()), reviewer, provider, checkin_id, rating, comment, now),
    ensures
        ({
            let t = reviewer@;
            let total: int = l.travelers[t].total_reviews + 1;
            let ids = l.badge_ids(t);
            let new_id = (ids.len() + 1) as u32;
            &&& next.travelers[t].total_reviews == total
            &&& total >= 20 && !l.has_active_badge(t, BadgeType::TrustedReviewer) ==> {
                &&& next.badge_ids(t) == ids.push(new_id)
                &&& next.badges.contains_key((t, new_id))
                &&& next.badges[(t, new_id)].badge_type == BadgeType::TrustedReviewer
                &&& next.badges[(t, new_id)].title@ == "Người đánh giá uy tín"@
                &&& !next.badges[(t, new_id)].is_revoked
            }
            &&& total < 20 ==> next.badges == l.badges && next.owner_badges == l.owner_badges
        }),
{
}

/// A refunded deposit that leaves the owner with 10 or more deposits and
/// no dispute mints a PaymentChampion badge, titled "Thanh toán uy tín",
/// unless one is held; otherwise
/// none is minted.
pub proof fn law_payment_champion_badge(l: TravelLedger, next: TravelLedger, admin: Address, owner: Address, now: u64)
    requires
        l.payment_success_fits(admin, owner),
        l.payment_success_outcome(next, Ok(()), admin, owner, now),
    ensures
        ({
            let t = owner@;
            let old_rep = l.payment_reps[t];
            let ids = l.badge_ids(t);
            let new_id = (ids.len() + 1) as u32;
            let earns = old_rep.disputes == 0 && old_rep.total_deposits + 1 >= 10;
            &&& earns && !l.has_active_badge(t, BadgeType::PaymentChampion) ==> {
                &&& next.badge_ids(t) == ids.push(new_id)
                &&& next.badges.contains_key((t, new_id))
                &&& next.badges[(t, new_id)].badge_type == BadgeType::PaymentChampion
                &&& next.badges[(t, new_id)].title@ == "Thanh toán uy tín"@
                &&& !next.badges[(t, new_id)].is_revoked
            }
            &&& !earns ==> next.badges == l.badges && next.owner_badges == l.owner_badges
        }),
{
}

/// A registered provider reads back field by field as registered:
/// unverified, unrated, stamped with the registration time.
pub proof fn law_register_provider_reads_back(
    l: TravelLedger,
    next: TravelLedger,
    owner: Address,
    business_name: String,
    category: String,
    country_code: String,
    license_number: String,
    now: u64,
)
    requires
        l.register_provider_outcome(next, Ok(()), owner, business_name, category, country_code, license_number, now),
    ensures
        next.providers.contains_key(owner@),
        next.providers[owner@].owner == owner,
        next.providers[owner@].business_name == business_name,
        next.providers[owner@].category == category,
        next.providers[owner@].country_code == country_code,
        next.providers[owner@].license_number == license_number,
        next.providers[owner@].avg_rating == 0,
        next.providers[owner@].total_ratings == 0,
        !next.providers[owner@].is_verified,
        next.providers[owner@].registered_at == now,
{
}

/// A registered place reads back field by field as registered, with no
/// visitors yet.
pub proof fn law_register_place_reads_back(
    l: TravelLedger,
    next: TravelLedger,
    registrar: Address,
    place_id: String,
    name: String,
    country_code: String,
    category: String,
    description: String,
    now: u64,
)
    requires
        l.register_place_outcome(next, Ok(()), registrar, place_id, name, country_code, category, description, now),
    ensures
        next.places.contains_key(place_id@),
        next.places[place_id@].id == place_id,
        next.places[place_id@].name == name,
        next.places[place_id@].country_code == country_code,
        next.places[place_id@].category == category,
        next.places[place_id@].description == description,
        next.places[place_id@].total_visitors == 0,
        next.places[place_id@].avg_rating == 0,
        next.places[place_id@].registered_by == registrar,
        next.places[place_id@].registered_at == now,
{
}

/// A registered traveler reads back field by field as registered.
pub proof fn law_register_traveler_fields(
    l: TravelLedger,
    next: TravelLedger,
    owner: Address,
    display_name: String,
    country_code: String,
    now: u64,
)
    requires
        l.register_traveler_outcome(next, Ok(()), owner, display_name, country_code, now),
    ensures
        next.travelers[owner@].owner == owner,
        next.travelers[owner@].display_name == display_name,
        next.travelers[owner@].country_code == country_code,
        next.travelers[owner@].total_checkins == 0,
        next.travelers[owner@].total_reviews == 0,
        next.travelers[owner@].countries_visited == 0,
        next.travelers[owner@].trust_score == 500,
        next.travelers[owner@].registered_at == now,
        next.payment_reps[owner@].owner == owner,
        next.payment_reps[owner@].total_deposits == 0,
        next.payment_reps[owner@].successful_refunds == 0,
        next.payment_reps[owner@].disputes == 0,
        next.payment_reps[owner@].dispute_wins == 0,
        next.payment_reps[owner@].score == 100,
        next.payment_reps[owner@].last_updated == now,
{
}

/// A stamped check-in reads back with the given traveler, provider and
/// note, the place's id, name and country, the time, and its own id.
pub proof fn law_checkin_reads_back(
    l: TravelLedger,
    next: TravelLedger,
    id: u64,
    provider: Address,
    traveler: Address,
    place_id: String,
    note: String,
    now: u64,
)
    requires
        l.confirm_checkin_fits(provider, traveler, place_id),
        l.confirm_checkin_outcome(next, Ok(id), provider, traveler, place_id, note, now),
    ensures
        id == l.id_count + 1,
        next.checkins.contains_key((traveler@, id)),
        next.checkins[(traveler@, id)].id == id,
        next.checkins[(traveler@, id)].traveler == traveler,
        next.checkins[(traveler@, id)].place_id == place_id,
        next.checkins[(traveler@, id)].place_name == l.places[place_id@].name,
        next.checkins[(traveler@, id)].country_code == l.places[place_id@].country_code,
        next.checkins[(traveler@, id)].confirmed_by == provider,
        next.checkins[(traveler@, id)].visited_at == now,
        next.checkins[(traveler@, id)].note == note,
        next.places[place_id@].total_visitors == l.places[place_id@].total_visitors + 1,
        next.travelers[traveler@].total_checkins == l.travelers[traveler@].total_checkins + 1,
{
}

/// A stored review reads back with the given fields, unflagged, and the
/// provider's average (times 100) is the old sum of ratings plus the new
/// rating times 100, divided by the new count and rounded down.
pub proof fn law_review_reads_back(
    l: TravelLedger,
    next: TravelLedger,
    reviewer: Address,
    provider: Address,
    checkin_id: u64,
    rating: u32,
    comment: String,
    now: u64,
)
    requires
        l.leave_review_fits(reviewer, provider, checkin_id, rating),
        l.leave_review_outcome(next, Ok(()), reviewer, provider, checkin_id, rating, comment, now),
    ensures
        next.reviews.contains_key((reviewer@, provider@)),
        next.reviews[(reviewer@, provider@)].reviewer == reviewer,
        next.reviews[(reviewer@, provider@)].provider == provider,
        next.reviews[(reviewer@, provider@)].checkin_id == checkin_id,
        next.reviews[(reviewer@, provider@)].rating == rating,
        next.reviews[(reviewer@, provider@)].comment == comment,
        next.reviews[(reviewer@, provider@)].reviewed_at == now,
        !next.reviews[(reviewer@, provider@)].is_flagged,
        ({
            let old_p = l.providers[provider@];
            let p = next.providers[provider@];
            let sum: int = old_p.avg_rating * old_p.total_ratings + 100 * rating;
            &&& p.total_ratings == old_p.total_ratings + 1
            &&& p.avg_rating * p.total_ratings <= sum < (p.avg_rating + 1) * p.total_ratings
            &&& old_p.total_ratings == 0 ==> p.avg_rating == 100 * rating
        }),
{
    let old_p = l.providers[provider@];
    let n: int = old_p.total_ratings + 1;
    let sum: int = old_p.avg_rating * old_p.total_ratings + 100 * rating;
    let q: int = sum / n;
    assert(q * n <= sum < (q + 1) * n) by (nonlinear_arith)
        requires
            n > 0,
            q == sum / n,
    ;
    if old_p.total_ratings == 0 {
        assert(sum == 100 * rating);
    }
}

/// A successful check-in raises the traveler's countries visited by one
/// exactly when none of the traveler's earlier check-ins was in the
/// place's country.
pub proof fn law_checkin_counts_new_country(
    l: TravelLedger,
    next: TravelLedger,
    id: u64,
    provider: Address,
    traveler: Address,
    place_id: String,
    note: String,
    now: u64,
)
    requires
        l.inv(),
        l.confirm_checkin_fits(provider, traveler, place_id),
        l.confirm_checkin_outcome(next, Ok(id), provider, traveler, place_id, note, now),
    ensures
        ({
            let t = traveler@;
            let ids = l.checkin_ids(t);
            let code = l.places[place_id@].country_code@;
            let seen = exists|j: int| 0 <= j < ids.len() && #[trigger] l.checkins[(t, ids[j])].country_code@ == code;
            &&& seen ==> next.travelers[t].countries_visited == l.travelers[t].countries_visited
            &&& !seen ==> next.travelers[t].countries_visited == l.travelers[t].countries_visited + 1
        }),
{
    let t = traveler@;
    let ids = l.checkin_ids(t);
    let code = l.places[place_id@].country_code@;
    law_countries_visited(l, t);
    lemma_country_codes_index(l.checkins, t, ids);
    if l.countries_of(t).contains(code) {
        let j = choose|j: int| 0 <= j < l.countries_of(t).len() && l.countries_of(t)[j] == code;
        assert(l.checkins[(t, ids[j])].country_code@ == code);
    }
    if exists|j: int| 0 <= j < ids.len() && #[trigger] l.checkins[(t, ids[j])].country_code@ == code {
        let j = choose|j: int| 0 <= j < ids.len() && #[trigger] l.checkins[(t, ids[j])].country_code@ == code;
        assert(l.countries_of(t)[j] == code);
    }
}

/// A review's rating is accepted from 1 to 5 and refused with
/// InvalidRating otherwise, once the contract is initialized.
pub proof fn law_rating_range(l: TravelLedger, reviewer: Address, provider: Address, checkin_id: u64, rating: u32)
    requires
        l.admin is Some,
    ensures
        (rating == 0 || rating > 5) <==> l.leave_review_error(reviewer, provider, checkin_id, rating) == Some(
            TravelError::InvalidRating,
        ),
{
}

/// Verifying a provider marks it verified, keeps the rest of its profile,
/// and mints it a VerifiedProvider badge titled "Nhà cung cấp đã xác minh".
pub proof fn law_verify_provider_effect(
    l: TravelLedger,
    next: TravelLedger,
    admin: Address,
    provider: Address,
    now: u64,
)
    requires
        l.verify_provider_fits(admin, provider),
        l.verify_provider_outcome(next, Ok(()), admin, provider, now),
    ensures
        ({
            let p = provider@;
            let new_id = (l.badge_ids(p).len() + 1) as u32;
            &&& next.providers[p].is_verified
            &&& next.providers[p] == (ProviderProfile { is_verified: true, ..l.providers[p] })
            &&& next.badge_ids(p) == l.badge_ids(p).push(new_id)
            &&& next.badges.contains_key((p, new_id))
            &&& next.badges[(p, new_id)].badge_type == BadgeType::VerifiedProvider
            &&& next.badges[(p, new_id)].title@ == "Nhà cung cấp đã xác minh"@
            &&& next.badges[(p, new_id)].issued_at == now
            &&& !next.badges[(p, new_id)].is_revoked
        }),
{
}

/// Updating a trust score stores it on the profile and changes nothing else.
pub proof fn law_trust_score_stored(l: TravelLedger, traveler: Seq<char>, score: u32)
    requires
        l.travelers.contains_key(traveler),
    ensures
        l.with_trust_score(traveler, score).travelers[traveler] == (TravelerProfile {
            trust_score: score,
            ..l.travelers[traveler]
        }),
        l.with_trust_score(traveler, score).payment_reps == l.payment_reps,
        l.with_trust_score(traveler, score).badges == l.badges,
{
}

/// Flagging a review sets its flag and keeps its other fields.
pub proof fn law_flag_review_effect(l: TravelLedger, key: (Seq<char>, Seq<char>))
    requires
        l.reviews.contains_key(key),
    ensures
        l.with_flagged_review(key).reviews[key].is_flagged,
        l.with_flagged_review(key).reviews[key] == (ReviewRecord {
            is_flagged: true,
            ..l.reviews[key]
        }),
        l.with_flagged_review(key).providers == l.providers,
{
}

} // verus!
