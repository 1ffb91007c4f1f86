use travel_id::{
    compute_payment_score, compute_trust_score, payment_score_within_limits, Address, BadgeType,
    PaymentReputation, TravelError, TravelIDContract,
};

fn addr(s: &str) -> Address {
    Address::from_strkey(String::from(s))
}

fn text(s: &str) -> String {
    String::from(s)
}

fn setup() -> (TravelIDContract, Address) {
    let mut c = TravelIDContract::new();
    let admin = addr("GADMIN");
    c.initialize(admin.clone()).unwrap();
    (c, admin)
}

/// An initialized ledger with a traveler, a verified provider and a place.
fn world() -> (TravelIDContract, Address, Address, Address) {
    let (mut c, admin) = setup();
    let t = addr("GTRAVELER");
    let p = addr("GPROVIDER");
    c.register_traveler(t.clone(), text("T"), text("VN"), 1).unwrap();
    c.register_provider(p.clone(), text("P"), text("tour"), text("VN"), text("LIC"), 2).unwrap();
    c.verify_provider(admin.clone(), p.clone(), 3).unwrap();
    c.register_place(admin.clone(), text("hoi-an-001"), text("Hoi An"), text("VN"), text("city"), text("old town"), 4)
        .unwrap();
    (c, admin, t, p)
}

fn rep(deposits: u32, refunds: u32, disputes: u32, wins: u32) -> PaymentReputation {
    PaymentReputation {
        owner: addr("GREP"),
        total_deposits: deposits,
        successful_refunds: refunds,
        disputes,
        dispute_wins: wins,
        score: 0,
        last_updated: 0,
    }
}

#[test]
fn initialize_only_once() {
    let (mut c, _) = setup();
    assert_eq!(c.initialize(addr("GOTHER")), Err(TravelError::AlreadyInitialized));
    assert_eq!(c.get_admin().unwrap().strkey(), "GADMIN");
}

#[test]
fn uninitialized_ledger_refuses() {
    let mut c = TravelIDContract::new();
    assert_eq!(c.get_admin().map(|a| a.strkey().clone()), Err(TravelError::NotInitialized));
    assert_eq!(c.register_traveler(addr("GT"), text("T"), text("VN"), 0), Err(TravelError::NotInitialized));
    assert_eq!(
        c.register_provider(addr("GP"), text("P"), text("tour"), text("VN"), text("L"), 0),
        Err(TravelError::NotInitialized)
    );
    assert_eq!(
        c.register_place(addr("GP"), text("x"), text("X"), text("VN"), text("city"), text("d"), 0),
        Err(TravelError::NotInitialized)
    );
    assert_eq!(c.transfer_admin(addr("GA"), addr("GB")), Err(TravelError::NotInitialized));
    assert_eq!(c.update_trust_score(addr("GT")), Err(TravelError::ProfileNotFound));
}

#[test]
fn traveler_reads_back_as_registered() {
    let (mut c, _) = setup();
    let t = addr("GTRAVELER");
    c.register_traveler(t.clone(), text("Nguyen Van A"), text("VN"), 42).unwrap();
    let p = c.get_traveler(t.clone()).unwrap();
    assert_eq!(p.owner.strkey(), "GTRAVELER");
    assert_eq!(p.display_name, "Nguyen Van A");
    assert_eq!(p.country_code, "VN");
    assert_eq!((p.total_checkins, p.total_reviews, p.countries_visited, p.trust_score), (0, 0, 0, 500));
    assert_eq!(p.registered_at, 42);
    let r = c.get_payment_rep(t.clone()).unwrap();
    assert_eq!((r.total_deposits, r.successful_refunds, r.disputes, r.dispute_wins, r.score), (0, 0, 0, 0, 100));
    assert_eq!(r.last_updated, 42);
    assert_eq!(
        c.register_traveler(t, text("Again"), text("US"), 43),
        Err(TravelError::ProfileAlreadyExists)
    );
}

#[test]
fn lookups_of_missing_records() {
    let (c, _, t, p) = world();
    assert_eq!(c.get_traveler(addr("GNOBODY")).map(|_| ()), Err(TravelError::ProfileNotFound));
    assert_eq!(c.get_provider(addr("GNOBODY")).map(|_| ()), Err(TravelError::ProfileNotFound));
    assert_eq!(c.get_place(text("nowhere")).map(|_| ()), Err(TravelError::PlaceNotFound));
    assert_eq!(c.get_checkin(t.clone(), 1).map(|_| ()), Err(TravelError::CheckInNotFound));
    assert_eq!(c.get_review(t.clone(), p.clone()).map(|_| ()), Err(TravelError::ReviewNotFound));
    assert_eq!(c.get_badge(t.clone(), 1).map(|_| ()), Err(TravelError::BadgeNotFound));
    assert_eq!(c.get_payment_rep(p.clone()).map(|_| ()), Err(TravelError::ProfileNotFound));
    assert!(c.list_checkins(t.clone()).is_empty());
    assert!(c.list_badges(t).is_empty());
    assert!(c.list_provider_reviewers(p).is_empty());
    assert!(c.get_place_visitors(text("hoi-an-001")).is_empty());
}

#[test]
fn provider_and_place_registered_once() {
    let (mut c, admin, _, p) = world();
    assert_eq!(
        c.register_provider(p.clone(), text("P2"), text("hotel"), text("VN"), text("L2"), 9),
        Err(TravelError::ProfileAlreadyExists)
    );
    assert_eq!(
        c.register_place(admin, text("hoi-an-001"), text("X"), text("VN"), text("city"), text("d"), 9),
        Err(TravelError::InvalidInput)
    );
    let place = c.get_place(text("hoi-an-001")).unwrap();
    assert_eq!(place.name, "Hoi An");
    assert_eq!((place.total_visitors, place.avg_rating, place.registered_at), (0, 0, 4));
    let prov = c.get_provider(p).unwrap();
    assert_eq!(prov.business_name, "P");
    assert!(prov.is_verified);
    assert_eq!((prov.avg_rating, prov.total_ratings), (0, 0));
}

#[test]
fn verification_is_admin_only_and_mints_a_badge() {
    let (mut c, admin) = setup();
    let p = addr("GPROVIDER");
    assert_eq!(c.verify_provider(admin.clone(), p.clone(), 5), Err(TravelError::ProfileNotFound));
    c.register_provider(p.clone(), text("P"), text("guide"), text("VN"), text("L"), 1).unwrap();
    assert!(c.verify_provider_fits(&admin, &p));
    assert_eq!(c.verify_provider(addr("GINTRUDER"), p.clone(), 5), Err(TravelError::Unauthorized));
    assert!(!c.get_provider(p.clone()).unwrap().is_verified);
    c.verify_provider(admin.clone(), p.clone(), 5).unwrap();
    assert!(c.get_provider(p.clone()).unwrap().is_verified);
    assert_eq!(c.list_badges(p.clone()), vec![1]);
    let b = c.get_badge(p.clone(), 1).unwrap();
    assert_eq!(b.badge_type, BadgeType::VerifiedProvider);
    assert_eq!(b.title, "Nhà cung cấp đã xác minh");
    assert_eq!((b.id, b.issued_at, b.is_revoked), (1, 5, false));
    assert_eq!(b.owner.strkey(), "GPROVIDER");
    // Verifying again mints another badge under the next id.
    c.verify_provider(admin, p.clone(), 6).unwrap();
    assert_eq!(c.list_badges(p), vec![1, 2]);
}

#[test]
fn checkin_errors_in_order() {
    let (mut c, admin, t, p) = world();
    let place = text("hoi-an-001");
    assert_eq!(
        c.confirm_checkin(addr("GNOBODY"), t.clone(), place.clone(), text(""), 0),
        Err(TravelError::ProfileNotFound)
    );
    let q = addr("GUNVERIFIED");
    c.register_provider(q.clone(), text("Q"), text("tour"), text("VN"), text("L"), 0).unwrap();
    assert_eq!(
        c.confirm_checkin(q, t.clone(), place.clone(), text(""), 0),
        Err(TravelError::ProviderNotVerified)
    );
    assert_eq!(
        c.confirm_checkin(p.clone(), addr("GNOBODY"), place.clone(), text(""), 0),
        Err(TravelError::ProfileNotFound)
    );
    assert_eq!(
        c.confirm_checkin(p.clone(), t.clone(), text("nowhere"), text(""), 0),
        Err(TravelError::PlaceNotFound)
    );
    // Refused requests changed nothing: the first stamped visit still gets id 1.
    assert!(c.list_checkins(t.clone()).is_empty());
    assert_eq!(c.confirm_checkin(p, t, place, text(""), 0), Ok(1));
    let _ = admin;
}

#[test]
fn checkins_are_numbered_and_recorded() {
    let (mut c, _, t, p) = world();
    let place = text("hoi-an-001");
    assert!(c.confirm_checkin_fits(&p, &t, &place));
    assert_eq!(c.confirm_checkin(p.clone(), t.clone(), place.clone(), text("great"), 10), Ok(1));
    assert_eq!(c.confirm_checkin(p.clone(), t.clone(), place.clone(), text("again"), 11), Ok(2));
    assert_eq!(c.list_checkins(t.clone()), vec![1, 2]);
    let rec = c.get_checkin(t.clone(), 2).unwrap();
    assert_eq!(rec.id, 2);
    assert_eq!(rec.traveler.strkey(), "GTRAVELER");
    assert_eq!(rec.place_id, "hoi-an-001");
    assert_eq!(rec.place_name, "Hoi An");
    assert_eq!(rec.country_code, "VN");
    assert_eq!(rec.confirmed_by.strkey(), "GPROVIDER");
    assert_eq!(rec.visited_at, 11);
    assert_eq!(rec.note, "again");
    let visitors: Vec<String> = c.get_place_visitors(place.clone()).iter().map(|a| a.strkey().clone()).collect();
    assert_eq!(visitors, vec![text("GTRAVELER"), text("GTRAVELER")]);
    assert_eq!(c.get_place(place).unwrap().total_visitors, 2);
    assert_eq!(c.get_traveler(t).unwrap().total_checkins, 2);
}

#[test]
fn milestone_badge_at_ten_checkins() {
    let (mut c, _, t, p) = world();
    for i in 1..=9u64 {
        assert_eq!(c.confirm_checkin(p.clone(), t.clone(), text("hoi-an-001"), text(""), i), Ok(i));
    }
    assert!(c.list_badges(t.clone()).is_empty());
    assert_eq!(c.confirm_checkin(p.clone(), t.clone(), text("hoi-an-001"), text(""), 10), Ok(10));
    assert_eq!(c.list_badges(t.clone()), vec![1]);
    let b = c.get_badge(t.clone(), 1).unwrap();
    assert_eq!(b.badge_type, BadgeType::CheckInMilestone(10));
    assert_eq!(b.title, "Mốc check-in");
    assert_eq!(b.issued_at, 10);
    assert_eq!(c.confirm_checkin(p, t.clone(), text("hoi-an-001"), text(""), 11), Ok(11));
    assert_eq!(c.list_badges(t), vec![1]);
}

#[test]
fn review_errors_in_order() {
    let (mut c, admin, t, p) = world();
    let other = addr("GOTHERPROV");
    c.register_provider(other.clone(), text("O"), text("hotel"), text("VN"), text("L"), 0).unwrap();
    c.verify_provider(admin, other.clone(), 0).unwrap();
    c.confirm_checkin(p.clone(), t.clone(), text("hoi-an-001"), text(""), 0).unwrap();
    assert_eq!(c.leave_review(t.clone(), p.clone(), 1, 0, text("x"), 0), Err(TravelError::InvalidRating));
    assert_eq!(c.leave_review(t.clone(), p.clone(), 1, 6, text("x"), 0), Err(TravelError::InvalidRating));
    assert_eq!(
        c.leave_review(addr("GNOBODY"), p.clone(), 1, 5, text("x"), 0),
        Err(TravelError::ProfileNotFound)
    );
    assert_eq!(c.leave_review(t.clone(), p.clone(), 7, 5, text("x"), 0), Err(TravelError::CheckInNotFound));
    assert_eq!(
        c.leave_review(t.clone(), other.clone(), 1, 5, text("x"), 0),
        Err(TravelError::CheckInNotConfirmed)
    );
    assert!(c.list_provider_reviewers(p.clone()).is_empty());
    assert!(c.leave_review_fits(&t, &p, 1, 4));
    c.leave_review(t.clone(), p.clone(), 1, 4, text("nice"), 20).unwrap();
    assert_eq!(c.leave_review(t.clone(), p.clone(), 1, 5, text("again"), 21), Err(TravelError::ReviewAlreadyExists));
}

#[test]
fn review_updates_averages_and_lists() {
    let (mut c, admin, t, p) = world();
    let u = addr("GSECOND");
    c.register_traveler(u.clone(), text("U"), text("FR"), 0).unwrap();
    c.confirm_checkin(p.clone(), t.clone(), text("hoi-an-001"), text(""), 0).unwrap();
    c.confirm_checkin(p.clone(), u.clone(), text("hoi-an-001"), text(""), 0).unwrap();
    c.leave_review(t.clone(), p.clone(), 1, 4, text("good"), 30).unwrap();
    let prov = c.get_provider(p.clone()).unwrap();
    assert_eq!((prov.avg_rating, prov.total_ratings), (400, 1));
    c.leave_review(u.clone(), p.clone(), 2, 5, text("great"), 31).unwrap();
    let prov = c.get_provider(p.clone()).unwrap();
    assert_eq!((prov.avg_rating, prov.total_ratings), (450, 2));
    let rv = c.get_review(t.clone(), p.clone()).unwrap();
    assert_eq!((rv.checkin_id, rv.rating, rv.reviewed_at, rv.is_flagged), (1, 4, 30, false));
    assert_eq!(rv.comment, "good");
    let reviewers: Vec<String> = c.list_provider_reviewers(p.clone()).iter().map(|a| a.strkey().clone()).collect();
    assert_eq!(reviewers, vec![text("GTRAVELER"), text("GSECOND")]);
    assert_eq!(c.get_traveler(t.clone()).unwrap().total_reviews, 1);

    assert_eq!(c.flag_review(addr("GINTRUDER"), t.clone(), p.clone()), Err(TravelError::Unauthorized));
    assert_eq!(c.flag_review(admin.clone(), p.clone(), t.clone()), Err(TravelError::ReviewNotFound));
    c.flag_review(admin, t.clone(), p.clone()).unwrap();
    assert!(c.get_review(t, p).unwrap().is_flagged);
}

#[test]
fn trusted_reviewer_badge_at_twenty_reviews() {
    let (mut c, admin, t, _) = world();
    for i in 0..20u64 {
        let p = addr(&format!("GPROV{}", i));
        c.register_provider(p.clone(), text("P"), text("tour"), text("VN"), text("L"), 0).unwrap();
        c.verify_provider(admin.clone(), p.clone(), 0).unwrap();
        let id = c.confirm_checkin(p.clone(), t.clone(), text("hoi-an-001"), text(""), 0).unwrap();
        assert_eq!(id, i + 1);
        c.leave_review(t.clone(), p, id, 5, text("ok"), 100 + i).unwrap();
    }
    // The 10th check-in minted the milestone badge, the 20th review the TrustedReviewer badge.
    assert_eq!(c.list_badges(t.clone()), vec![1, 2]);
    let b = c.get_badge(t.clone(), 2).unwrap();
    assert_eq!(b.badge_type, BadgeType::TrustedReviewer);
    assert_eq!(b.title, "Người đánh giá uy tín");
    assert_eq!(b.issued_at, 119);
    assert_eq!(c.get_traveler(t).unwrap().total_reviews, 20);
}

#[test]
fn payment_champion_badge_and_revocation() {
    let (mut c, admin, t, _) = world();
    for i in 0..9u64 {
        c.record_payment_success(admin.clone(), t.clone(), i).unwrap();
    }
    assert!(c.list_badges(t.clone()).is_empty());
    assert!(c.payment_success_fits(&admin, &t));
    c.record_payment_success(admin.clone(), t.clone(), 9).unwrap();
    assert_eq!(c.list_badges(t.clone()), vec![1]);
    let b = c.get_badge(t.clone(), 1).unwrap();
    assert_eq!(b.badge_type, BadgeType::PaymentChampion);
    assert_eq!(b.title, "Thanh toán uy tín");
    // An active champion badge is not minted twice.
    c.record_payment_success(admin.clone(), t.clone(), 10).unwrap();
    assert_eq!(c.list_badges(t.clone()), vec![1]);
    // Revocation is admin only; a revoked badge stays, flagged, and a new one can be earned.
    assert_eq!(c.revoke_badge(addr("GINTRUDER"), t.clone(), 1), Err(TravelError::Unauthorized));
    assert_eq!(c.revoke_badge(admin.clone(), t.clone(), 9), Err(TravelError::BadgeNotFound));
    c.revoke_badge(admin.clone(), t.clone(), 1).unwrap();
    assert!(c.get_badge(t.clone(), 1).unwrap().is_revoked);
    c.record_payment_success(admin.clone(), t.clone(), 11).unwrap();
    assert_eq!(c.list_badges(t.clone()), vec![1, 2]);
    assert!(!c.get_badge(t.clone(), 2).unwrap().is_revoked);
    let rep = c.get_payment_rep(t).unwrap();
    assert_eq!((rep.total_deposits, rep.successful_refunds, rep.score, rep.last_updated), (12, 12, 100, 11));
}

#[test]
fn disputes_lower_the_payment_score() {
    let (mut c, admin, t, _) = world();
    assert_eq!(c.record_dispute(addr("GINTRUDER"), t.clone(), false, 0), Err(TravelError::Unauthorized));
    assert_eq!(c.record_dispute(admin.clone(), addr("GNOBODY"), false, 0), Err(TravelError::ProfileNotFound));
    assert_eq!(c.record_payment_success(admin.clone(), addr("GNOBODY"), 0), Err(TravelError::ProfileNotFound));
    // With no deposits the score stays 100.
    assert!(c.dispute_fits(&admin, &t, false));
    c.record_dispute(admin.clone(), t.clone(), false, 5).unwrap();
    assert_eq!(c.get_payment_rep(t.clone()).unwrap().score, 100);
    c.record_payment_success(admin.clone(), t.clone(), 6).unwrap();
    // 100% refunded, one dispute lost: 100 - 10.
    assert_eq!(c.get_payment_rep(t.clone()).unwrap().score, 90);
    c.record_dispute(admin.clone(), t.clone(), true, 7).unwrap();
    let rep = c.get_payment_rep(t.clone()).unwrap();
    assert_eq!((rep.disputes, rep.dispute_wins, rep.score, rep.last_updated), (2, 1, 90, 7));
    c.record_dispute(admin, t.clone(), false, 8).unwrap();
    assert_eq!(c.get_payment_rep(t).unwrap().score, 80);
}

#[test]
fn payment_score_formula() {
    assert_eq!(compute_payment_score(&rep(0, 0, 5, 0)), 100);
    assert_eq!(compute_payment_score(&rep(4, 3, 2, 0)), 55);
    assert_eq!(compute_payment_score(&rep(4, 1, 5, 1)), 0);
    assert_eq!(compute_payment_score(&rep(3, 3, 1, 3)), 100);
    assert!(payment_score_within_limits(&rep(4, 3, 2, 0)));
    assert!(!payment_score_within_limits(&rep(50_000_000, 50_000_000, 0, 0)));
    assert!(!payment_score_within_limits(&rep(1, 1, 500_000_000, 0)));
    assert!(payment_score_within_limits(&rep(0, 50_000_000, 0, 0)));
}

#[test]
fn trust_score_formula() {
    assert_eq!(compute_trust_score(1, 0, 100), 304);
    assert_eq!(compute_trust_score(3, 2, 55), 197);
    assert_eq!(compute_trust_score(200, 50, 100), 1000);
    assert_eq!(compute_trust_score(0, 0, 0), 0);
}

#[test]
fn trust_score_counts_reviews_and_payments() {
    let (mut c, admin, t, p) = world();
    c.confirm_checkin(p.clone(), t.clone(), text("hoi-an-001"), text(""), 0).unwrap();
    c.leave_review(t.clone(), p, 1, 3, text("ok"), 0).unwrap();
    c.record_dispute(admin.clone(), t.clone(), false, 0).unwrap();
    c.record_payment_success(admin, t.clone(), 0).unwrap();
    assert!(c.trust_score_fits(&t));
    // 4 + 10 + 90 * 3
    assert_eq!(c.update_trust_score(t.clone()), Ok(284));
    assert_eq!(c.get_traveler(t).unwrap().trust_score, 284);
}

#[test]
fn admin_transfer() {
    let (mut c, admin) = setup();
    let next = addr("GNEXT");
    assert_eq!(c.transfer_admin(addr("GINTRUDER"), next.clone()), Err(TravelError::Unauthorized));
    c.transfer_admin(admin.clone(), next.clone()).unwrap();
    assert_eq!(c.get_admin().unwrap().strkey(), "GNEXT");
    assert_eq!(c.transfer_admin(admin, next), Err(TravelError::Unauthorized));
}

#[test]
fn countries_visited_counts_distinct_country_codes() {
    let (mut c, admin, t, p) = world();
    c.register_place(admin.clone(), text("hue-001"), text("Hue"), text("VN"), text("city"), text("citadel"), 5)
        .unwrap();
    c.register_place(admin.clone(), text("bkk-001"), text("Bangkok"), text("TH"), text("city"), text("temples"), 6)
        .unwrap();
    assert_eq!(c.get_traveler(t.clone()).unwrap().countries_visited, 0);
    c.confirm_checkin(p.clone(), t.clone(), text("hoi-an-001"), text(""), 7).unwrap();
    assert_eq!(c.get_traveler(t.clone()).unwrap().countries_visited, 1);
    // A second place in the same country adds no country.
    c.confirm_checkin(p.clone(), t.clone(), text("hue-001"), text(""), 8).unwrap();
    assert_eq!(c.get_traveler(t.clone()).unwrap().countries_visited, 1);
    c.confirm_checkin(p.clone(), t.clone(), text("bkk-001"), text(""), 9).unwrap();
    assert_eq!(c.get_traveler(t.clone()).unwrap().countries_visited, 2);
    c.confirm_checkin(p.clone(), t.clone(), text("hoi-an-001"), text(""), 10).unwrap();
    let profile = c.get_traveler(t.clone()).unwrap();
    assert_eq!((profile.total_checkins, profile.countries_visited), (4, 2));
    // A refused check-in changes nothing.
    assert_eq!(
        c.confirm_checkin(p, t.clone(), text("nowhere"), text(""), 11),
        Err(TravelError::PlaceNotFound)
    );
    assert_eq!(c.get_traveler(t).unwrap().countries_visited, 2);
}

#[test]
fn checkin_ids_are_shared_across_travelers() {
    let (mut c, _, t, p) = world();
    let u = addr("GSECOND");
    c.register_traveler(u.clone(), text("U"), text("TH"), 5).unwrap();
    assert_eq!(c.confirm_checkin(p.clone(), t.clone(), text("hoi-an-001"), text(""), 6), Ok(1));
    assert_eq!(c.confirm_checkin(p.clone(), u.clone(), text("missing"), text(""), 7), Err(TravelError::PlaceNotFound));
    assert_eq!(c.confirm_checkin(p.clone(), u.clone(), text("hoi-an-001"), text(""), 8), Ok(2));
    assert_eq!(c.confirm_checkin(p, t.clone(), text("hoi-an-001"), text(""), 9), Ok(3));
    assert_eq!(c.list_checkins(t.clone()), vec![1, 3]);
    assert_eq!(c.list_checkins(u.clone()), vec![2]);
    assert_eq!(c.get_checkin(t, 2).map(|r| r.id), Err(TravelError::CheckInNotFound));
    assert_eq!(c.get_checkin(u, 2).unwrap().id, 2);
}

#[test]
fn trust_score_update_repeats() {
    let (mut c, admin, t, p) = world();
    c.confirm_checkin(p.clone(), t.clone(), text("hoi-an-001"), text(""), 5).unwrap();
    c.record_dispute(admin, t.clone(), false, 6).unwrap();
    let first = c.update_trust_score(t.clone());
    let profile = c.get_traveler(t.clone()).unwrap();
    assert_eq!(c.update_trust_score(t.clone()), first);
    let again = c.get_traveler(t).unwrap();
    assert_eq!(again.trust_score, profile.trust_score);
    assert_eq!(again.total_checkins, profile.total_checkins);
}

#[test]
fn flagged_review_and_revoked_badge_stay_stored() {
    let (mut c, admin, t, p) = world();
    c.confirm_checkin(p.clone(), t.clone(), text("hoi-an-001"), text(""), 5).unwrap();
    c.leave_review(t.clone(), p.clone(), 1, 4, text("good"), 6).unwrap();
    c.flag_review(admin.clone(), t.clone(), p.clone()).unwrap();
    let r = c.get_review(t.clone(), p.clone()).unwrap();
    assert!(r.is_flagged);
    assert_eq!((r.rating, r.checkin_id, r.reviewed_at), (4, 1, 6));
    // A second review of the same provider is refused, flagged or not.
    c.confirm_checkin(p.clone(), t.clone(), text("hoi-an-001"), text(""), 7).unwrap();
    assert_eq!(c.leave_review(t.clone(), p.clone(), 2, 5, text("again"), 8), Err(TravelError::ReviewAlreadyExists));
    let reviewers: Vec<String> = c.list_provider_reviewers(p.clone()).iter().map(|a| a.strkey().clone()).collect();
    assert_eq!(reviewers, vec![text("GTRAVELER")]);
    // The provider's verification badge is revoked but kept.
    let b = c.get_badge(p.clone(), 1).unwrap();
    assert_eq!(b.badge_type, BadgeType::VerifiedProvider);
    c.revoke_badge(admin, p.clone(), 1).unwrap();
    let revoked = c.get_badge(p.clone(), 1).unwrap();
    assert!(revoked.is_revoked);
    assert_eq!((revoked.id, revoked.issued_at, revoked.title), (b.id, b.issued_at, b.title));
    assert_eq!(c.list_badges(p), vec![1]);
}

#[test]
fn lists_follow_successful_requests_in_order() {
    let (mut c, _, t, p) = world();
    let u = addr("GSECOND");
    c.register_traveler(u.clone(), text("U"), text("TH"), 5).unwrap();
    c.confirm_checkin(p.clone(), u.clone(), text("hoi-an-001"), text(""), 6).unwrap();
    assert_eq!(c.confirm_checkin(p.clone(), t.clone(), text("nowhere"), text(""), 7), Err(TravelError::PlaceNotFound));
    c.confirm_checkin(p.clone(), t.clone(), text("hoi-an-001"), text(""), 8).unwrap();
    c.confirm_checkin(p.clone(), u.clone(), text("hoi-an-001"), text(""), 9).unwrap();
    let visitors: Vec<String> =
        c.get_place_visitors(text("hoi-an-001")).iter().map(|a| a.strkey().clone()).collect();
    assert_eq!(visitors, vec![text("GSECOND"), text("GTRAVELER"), text("GSECOND")]);
    assert!(c.get_place_visitors(text("nowhere")).is_empty());
    // Check-in 2 belongs to t; a review by u citing it is refused and lists nothing.
    assert_eq!(c.leave_review(u.clone(), p.clone(), 2, 4, text("x"), 10), Err(TravelError::CheckInNotFound));
    c.leave_review(t.clone(), p.clone(), 2, 4, text("ok"), 11).unwrap();
    c.leave_review(u.clone(), p.clone(), 1, 5, text("fine"), 12).unwrap();
    let authors: Vec<String> = c.list_provider_reviewers(p).iter().map(|a| a.strkey().clone()).collect();
    assert_eq!(authors, vec![text("GTRAVELER"), text("GSECOND")]);
}
