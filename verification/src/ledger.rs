//! The ledger's contents as mathematical maps: what each operation does to
//! them, and what every reachable ledger keeps.

use vstd::prelude::*;
use crate::score::{payment_score, payment_score_fits, trust_score};
use crate::types::{
    Address, BadgeRecord, BadgeType, CheckInRecord, PaymentReputation, PlaceInfo, ProviderProfile,
    ReviewRecord, TravelError, TravelerProfile,
};

verus! {

/// The ledger, with every table keyed by the views of its keys.
pub struct TravelLedger {
    pub admin: Option<Address>,
    /// The last check-in id handed out (0 before the first).
    pub id_count: u64,
    pub travelers: Map<Seq<char>, TravelerProfile>,
    pub providers: Map<Seq<char>, ProviderProfile>,
    /// Keyed by traveler and check-in id.
    pub checkins: Map<(Seq<char>, u64), CheckInRecord>,
    /// Check-in ids of each traveler, in the order they were confirmed.
    pub traveler_checkins: Map<Seq<char>, Seq<u64>>,
    /// Travelers checked in at each place, in order.
    pub place_visitors: Map<Seq<char>, Seq<Address>>,
    /// Keyed by author and provider.
    pub reviews: Map<(Seq<char>, Seq<char>), ReviewRecord>,
    /// Authors of reviews of each provider, in order.
    pub provider_reviewers: Map<Seq<char>, Seq<Address>>,
    /// Keyed by owner and badge id.
    pub badges: Map<(Seq<char>, u32), BadgeRecord>,
    /// Badge ids of each owner, in the order they were minted.
    pub owner_badges: Map<Seq<char>, Seq<u32>>,
    pub payment_reps: Map<Seq<char>, PaymentReputation>,
    pub places: Map<Seq<char>, PlaceInfo>,
}

/// The list stored under `k`, or the empty list.
pub open spec fn list_at<T>(m: Map<Seq<char>, Seq<T>>, k: Seq<char>) -> Seq<T> {
    if m.contains_key(k) {
        m[k]
    } else {
        Seq::empty()
    }
}

/// A freshly registered traveler.
pub open spec fn new_traveler(owner: Address, display_name: String, country_code: String, now: u64) -> TravelerProfile {
    TravelerProfile {
        owner,
        display_name,
        country_code,
        total_checkins: 0,
        total_reviews: 0,
        countries_visited: 0,
        trust_score: 500,
        registered_at: now,
    }
}

/// The payment reputation every traveler starts with.
pub open spec fn new_payment_reputation(owner: Address, now: u64) -> PaymentReputation {
    PaymentReputation {
        owner,
        total_deposits: 0,
        successful_refunds: 0,
        disputes: 0,
        dispute_wins: 0,
        score: 100,
        last_updated: now,
    }
}

/// A freshly registered, not yet verified provider.
pub open spec fn new_provider(
    owner: Address,
    business_name: String,
    category: String,
    country_code: String,
    license_number: String,
    now: u64,
) -> ProviderProfile {
    ProviderProfile {
        owner,
        business_name,
        category,
        country_code,
        license_number,
        avg_rating: 0,
        total_ratings: 0,
        is_verified: false,
        registered_at: now,
    }
}

/// A freshly registered place, with no visitors yet.
pub open spec fn new_place(
    registrar: Address,
    place_id: String,
    name: String,
    country_code: String,
    category: String,
    description: String,
    now: u64,
) -> PlaceInfo {
    PlaceInfo {
        id: place_id,
        name,
        country_code,
        category,
        description,
        total_visitors: 0,
        avg_rating: 0,
        registered_by: registrar,
        registered_at: now,
    }
}

/// The check-in totals at which a milestone badge is awarded.
pub open spec fn is_checkin_milestone(total: u32) -> bool {
    total == 10 || total == 25 || total == 50 || total == 100
}

/// The country codes of the check-ins `ids` of `traveler`, in order.
pub open spec fn country_codes(
    checkins: Map<(Seq<char>, u64), CheckInRecord>,
    traveler: Seq<char>,
    ids: Seq<u64>,
) -> Seq<Seq<char>>
    decreases ids.len(),
{
    if ids.len() == 0 {
        Seq::empty()
    } else {
        country_codes(checkins, traveler, ids.drop_last()).push(checkins[(traveler, ids.last())].country_code@)
    }
}

/// The badges of each owner are numbered 1, 2, ... in minting order, and
/// each is stored under its owner and id.
pub open spec fn badges_numbered_in(
    owner_badges: Map<Seq<char>, Seq<u32>>,
    badges: Map<(Seq<char>, u32), BadgeRecord>,
) -> bool {
    &&& forall|o: Seq<char>, i: int|
        owner_badges.contains_key(o) && 0 <= i < owner_badges[o].len() ==> {
            &&& #[trigger] owner_badges[o][i] == i + 1
            &&& badges.contains_key((o, (i + 1) as u32))
        }
    &&& forall|k: (Seq<char>, u32)| #[trigger]
        badges.contains_key(k) ==> {
            &&& 1 <= k.1 <= list_at(owner_badges, k.0).len()
            &&& badges[k].id == k.1
            &&& badges[k].owner@ == k.0
        }
}

/// `b` is the review `a`, perhaps flagged since; a flag is never lifted.
pub open spec fn review_kept(a: ReviewRecord, b: ReviewRecord) -> bool {
    &&& b == (ReviewRecord { is_flagged: b.is_flagged, ..a })
    &&& a.is_flagged ==> b.is_flagged
}

/// `b` is the badge `a`, perhaps revoked since; a revocation is never lifted.
pub open spec fn badge_kept(a: BadgeRecord, b: BadgeRecord) -> bool {
    &&& b == (BadgeRecord { is_revoked: b.is_revoked, ..a })
    &&& a.is_revoked ==> b.is_revoked
}

/// Every list of `m1` is a prefix of the list under the same key in `m2`.
pub open spec fn lists_kept<T>(m1: Map<Seq<char>, Seq<T>>, m2: Map<Seq<char>, Seq<T>>) -> bool {
    forall|k: Seq<char>| #[trigger] m1.contains_key(k) ==> m1[k].is_prefix_of(list_at(m2, k))
}

/// Some entry of `list` is the address `a`.
pub open spec fn names(list: Seq<Address>, a: Seq<char>) -> bool {
    exists|i: int| 0 <= i < list.len() && #[trigger] list[i]@ == a
}

/// `traveler` has a check-in at `place`.
pub open spec fn visited(checkins: Map<(Seq<char>, u64), CheckInRecord>, traveler: Seq<char>, place: Seq<char>) -> bool {
    exists|id: u64| #[trigger] checkins.contains_key((traveler, id)) && checkins[(traveler, id)].place_id@ == place
}

/// Every entry of each visitor list is a traveler with a check-in at that place.
pub open spec fn visitors_sound(
    place_visitors: Map<Seq<char>, Seq<Address>>,
    checkins: Map<(Seq<char>, u64), CheckInRecord>,
) -> bool {
    forall|p: Seq<char>, i: int|
        #![trigger place_visitors[p][i]]
        place_visitors.contains_key(p) && 0 <= i < place_visitors[p].len() ==> visited(checkins, place_visitors[p][i]@, p)
}

/// The number of distinct entries of `s`.
pub open spec fn distinct_count(s: Seq<Seq<char>>) -> nat
    decreases s.len(),
{
    if s.len() == 0 {
        0
    } else {
        distinct_count(s.drop_last()) + if s.drop_last().contains(s.last()) {
            0nat
        } else {
            1nat
        }
    }
}

/// A payment record whose refunds match its deposits, whose won disputes
/// are among its disputes, and whose score is computed from its counters.
pub open spec fn payment_record_ok(rep: PaymentReputation) -> bool {
    &&& rep.successful_refunds == rep.total_deposits
    &&& rep.dispute_wins <= rep.disputes
    &&& rep.score == payment_score(rep)
}

/// Rating average (times 100) of a provider after one more rating.
pub open spec fn rolled_average(avg: u32, count: u32, rating: u32) -> int {
    (avg * count + rating * 100) / (count + 1)
}

/// A reputation after one more deposit that was refunded; score not yet updated.
pub open spec fn deposit_refunded(rep: PaymentReputation) -> PaymentReputation {
    PaymentReputation {
        total_deposits: (rep.total_deposits + 1) as u32,
        successful_refunds: (rep.successful_refunds + 1) as u32,
        ..rep
    }
}

/// A reputation after one more dispute, won or lost; score not yet updated.
pub open spec fn dispute_recorded(rep: PaymentReputation, won: bool) -> PaymentReputation {
    PaymentReputation {
        disputes: (rep.disputes + 1) as u32,
        dispute_wins: if won {
            (rep.dispute_wins + 1) as u32
        } else {
            rep.dispute_wins
        },
        ..rep
    }
}

/// A raised reputation with its score recomputed, as updated at `now`.
pub open spec fn rescored(rep: PaymentReputation, now: u64) -> PaymentReputation {
    PaymentReputation { score: payment_score(rep) as u32, last_updated: now, ..rep }
}

impl TravelLedger {
    /// The ledger before `initialize`.
    pub open spec fn empty() -> TravelLedger {
        TravelLedger {
            admin: None,
            id_count: 0,
            travelers: Map::empty(),
            providers: Map::empty(),
            checkins: Map::empty(),
            traveler_checkins: Map::empty(),
            place_visitors: Map::empty(),
            reviews: Map::empty(),
            provider_reviewers: Map::empty(),
            badges: Map::empty(),
            owner_badges: Map::empty(),
            payment_reps: Map::empty(),
            places: Map::empty(),
        }
    }

    pub open spec fn checkin_ids(self, traveler: Seq<char>) -> Seq<u64> {
        list_at(self.traveler_checkins, traveler)
    }

    /// The country codes of the check-ins of `traveler`, in order.
    pub open spec fn countries_of(self, traveler: Seq<char>) -> Seq<Seq<char>> {
        country_codes(self.checkins, traveler, self.checkin_ids(traveler))
    }

    pub open spec fn visitors(self, place_id: Seq<char>) -> Seq<Address> {
        list_at(self.place_visitors, place_id)
    }

    pub open spec fn reviewers(self, provider: Seq<char>) -> Seq<Address> {
        list_at(self.provider_reviewers, provider)
    }

    pub open spec fn badge_ids(self, owner: Seq<char>) -> Seq<u32> {
        list_at(self.owner_badges, owner)
    }

    /// The refusal of a request that needs an initialized ledger.
    pub open spec fn init_error(self) -> Option<TravelError> {
        if self.admin is None {
            Some(TravelError::NotInitialized)
        } else {
            None
        }
    }

    /// The refusal of a request that only the admin may make.
    pub open spec fn admin_error(self, caller: Address) -> Option<TravelError> {
        match self.admin {
            None => Some(TravelError::NotInitialized),
            Some(a) => if a@ != caller@ {
                Some(TravelError::Unauthorized)
            } else {
                None
            },
        }
    }

    // ── Transitions ──────────────────────────────────────────────────────

    pub open spec fn initialized_with(self, admin: Address) -> TravelLedger {
        TravelLedger { admin: Some(admin), id_count: 0, ..self }
    }

    pub open spec fn with_admin(self, admin: Address) -> TravelLedger {
        TravelLedger { admin: Some(admin), ..self }
    }

    pub open spec fn register_traveler_error(self, owner: Address) -> Option<TravelError> {
        if self.admin is None {
            Some(TravelError::NotInitialized)
        } else if self.travelers.contains_key(owner@) {
            Some(TravelError::ProfileAlreadyExists)
        } else {
            None
        }
    }

    pub open spec fn with_traveler(
        self,
        owner: Address,
        display_name: String,
        country_code: String,
        now: u64,
    ) -> TravelLedger {
        TravelLedger {
            travelers: self.travelers.insert(owner@, new_traveler(owner, display_name, country_code, now)),
            payment_reps: self.payment_reps.insert(owner@, new_payment_reputation(owner, now)),
            ..self
        }
    }

    pub open spec fn register_provider_error(self, owner: Address) -> Option<TravelError> {
        if self.admin is None {
            Some(TravelError::NotInitialized)
        } else if self.providers.contains_key(owner@) {
            Some(TravelError::ProfileAlreadyExists)
        } else {
            None
        }
    }

    pub open spec fn with_provider(self, profile: ProviderProfile) -> TravelLedger {
        TravelLedger { providers: self.providers.insert(profile.owner@, profile), ..self }
    }

    pub open spec fn register_place_error(self, place_id: String) -> Option<TravelError> {
        if self.admin is None {
            Some(TravelError::NotInitialized)
        } else if self.places.contains_key(place_id@) {
            Some(TravelError::InvalidInput)
        } else {
            None
        }
    }

    pub open spec fn with_place(self, place: PlaceInfo) -> TravelLedger {
        TravelLedger { places: self.places.insert(place.id@, place), ..self }
    }

    pub open spec fn verify_provider_error(self, admin: Address, provider: Address) -> Option<TravelError> {
        if self.admin_error(admin) is Some {
            self.admin_error(admin)
        } else if !self.providers.contains_key(provider@) {
            Some(TravelError::ProfileNotFound)
        } else {
            None
        }
    }

    /// The badge that `verify_provider` mints stays within `u32` ids.
    pub open spec fn verify_provider_fits(self, admin: Address, provider: Address) -> bool {
        self.verify_provider_error(admin, provider) is None ==> self.badge_fits(provider@)
    }

    pub open spec fn with_verified_provider(self, provider: Seq<char>) -> TravelLedger {
        TravelLedger {
            providers: self.providers.insert(provider, ProviderProfile { is_verified: true, ..self.providers[provider] }),
            ..self
        }
    }

    pub open spec fn flag_review_error(self, admin: Address, reviewer: Address, provider: Address) -> Option<TravelError> {
        if self.admin_error(admin) is Some {
            self.admin_error(admin)
        } else if !self.reviews.contains_key((reviewer@, provider@)) {
            Some(TravelError::ReviewNotFound)
        } else {
            None
        }
    }

    pub open spec fn with_flagged_review(self, key: (Seq<char>, Seq<char>)) -> TravelLedger {
        TravelLedger {
            reviews: self.reviews.insert(key, ReviewRecord { is_flagged: true, ..self.reviews[key] }),
            ..self
        }
    }

    pub open spec fn revoke_badge_error(self, admin: Address, owner: Address, badge_id: u32) -> Option<TravelError> {
        if self.admin_error(admin) is Some {
            self.admin_error(admin)
        } else if !self.badges.contains_key((owner@, badge_id)) {
            Some(TravelError::BadgeNotFound)
        } else {
            None
        }
    }

    pub open spec fn with_revoked_badge(self, key: (Seq<char>, u32)) -> TravelLedger {
        TravelLedger {
            badges: self.badges.insert(key, BadgeRecord { is_revoked: true, ..self.badges[key] }),
            ..self
        }
    }

    // ── Check-ins ────────────────────────────────────────────────────────

    pub open spec fn confirm_checkin_error(self, provider: Address, traveler: Address, place_id: String) -> Option<TravelError> {
        if self.admin is None {
            Some(TravelError::NotInitialized)
        } else if !self.providers.contains_key(provider@) {
            Some(TravelError::ProfileNotFound)
        } else if !self.providers[provider@].is_verified {
            Some(TravelError::ProviderNotVerified)
        } else if !self.travelers.contains_key(traveler@) {
            Some(TravelError::ProfileNotFound)
        } else if !self.places.contains_key(place_id@) {
            Some(TravelError::PlaceNotFound)
        } else {
            None
        }
    }

    /// The ledger after `provider` stamps a visit of `traveler` to
    /// `place_id`, under the next check-in id; milestone badges aside.
    pub open spec fn with_checkin(
        self,
        provider: Address,
        traveler: Address,
        place_id: String,
        note: String,
        now: u64,
    ) -> TravelLedger {
        let id = (self.id_count + 1) as u64;
        let t = traveler@;
        let place = self.places[place_id@];
        let profile = self.travelers[t];
        TravelLedger {
            id_count: id,
            checkins: self.checkins.insert(
                (t, id),
                CheckInRecord {
                    id,
                    traveler,
                    place_id,
                    place_name: place.name,
                    country_code: place.country_code,
                    confirmed_by: provider,
                    visited_at: now,
                    note,
                },
            ),
            traveler_checkins: self.traveler_checkins.insert(t, self.checkin_ids(t).push(id)),
            place_visitors: self.place_visitors.insert(place_id@, self.visitors(place_id@).push(traveler)),
            travelers: self.travelers.insert(
                t,
                TravelerProfile {
                    total_checkins: (profile.total_checkins + 1) as u32,
                    countries_visited: if self.countries_of(t).contains(place.country_code@) {
                        profile.countries_visited
                    } else {
                        (profile.countries_visited + 1) as u32
                    },
                    ..profile
                },
            ),
            places: self.places.insert(
                place_id@,
                PlaceInfo { total_visitors: (place.total_visitors + 1) as u32, ..place },
            ),
            ..self
        }
    }

    /// `next` is this ledger with the check-in milestone badge for `total`
    /// minted to `traveler` where `total` is a milestone.
    pub open spec fn milestone_awarded(self, next: TravelLedger, traveler: Address, total: u32, now: u64) -> bool {
        if is_checkin_milestone(total) {
            self.minted_unless_held(next, traveler, BadgeType::CheckInMilestone(total), "Mốc check-in"@, now)
        } else {
            next == self
        }
    }

    /// The counters that `confirm_checkin` raises stay within their types.
    pub open spec fn confirm_checkin_fits(self, provider: Address, traveler: Address, place_id: String) -> bool {
        self.confirm_checkin_error(provider, traveler, place_id) is None ==> {
            let total = self.travelers[traveler@].total_checkins + 1;
            &&& self.id_count < u64::MAX
            &&& self.travelers[traveler@].total_checkins < u32::MAX
            &&& self.places[place_id@].total_visitors < u32::MAX
            &&& is_checkin_milestone(total as u32) && !self.has_active_badge(
                traveler@,
                BadgeType::CheckInMilestone(total as u32),
            ) ==> self.badge_fits(traveler@)
        }
    }

    // ── Reviews ──────────────────────────────────────────────────────────

    pub open spec fn leave_review_error(self, reviewer: Address, provider: Address, checkin_id: u64, rating: u32) -> Option<TravelError> {
        if self.admin is None {
            Some(TravelError::NotInitialized)
        } else if rating < 1 || rating > 5 {
            Some(TravelError::InvalidRating)
        } else if !self.travelers.contains_key(reviewer@) {
            Some(TravelError::ProfileNotFound)
        } else if !self.checkins.contains_key((reviewer@, checkin_id)) {
            Some(TravelError::CheckInNotFound)
        } else if self.checkins[(reviewer@, checkin_id)].confirmed_by@ != provider@ {
            Some(TravelError::CheckInNotConfirmed)
        } else if self.reviews.contains_key((reviewer@, provider@)) {
            Some(TravelError::ReviewAlreadyExists)
        } else if !self.providers.contains_key(provider@) {
            Some(TravelError::ProfileNotFound)
        } else {
            None
        }
    }

    /// The ledger after the given author rates `provider`; badges aside.
    pub open spec fn with_review(
        self,
        reviewer: Address,
        provider: Address,
        checkin_id: u64,
        rating: u32,
        comment: String,
        now: u64,
    ) -> TravelLedger {
        let prov = self.providers[provider@];
        let trav = self.travelers[reviewer@];
        TravelLedger {
            reviews: self.reviews.insert(
                (reviewer@, provider@),
                ReviewRecord {
                    reviewer,
                    provider,
                    checkin_id,
                    rating,
                    comment,
                    reviewed_at: now,
                    is_flagged: false,
                },
            ),
            provider_reviewers: self.provider_reviewers.insert(provider@, self.reviewers(provider@).push(reviewer)),
            providers: self.providers.insert(
                provider@,
                ProviderProfile {
                    avg_rating: rolled_average(prov.avg_rating, prov.total_ratings, rating) as u32,
                    total_ratings: (prov.total_ratings + 1) as u32,
                    ..prov
                },
            ),
            travelers: self.travelers.insert(
                reviewer@,
                TravelerProfile { total_reviews: (trav.total_reviews + 1) as u32, ..trav },
            ),
            ..self
        }
    }

    /// `next` is this ledger with a TrustedReviewer badge minted to
    /// the author once `total_reviews` reaches 20.
    pub open spec fn reviewer_badge_awarded(self, next: TravelLedger, reviewer: Address, total_reviews: u32, now: u64) -> bool {
        if total_reviews >= 20 {
            self.minted_unless_held(next, reviewer, BadgeType::TrustedReviewer, "Người đánh giá uy tín"@, now)
        } else {
            next == self
        }
    }

    /// The counters that `leave_review` raises stay within `u32`.
    pub open spec fn leave_review_fits(self, reviewer: Address, provider: Address, checkin_id: u64, rating: u32) -> bool {
        self.leave_review_error(reviewer, provider, checkin_id, rating) is None ==> {
            let prov = self.providers[provider@];
            let total = self.travelers[reviewer@].total_reviews + 1;
            &&& prov.total_ratings < u32::MAX
            &&& prov.avg_rating * prov.total_ratings + rating * 100 <= u32::MAX
            &&& self.travelers[reviewer@].total_reviews < u32::MAX
            &&& total >= 20 && !self.has_active_badge(reviewer@, BadgeType::TrustedReviewer) ==> self.badge_fits(
                reviewer@,
            )
        }
    }

    // ── Payment reputation ───────────────────────────────────────────────

    pub open spec fn payment_error(self, admin: Address, owner: Address) -> Option<TravelError> {
        if self.admin_error(admin) is Some {
            self.admin_error(admin)
        } else if !self.payment_reps.contains_key(owner@) {
            Some(TravelError::ProfileNotFound)
        } else {
            None
        }
    }

    pub open spec fn with_payment_rep(self, owner: Seq<char>, rep: PaymentReputation) -> TravelLedger {
        TravelLedger { payment_reps: self.payment_reps.insert(owner, rep), ..self }
    }

    /// `next` is this ledger with a PaymentChampion badge minted to `owner`
    /// once `rep` has at least 10 deposits and no dispute.
    pub open spec fn champion_badge_awarded(self, next: TravelLedger, owner: Address, rep: PaymentReputation, now: u64) -> bool {
        if rep.disputes == 0 && rep.total_deposits >= 10 {
            self.minted_unless_held(next, owner, BadgeType::PaymentChampion, "Thanh toán uy tín"@, now)
        } else {
            next == self
        }
    }

    /// The counters that `record_payment_success` raises stay within `u32`.
    pub open spec fn payment_success_fits(self, admin: Address, owner: Address) -> bool {
        self.payment_error(admin, owner) is None ==> {
            let rep = self.payment_reps[owner@];
            let raised = deposit_refunded(rep);
            &&& rep.total_deposits < u32::MAX
            &&& rep.successful_refunds < u32::MAX
            &&& payment_score_fits(raised)
            &&& raised.disputes == 0 && raised.total_deposits >= 10 && !self.has_active_badge(
                owner@,
                BadgeType::PaymentChampion,
            ) ==> self.badge_fits(owner@)
        }
    }

    /// The counters that `record_dispute` raises stay within `u32`.
    pub open spec fn dispute_fits(self, admin: Address, owner: Address, won: bool) -> bool {
        self.payment_error(admin, owner) is None ==> {
            let rep = self.payment_reps[owner@];
            &&& rep.disputes < u32::MAX
            &&& won ==> rep.dispute_wins < u32::MAX
            &&& payment_score_fits(dispute_recorded(rep, won))
        }
    }

    // ── Trust score ──────────────────────────────────────────────────────

    /// The payment score that the trust score of `traveler` counts.
    pub open spec fn payment_points_of(self, traveler: Seq<char>) -> u32 {
        if self.payment_reps.contains_key(traveler) {
            self.payment_reps[traveler].score
        } else {
            100
        }
    }

    /// The trust score `traveler` gets from `update_trust_score`.
    pub open spec fn trust_score_of(self, traveler: Seq<char>) -> int {
        let p = self.travelers[traveler];
        trust_score(p.total_checkins, p.total_reviews, self.payment_points_of(traveler))
    }

    pub open spec fn with_trust_score(self, traveler: Seq<char>, score: u32) -> TravelLedger {
        TravelLedger {
            travelers: self.travelers.insert(traveler, TravelerProfile { trust_score: score, ..self.travelers[traveler] }),
            ..self
        }
    }

    /// The products that the trust score takes stay within `u32`.
    pub open spec fn trust_score_fits(self, traveler: Seq<char>) -> bool {
        self.travelers.contains_key(traveler) ==> {
            let p = self.travelers[traveler];
            &&& p.total_checkins * 4 <= u32::MAX
            &&& p.total_reviews * 10 <= u32::MAX
        }
    }

    // ── Outcomes of the requests stamped with the ledger time ────────────

    /// `r` and `next` are what `register_traveler` gives at time `now`.
    pub open spec fn register_traveler_outcome(
        self,
        next: TravelLedger,
        r: Result<(), TravelError>,
        owner: Address,
        display_name: String,
        country_code: String,
        now: u64,
    ) -> bool {
        match r {
            Ok(()) => self.register_traveler_error(owner) is None && next == self.with_traveler(
                owner,
                display_name,
                country_code,
                now,
            ),
            Err(e) => self.register_traveler_error(owner) == Some(e) && next == self,
        }
    }

    /// `r` and `next` are what `register_provider` gives at time `now`.
    pub open spec fn register_provider_outcome(
        self,
        next: TravelLedger,
        r: Result<(), TravelError>,
        owner: Address,
        business_name: String,
        category: String,
        country_code: String,
        license_number: String,
        now: u64,
    ) -> bool {
        match r {
            Ok(()) => self.register_provider_error(owner) is None && next == self.with_provider(
                new_provider(owner, business_name, category, country_code, license_number, now),
            ),
            Err(e) => self.register_provider_error(owner) == Some(e) && next == self,
        }
    }

    /// `r` and `next` are what `verify_provider` gives at time `now`.
    pub open spec fn verify_provider_outcome(
        self,
        next: TravelLedger,
        r: Result<(), TravelError>,
        admin: Address,
        provider: Address,
        now: u64,
    ) -> bool {
        match r {
            Ok(()) => self.verify_provider_error(admin, provider) is None && self.with_verified_provider(
                provider@,
            ).minted(next, provider, BadgeType::VerifiedProvider, "Nhà cung cấp đã xác minh"@, now),
            Err(e) => self.verify_provider_error(admin, provider) == Some(e) && next == self,
        }
    }

    /// `r` and `next` are what `register_place` gives at time `now`.
    pub open spec fn register_place_outcome(
        self,
        next: TravelLedger,
        r: Result<(), TravelError>,
        registrar: Address,
        place_id: String,
        name: String,
        country_code: String,
        category: String,
        description: String,
        now: u64,
    ) -> bool {
        match r {
            Ok(()) => self.register_place_error(place_id) is None && next == self.with_place(
                new_place(registrar, place_id, name, country_code, category, description, now),
            ),
            Err(e) => self.register_place_error(place_id) == Some(e) && next == self,
        }
    }

    /// `r` and `next` are what `confirm_checkin` gives at time `now`.
    pub open spec fn confirm_checkin_outcome(
        self,
        next: TravelLedger,
        r: Result<u64, TravelError>,
        provider: Address,
        traveler: Address,
        place_id: String,
        note: String,
        now: u64,
    ) -> bool {
        match r {
            Ok(id) => {
                &&& self.confirm_checkin_error(provider, traveler, place_id) is None
                &&& id == self.id_count + 1
                &&& self.with_checkin(provider, traveler, place_id, note, now).milestone_awarded(
                    next,
                    traveler,
                    (self.travelers[traveler@].total_checkins + 1) as u32,
                    now,
                )
            },
            Err(e) => self.confirm_checkin_error(provider, traveler, place_id) == Some(e) && next == self,
        }
    }

    /// `r` and `next` are what `leave_review` gives at time `now`.
    pub open spec fn leave_review_outcome(
        self,
        next: TravelLedger,
        r: Result<(), TravelError>,
        reviewer: Address,
        provider: Address,
        checkin_id: u64,
        rating: u32,
        comment: String,
        now: u64,
    ) -> bool {
        match r {
            Ok(()) => {
                &&& self.leave_review_error(reviewer, provider, checkin_id, rating) is None
                &&& self.with_review(reviewer, provider, checkin_id, rating, comment, now).reviewer_badge_awarded(
                    next,
                    reviewer,
                    (self.travelers[reviewer@].total_reviews + 1) as u32,
                    now,
                )
            },
            Err(e) => self.leave_review_error(reviewer, provider, checkin_id, rating) == Some(e) && next == self,
        }
    }

    /// `r` and `next` are what `record_payment_success` gives at time `now`.
    pub open spec fn payment_success_outcome(
        self,
        next: TravelLedger,
        r: Result<(), TravelError>,
        admin: Address,
        owner: Address,
        now: u64,
    ) -> bool {
        match r {
            Ok(()) => {
                let rep = rescored(deposit_refunded(self.payment_reps[owner@]), now);
                &&& self.payment_error(admin, owner) is None
                &&& self.with_payment_rep(owner@, rep).champion_badge_awarded(next, owner, rep, now)
            },
            Err(e) => self.payment_error(admin, owner) == Some(e) && next == self,
        }
    }

    /// `r` and `next` are what `record_dispute` gives at time `now`.
    pub open spec fn dispute_outcome(
        self,
        next: TravelLedger,
        r: Result<(), TravelError>,
        admin: Address,
        owner: Address,
        won: bool,
        now: u64,
    ) -> bool {
        match r {
            Ok(()) => self.payment_error(admin, owner) is None && next == self.with_payment_rep(
                owner@,
                rescored(dispute_recorded(self.payment_reps[owner@], won), now),
            ),
            Err(e) => self.payment_error(admin, owner) == Some(e) && next == self,
        }
    }

    // ── Badges ───────────────────────────────────────────────────────────

    /// The id the next badge of `owner` gets.
    pub open spec fn next_badge_id(self, owner: Seq<char>) -> int {
        self.badge_ids(owner).len() + 1int
    }

    /// The ledger after minting a badge to `owner`, with the next free id.
    pub open spec fn with_badge(self, owner: Address, badge_type: BadgeType, title: String, now: u64) -> TravelLedger {
        let id = self.next_badge_id(owner@) as u32;
        TravelLedger {
            badges: self.badges.insert(
                (owner@, id),
                BadgeRecord { id, owner, badge_type, title, issued_at: now, is_revoked: false },
            ),
            owner_badges: self.owner_badges.insert(owner@, self.badge_ids(owner@).push(id)),
            ..self
        }
    }

    /// `next` is this ledger with a new badge minted to `owner`, titled `title`.
    pub open spec fn minted(
        self,
        next: TravelLedger,
        owner: Address,
        badge_type: BadgeType,
        title: Seq<char>,
        now: u64,
    ) -> bool {
        let key = (owner@, self.next_badge_id(owner@) as u32);
        &&& next.badges.contains_key(key)
        &&& next.badges[key].title@ == title
        &&& next == self.with_badge(owner, badge_type, next.badges[key].title, now)
    }

    /// `owner` holds a badge of this type that is not revoked.
    pub open spec fn has_active_badge(self, owner: Seq<char>, badge_type: BadgeType) -> bool {
        exists|i: int|
            0 <= i < self.badge_ids(owner).len() && #[trigger] self.badges.contains_key(
                (owner, self.badge_ids(owner)[i]),
            ) && self.badges[(owner, self.badge_ids(owner)[i])].badge_type == badge_type
                && !self.badges[(owner, self.badge_ids(owner)[i])].is_revoked
    }

    /// `next` is this ledger with a badge minted to `owner`, unless `owner`
    /// already holds an active badge of that type.
    pub open spec fn minted_unless_held(
        self,
        next: TravelLedger,
        owner: Address,
        badge_type: BadgeType,
        title: Seq<char>,
        now: u64,
    ) -> bool {
        if self.has_active_badge(owner@, badge_type) {
            next == self
        } else {
            self.minted(next, owner, badge_type, title, now)
        }
    }

    /// Minting a badge to `owner` stays within `u32` ids.
    pub open spec fn badge_fits(self, owner: Seq<char>) -> bool {
        self.badge_ids(owner).len() < u32::MAX
    }
}

/// A provider's rating average is 0 before the first rating, and a rating
/// (1 to 5) times 100 once there is one.
pub open spec fn rating_ok(p: ProviderProfile) -> bool {
    &&& p.avg_rating <= 500
    &&& p.total_ratings == 0 ==> p.avg_rating == 0
    &&& p.total_ratings > 0 ==> p.avg_rating >= 100
}

impl TravelLedger {
    /// Nothing is stored before `initialize`.
    pub open spec fn empty_until_initialized(self) -> bool {
        self.admin is None ==> self == TravelLedger::empty()
    }

    /// Every traveler has a payment reputation, and only travelers do.
    pub open spec fn reputations_match_travelers(self) -> bool {
        self.payment_reps.dom() == self.travelers.dom()
    }

    /// Every profile, reputation and place is stored under its own owner or id.
    pub open spec fn records_keyed(self) -> bool {
        &&& forall|t: Seq<char>| #[trigger] self.travelers.contains_key(t) ==> self.travelers[t].owner@ == t
        &&& forall|p: Seq<char>| #[trigger] self.providers.contains_key(p) ==> self.providers[p].owner@ == p
        &&& forall|o: Seq<char>| #[trigger] self.payment_reps.contains_key(o) ==> self.payment_reps[o].owner@ == o
        &&& forall|p: Seq<char>| #[trigger] self.places.contains_key(p) ==> self.places[p].id@ == p
    }

    /// Payment scores stay within 0 to 100.
    pub open spec fn scores_bounded(self) -> bool {
        forall|o: Seq<char>| #[trigger] self.payment_reps.contains_key(o) ==> self.payment_reps[o].score <= 100
    }

    /// Provider rating averages stay ratings times 100.
    pub open spec fn ratings_bounded(self) -> bool {
        forall|p: Seq<char>| #[trigger] self.providers.contains_key(p) ==> rating_ok(self.providers[p])
    }

    /// Every check-in is stored under its own traveler and id, has an id
    /// already handed out, and was confirmed by a verified provider.
    pub open spec fn checkins_confirmed(self) -> bool {
        forall|k: (Seq<char>, u64)| #[trigger]
            self.checkins.contains_key(k) ==> {
                let c = self.checkins[k];
                &&& c.id == k.1
                &&& c.traveler@ == k.0
                &&& 1 <= k.1 <= self.id_count
                &&& self.providers.contains_key(c.confirmed_by@)
                &&& self.providers[c.confirmed_by@].is_verified
            }
    }

    /// Every review is stored under its author and provider, has a rating
    /// of 1 to 5, and links to a check-in of the author that the rated
    /// provider confirmed.
    pub open spec fn reviews_backed(self) -> bool {
        forall|k: (Seq<char>, Seq<char>)| #[trigger]
            self.reviews.contains_key(k) ==> {
                let r = self.reviews[k];
                &&& r.reviewer@ == k.0
                &&& r.provider@ == k.1
                &&& 1 <= r.rating <= 5
                &&& self.checkins.contains_key((k.0, r.checkin_id))
                &&& self.checkins[(k.0, r.checkin_id)].confirmed_by@ == k.1
            }
    }

    /// The badges of each owner are numbered 1, 2, ... in minting order, and
    /// each is stored under its owner and id.
    pub open spec fn badges_numbered(self) -> bool {
        badges_numbered_in(self.owner_badges, self.badges)
    }

    /// Each traveler's check-in list names stored check-ins, in increasing order.
    pub open spec fn checkin_lists_sound(self) -> bool {
        &&& forall|t: Seq<char>, i: int|
            self.traveler_checkins.contains_key(t) && 0 <= i < self.traveler_checkins[t].len()
                ==> self.checkins.contains_key((t, #[trigger] self.traveler_checkins[t][i]))
        &&& forall|t: Seq<char>, i: int, j: int|
            self.traveler_checkins.contains_key(t) && 0 <= i < j < self.traveler_checkins[t].len()
                ==> #[trigger] self.traveler_checkins[t][i] < #[trigger] self.traveler_checkins[t][j]
    }

    /// Each provider's list of review authors names stored reviews of that provider.
    pub open spec fn reviewer_lists_sound(self) -> bool {
        forall|p: Seq<char>, i: int|
            self.provider_reviewers.contains_key(p) && 0 <= i < self.provider_reviewers[p].len()
                ==> self.reviews.contains_key((#[trigger] self.provider_reviewers[p][i]@, p))
    }

    /// Lists exist only for registered travelers, providers and places, and
    /// each count equals the length of its list: a traveler's check-ins, a
    /// provider's ratings, a place's visitors.
    pub open spec fn counts_match_lists(self) -> bool {
        &&& self.traveler_checkins.dom().subset_of(self.travelers.dom())
        &&& self.provider_reviewers.dom().subset_of(self.providers.dom())
        &&& self.place_visitors.dom().subset_of(self.places.dom())
        &&& forall|t: Seq<char>| #[trigger]
            self.travelers.contains_key(t) ==> self.travelers[t].total_checkins == self.checkin_ids(t).len()
        &&& forall|p: Seq<char>| #[trigger]
            self.providers.contains_key(p) ==> self.providers[p].total_ratings == self.reviewers(p).len()
        &&& forall|p: Seq<char>| #[trigger]
            self.places.contains_key(p) ==> self.places[p].total_visitors == self.visitors(p).len()
    }

    /// Every payment record is consistent: refunds match deposits, won
    /// disputes are among the disputes, the score is computed from them.
    pub open spec fn payments_consistent(self) -> bool {
        forall|o: Seq<char>| #[trigger] self.payment_reps.contains_key(o) ==> payment_record_ok(self.payment_reps[o])
    }

    /// Check-in ids are used once over all travelers, the counter counts
    /// the check-ins, and every check-in is listed under its traveler.
    pub open spec fn checkins_counted(self) -> bool {
        &&& self.checkins.dom().finite()
        &&& self.checkins.dom().len() == self.id_count
        &&& forall|k1: (Seq<char>, u64), k2: (Seq<char>, u64)|
            #[trigger] self.checkins.contains_key(k1) && #[trigger] self.checkins.contains_key(k2) && k1.1 == k2.1
                ==> k1 == k2
        &&& forall|k: (Seq<char>, u64)| #[trigger]
            self.checkins.contains_key(k) ==> self.checkin_ids(k.0).contains(k.1)
    }

    /// A traveler's countries visited are the distinct country codes of
    /// its check-ins.
    pub open spec fn countries_counted(self) -> bool {
        forall|t: Seq<char>| #[trigger]
            self.travelers.contains_key(t) ==> self.travelers[t].countries_visited == distinct_count(
                self.countries_of(t),
            )
    }

    /// A provider's list of review authors names each author once, and
    /// every stored review's author is in it.
    pub open spec fn reviewer_lists_exact(self) -> bool {
        &&& forall|p: Seq<char>, i: int, j: int|
            self.provider_reviewers.contains_key(p) && 0 <= i < j < self.provider_reviewers[p].len()
                ==> #[trigger] self.provider_reviewers[p][i]@ != #[trigger] self.provider_reviewers[p][j]@
        &&& forall|k: (Seq<char>, Seq<char>)| #[trigger]
            self.reviews.contains_key(k) ==> names(self.reviewers(k.1), k.0)
    }

    /// Every entry of a place's visitor list is a traveler with a check-in
    /// at that place.
    pub open spec fn visitor_lists_sound(self) -> bool {
        visitors_sound(self.place_visitors, self.checkins)
    }

    /// `next` keeps every record of this ledger: no profile, place or
    /// payment record goes away, check-ins stay as they are, reviews and
    /// badges stay except that a review can become flagged and a badge
    /// revoked, every list only grows at its end, and the check-in counter
    /// never goes back.
    pub open spec fn keeps_records(self, next: TravelLedger) -> bool {
        &&& self.id_count <= next.id_count
        &&& self.travelers.dom().subset_of(next.travelers.dom())
        &&& self.providers.dom().subset_of(next.providers.dom())
        &&& self.places.dom().subset_of(next.places.dom())
        &&& self.payment_reps.dom().subset_of(next.payment_reps.dom())
        &&& forall|k: (Seq<char>, u64)| #[trigger]
            self.checkins.contains_key(k) ==> next.checkins.contains_key(k) && next.checkins[k] == self.checkins[k]
        &&& forall|k: (Seq<char>, Seq<char>)| #[trigger]
            self.reviews.contains_key(k) ==> next.reviews.contains_key(k) && review_kept(self.reviews[k], next.reviews[k])
        &&& forall|k: (Seq<char>, u32)| #[trigger]
            self.badges.contains_key(k) ==> next.badges.contains_key(k) && badge_kept(self.badges[k], next.badges[k])
        &&& lists_kept(self.traveler_checkins, next.traveler_checkins)
        &&& lists_kept(self.place_visitors, next.place_visitors)
        &&& lists_kept(self.provider_reviewers, next.provider_reviewers)
        &&& lists_kept(self.owner_badges, next.owner_badges)
    }

    /// What every reachable ledger keeps.
    pub open spec fn inv(self) -> bool {
        &&& self.empty_until_initialized()
        &&& self.reputations_match_travelers()
        &&& self.records_keyed()
        &&& self.scores_bounded()
        &&& self.ratings_bounded()
        &&& self.checkins_confirmed()
        &&& self.reviews_backed()
        &&& self.badges_numbered()
        &&& self.checkin_lists_sound()
        &&& self.reviewer_lists_sound()
        &&& self.counts_match_lists()
        &&& self.payments_consistent()
        &&& self.checkins_counted()
        &&& self.countries_counted()
        &&& self.reviewer_lists_exact()
        &&& self.visitor_lists_sound()
    }
}

/// Minting a badge under the next free id keeps the invariant.
pub proof fn lemma_mint_keeps_inv(l: TravelLedger, owner: Address, badge_type: BadgeType, title: String, now: u64)
    requires
        l.inv(),
        l.admin is Some,
        l.badge_fits(owner@),
    ensures
        l.with_badge(owner, badge_type, title, now).inv(),
{
    let n = l.with_badge(owner, badge_type, title, now);
    let o = owner@;
    let id = l.next_badge_id(o) as u32;
    let ids = l.badge_ids(o);
    // The new key is fresh: every stored badge of `o` has an id within the list.
    assert(!l.badges.contains_key((o, id)));
    assert forall|o2: Seq<char>, i: int|
        n.owner_badges.contains_key(o2) && 0 <= i < n.owner_badges[o2].len() implies {
            &&& #[trigger] n.owner_badges[o2][i] == i + 1
            &&& n.badges.contains_key((o2, (i + 1) as u32))
        } by {
        if o2 == o {
            if i < ids.len() {
                assert(l.owner_badges.contains_key(o2));
                assert(l.owner_badges[o2][i] == i + 1);
            }
        } else {
            assert(l.owner_badges[o2][i] == i + 1);
        }
    }
    assert forall|k: (Seq<char>, u32)| #[trigger] n.badges.contains_key(k) implies {
        &&& 1 <= k.1 <= n.badge_ids(k.0).len()
        &&& n.badges[k].id == k.1
        &&& n.badges[k].owner@ == k.0
    } by {
        if k != (o, id) {
            assert(l.badges.contains_key(k));
        }
    }
    lemma_visitors_frame(l, n);
}

/// Marking a registered provider verified keeps the invariant.
pub proof fn lemma_verify_keeps_inv(l: TravelLedger, provider: Seq<char>)
    requires
        l.inv(),
        l.providers.contains_key(provider),
    ensures
        l.with_verified_provider(provider).inv(),
{
    let n = l.with_verified_provider(provider);
    assert forall|k: (Seq<char>, u64)| #[trigger] n.checkins.contains_key(k) implies {
        let c = n.checkins[k];
        &&& n.providers.contains_key(c.confirmed_by@)
        &&& n.providers[c.confirmed_by@].is_verified
    } by {
        assert(l.checkins.contains_key(k));
    }
    lemma_visitors_frame(l, n);
}

/// Stamping a check-in under the next id keeps the invariant.
pub proof fn lemma_checkin_keeps_inv(
    l: TravelLedger,
    provider: Address,
    traveler: Address,
    place_id: String,
    note: String,
    now: u64,
)
    requires
        l.inv(),
        l.confirm_checkin_error(provider, traveler, place_id) is None,
        l.id_count < u64::MAX,
        l.travelers[traveler@].total_checkins < u32::MAX,
        l.places[place_id@].total_visitors < u32::MAX,
    ensures
        l.with_checkin(provider, traveler, place_id, note, now).inv(),
{
    let n = l.with_checkin(provider, traveler, place_id, note, now);
    assert(n.traveler_checkins.dom().subset_of(n.travelers.dom()));
    assert(n.place_visitors.dom().subset_of(n.places.dom()));
    assert forall|t2: Seq<char>| #[trigger] n.travelers.contains_key(t2) implies n.travelers[t2].total_checkins
        == n.checkin_ids(t2).len() by {
        assert(l.travelers[t2].total_checkins == l.checkin_ids(t2).len());
    }
    assert forall|p2: Seq<char>| #[trigger] n.places.contains_key(p2) implies n.places[p2].total_visitors
        == n.visitors(p2).len() by {
        assert(l.places[p2].total_visitors == l.visitors(p2).len());
    }
    let t = traveler@;
    let id = (l.id_count + 1) as u64;
    assert(!l.checkins.contains_key((t, id)));
    assert(n.payment_reps.dom() =~= n.travelers.dom());
    assert forall|k: (Seq<char>, u64)| #[trigger] n.checkins.contains_key(k) implies {
        let c = n.checkins[k];
        &&& c.id == k.1
        &&& c.traveler@ == k.0
        &&& 1 <= k.1 <= n.id_count
        &&& n.providers.contains_key(c.confirmed_by@)
        &&& n.providers[c.confirmed_by@].is_verified
    } by {
        if k != (t, id) {
            assert(l.checkins.contains_key(k));
        }
    }
    assert forall|k: (Seq<char>, Seq<char>)| #[trigger] n.reviews.contains_key(k) implies {
        let r = n.reviews[k];
        &&& n.checkins.contains_key((k.0, r.checkin_id))
        &&& n.checkins[(k.0, r.checkin_id)].confirmed_by@ == k.1
    } by {
        let r = l.reviews[k];
        assert(l.checkins.contains_key((k.0, r.checkin_id)));
    }
    let ids = l.checkin_ids(t);
    assert forall|t2: Seq<char>, i: int|
        n.traveler_checkins.contains_key(t2) && 0 <= i < n.traveler_checkins[t2].len() implies n.checkins.contains_key(
        (t2, #[trigger] n.traveler_checkins[t2][i]),
    ) by {
        if t2 == t {
            if i < ids.len() {
                assert(l.traveler_checkins.contains_key(t2));
                assert(l.checkins.contains_key((t2, l.traveler_checkins[t2][i])));
            }
        } else {
            assert(l.checkins.contains_key((t2, l.traveler_checkins[t2][i])));
        }
    }
    assert forall|t2: Seq<char>, i: int, j: int|
        n.traveler_checkins.contains_key(t2) && 0 <= i < j < n.traveler_checkins[t2].len() implies #[trigger] n.traveler_checkins[t2][i]
        < #[trigger] n.traveler_checkins[t2][j] by {
        if t2 == t {
            if j < ids.len() {
                assert(l.traveler_checkins[t2][i] < l.traveler_checkins[t2][j]);
            } else {
                assert(l.traveler_checkins.contains_key(t2));
                assert(l.checkins.contains_key((t2, l.traveler_checkins[t2][i])));
            }
        } else {
            assert(l.traveler_checkins[t2][i] < l.traveler_checkins[t2][j]);
        }
    }
    // The counter counts the check-ins; ids are used once; each is listed.
    assert(n.checkins.dom() =~= l.checkins.dom().insert((t, id)));
    assert forall|k1: (Seq<char>, u64), k2: (Seq<char>, u64)|
        #[trigger] n.checkins.contains_key(k1) && #[trigger] n.checkins.contains_key(k2) && k1.1 == k2.1 implies k1
        == k2 by {
        if k1 != (t, id) && k2 != (t, id) {
            assert(l.checkins.contains_key(k1) && l.checkins.contains_key(k2));
        }
    }
    assert forall|k: (Seq<char>, u64)| #[trigger] n.checkins.contains_key(k) implies n.checkin_ids(k.0).contains(
        k.1,
    ) by {
        if k == (t, id) {
            assert(n.checkin_ids(t)[ids.len() as int] == id);
        } else {
            assert(l.checkins.contains_key(k));
            assert(l.checkin_ids(k.0).contains(k.1));
            let w = choose|w: int| 0 <= w < l.checkin_ids(k.0).len() && l.checkin_ids(k.0)[w] == k.1;
            assert(n.checkin_ids(k.0)[w] == k.1);
        }
    }
    assert(n.checkins_counted());
    // Countries: the traveler's list gains the place's country code.
    assert forall|t2: Seq<char>| #[trigger] n.travelers.contains_key(t2) implies n.travelers[t2].countries_visited
        == distinct_count(n.countries_of(t2)) by {
        let ids2 = l.checkin_ids(t2);
        assert forall|j: int| 0 <= j < ids2.len() implies n.checkins[(t2, #[trigger] ids2[j])] == l.checkins[(
        t2,
        ids2[j],
        )] by {
            if l.traveler_checkins.contains_key(t2) {
                assert(l.checkins.contains_key((t2, l.traveler_checkins[t2][j])));
            }
        }
        lemma_country_codes_frame(n.checkins, l.checkins, t2, ids2);
        assert(l.travelers.contains_key(t2));
        assert(l.travelers[t2].countries_visited == distinct_count(l.countries_of(t2)));
        if t2 == t {
            let cc = l.places[place_id@].country_code@;
            assert(n.checkin_ids(t) == ids.push(id));
            lemma_country_codes_push(n.checkins, t, ids, id);
            assert(n.checkins[(t, id)].country_code@ == cc);
            assert(n.countries_of(t) == l.countries_of(t).push(cc));
            lemma_distinct_count_push(l.countries_of(t), cc);
            lemma_country_codes_index(l.checkins, t, ids);
            lemma_distinct_count_bounded(l.countries_of(t));
            assert(l.travelers[t].total_checkins == ids.len());
        } else {
            assert(n.checkin_ids(t2) == ids2);
        }
    }
    // Visitor lists: the place's list gains the traveler, witnessed by the new check-in.
    assert forall|k: (Seq<char>, u64)| #[trigger] l.checkins.contains_key(k) implies n.checkins.contains_key(k)
        && n.checkins[k] == l.checkins[k] by {}
    lemma_visitors_push(l.place_visitors, l.checkins, n.checkins, place_id@, traveler, id);
    assert(n.place_visitors == l.place_visitors.insert(place_id@, list_at(l.place_visitors, place_id@).push(traveler)));
}

/// One more rating keeps a rating average within 100 to 500.
pub proof fn lemma_rolled_average_bounded(avg: u32, count: u32, rating: u32)
    requires
        avg <= 500,
        count == 0 ==> avg == 0,
        count > 0 ==> avg >= 100,
        1 <= rating <= 5,
    ensures
        100 <= rolled_average(avg, count, rating) <= 500,
{
    let c = count as int;
    let a = avg as int;
    let r = rating as int;
    let x = a * c + r * 100;
    assert(100 * (c + 1) <= x <= 500 * (c + 1)) by (nonlinear_arith)
        requires
            0 <= c,
            c == 0 ==> a == 0,
            c > 0 ==> 100 <= a <= 500,
            1 <= r <= 5,
            x == a * c + r * 100,
    ;
    assert(100 <= x / (c + 1) <= 500) by (nonlinear_arith)
        requires
            0 <= c,
            100 * (c + 1) <= x <= 500 * (c + 1),
    ;
}

/// Recording a review keeps the invariant.
pub proof fn lemma_review_keeps_inv(
    l: TravelLedger,
    reviewer: Address,
    provider: Address,
    checkin_id: u64,
    rating: u32,
    comment: String,
    now: u64,
)
    requires
        l.inv(),
        l.leave_review_error(reviewer, provider, checkin_id, rating) is None,
        l.leave_review_fits(reviewer, provider, checkin_id, rating),
    ensures
        l.with_review(reviewer, provider, checkin_id, rating, comment, now).inv(),
{
    let n = l.with_review(reviewer, provider, checkin_id, rating, comment, now);
    let r = reviewer@;
    let p = provider@;
    let prov = l.providers[p];
    lemma_rolled_average_bounded(prov.avg_rating, prov.total_ratings, rating);
    assert(n.payment_reps.dom() =~= n.travelers.dom());
    assert(rating_ok(n.providers[p]));
    assert forall|k: (Seq<char>, u64)| #[trigger] n.checkins.contains_key(k) implies {
        let c = n.checkins[k];
        &&& n.providers.contains_key(c.confirmed_by@)
        &&& n.providers[c.confirmed_by@].is_verified
    } by {
        assert(l.checkins.contains_key(k));
    }
    assert forall|k: (Seq<char>, Seq<char>)| #[trigger] n.reviews.contains_key(k) implies {
        let rv = n.reviews[k];
        &&& rv.reviewer@ == k.0
        &&& rv.provider@ == k.1
        &&& 1 <= rv.rating <= 5
        &&& n.checkins.contains_key((k.0, rv.checkin_id))
        &&& n.checkins[(k.0, rv.checkin_id)].confirmed_by@ == k.1
    } by {
        if k != (r, p) {
            assert(l.reviews.contains_key(k));
        }
    }
    let list = l.reviewers(p);
    assert forall|p2: Seq<char>, i: int|
        n.provider_reviewers.contains_key(p2) && 0 <= i < n.provider_reviewers[p2].len() implies n.reviews.contains_key(
        (#[trigger] n.provider_reviewers[p2][i]@, p2),
    ) by {
        if p2 == p {
            if i < list.len() {
                assert(l.provider_reviewers.contains_key(p2));
                assert(l.reviews.contains_key((l.provider_reviewers[p2][i]@, p2)));
            }
        } else {
            assert(l.reviews.contains_key((l.provider_reviewers[p2][i]@, p2)));
        }
    }
    assert(n.reviewer_lists_sound());
    // The author is new to the provider's list, and every review's author is listed.
    assert(n.reviewers(p) == list.push(reviewer));
    assert forall|p2: Seq<char>, i: int, j: int|
        n.provider_reviewers.contains_key(p2) && 0 <= i < j < n.provider_reviewers[p2].len() implies #[trigger] n.provider_reviewers[p2][i]@
        != #[trigger] n.provider_reviewers[p2][j]@ by {
        if p2 == p {
            if j == list.len() {
                assert(l.provider_reviewers.contains_key(p2));
                assert(l.reviews.contains_key((l.provider_reviewers[p2][i]@, p2)));
            } else {
                assert(l.provider_reviewers[p2][i]@ != l.provider_reviewers[p2][j]@);
            }
        } else {
            assert(l.provider_reviewers[p2][i]@ != l.provider_reviewers[p2][j]@);
        }
    }
    assert forall|k: (Seq<char>, Seq<char>)| #[trigger] n.reviews.contains_key(k) implies names(n.reviewers(k.1), k.0) by {
        if k == (r, p) {
            assert(n.reviewers(p)[list.len() as int]@ == r);
        } else {
            assert(l.reviews.contains_key(k));
            assert(names(l.reviewers(k.1), k.0));
            let w = choose|w: int| 0 <= w < l.reviewers(k.1).len() && #[trigger] l.reviewers(k.1)[w]@ == k.0;
            assert(n.reviewers(k.1)[w]@ == k.0);
        }
    }
    lemma_visitors_frame(l, n);
}

/// Replacing a payment reputation by one with a score of at most 100, for
/// the same owner, keeps the invariant.
pub proof fn lemma_payment_keeps_inv(l: TravelLedger, owner: Seq<char>, rep: PaymentReputation)
    requires
        l.inv(),
        l.payment_reps.contains_key(owner),
        rep.owner@ == owner,
        rep.score <= 100,
        payment_record_ok(rep),
    ensures
        l.with_payment_rep(owner, rep).inv(),
{
    let n = l.with_payment_rep(owner, rep);
    assert(n.payment_reps.dom() =~= n.travelers.dom());
    lemma_visitors_frame(l, n);
}

/// Setting a traveler's trust score keeps the invariant.
pub proof fn lemma_trust_score_keeps_inv(l: TravelLedger, traveler: Seq<char>, score: u32)
    requires
        l.inv(),
        l.travelers.contains_key(traveler),
    ensures
        l.with_trust_score(traveler, score).inv(),
{
    let n = l.with_trust_score(traveler, score);
    assert(n.payment_reps.dom() =~= n.travelers.dom());
    lemma_visitors_frame(l, n);
}

/// Registering a new, unverified and unrated provider keeps the invariant.
pub proof fn lemma_provider_keeps_inv(l: TravelLedger, profile: ProviderProfile)
    requires
        l.inv(),
        l.admin is Some,
        !l.providers.contains_key(profile.owner@),
        !profile.is_verified,
        profile.avg_rating == 0,
        profile.total_ratings == 0,
    ensures
        l.with_provider(profile).inv(),
{
    let n = l.with_provider(profile);
    assert forall|k: (Seq<char>, u64)| #[trigger] n.checkins.contains_key(k) implies {
        let c = n.checkins[k];
        &&& n.providers.contains_key(c.confirmed_by@)
        &&& n.providers[c.confirmed_by@].is_verified
    } by {
        assert(l.checkins.contains_key(k));
    }
    assert(n.ratings_bounded());
    lemma_visitors_frame(l, n);
}

/// Registering a place under a new id keeps the invariant.
pub proof fn lemma_place_keeps_inv(l: TravelLedger, place: PlaceInfo)
    requires
        l.inv(),
        l.admin is Some,
        !l.places.contains_key(place.id@),
        place.total_visitors == 0,
    ensures
        l.with_place(place).inv(),
{
    let n = l.with_place(place);
    assert(!l.place_visitors.contains_key(place.id@));
    assert(n.records_keyed());
    lemma_visitors_frame(l, n);
}

/// `country_codes` lists, for each id, the country code of that check-in.
pub proof fn lemma_country_codes_index(
    checkins: Map<(Seq<char>, u64), CheckInRecord>,
    traveler: Seq<char>,
    ids: Seq<u64>,
)
    ensures
        country_codes(checkins, traveler, ids).len() == ids.len(),
        forall|j: int|
            0 <= j < ids.len() ==> #[trigger] country_codes(checkins, traveler, ids)[j]
                == checkins[(traveler, ids[j])].country_code@,
    decreases ids.len(),
{
    if ids.len() > 0 {
        lemma_country_codes_index(checkins, traveler, ids.drop_last());
        assert forall|j: int| 0 <= j < ids.len() implies #[trigger] country_codes(checkins, traveler, ids)[j]
            == checkins[(traveler, ids[j])].country_code@ by {
            if j < ids.len() - 1 {
                assert(ids.drop_last()[j] == ids[j]);
            }
        }
    }
}

/// `country_codes` only reads the check-ins it lists.
pub proof fn lemma_country_codes_frame(
    m1: Map<(Seq<char>, u64), CheckInRecord>,
    m2: Map<(Seq<char>, u64), CheckInRecord>,
    traveler: Seq<char>,
    ids: Seq<u64>,
)
    requires
        forall|j: int| 0 <= j < ids.len() ==> m1[(traveler, #[trigger] ids[j])] == m2[(traveler, ids[j])],
    ensures
        country_codes(m1, traveler, ids) == country_codes(m2, traveler, ids),
    decreases ids.len(),
{
    if ids.len() > 0 {
        assert forall|j: int| 0 <= j < ids.drop_last().len() implies m1[(traveler, #[trigger] ids.drop_last()[j])]
            == m2[(traveler, ids.drop_last()[j])] by {
            assert(ids.drop_last()[j] == ids[j]);
        }
        lemma_country_codes_frame(m1, m2, traveler, ids.drop_last());
    }
}

/// One more check-in appends its country code.
pub proof fn lemma_country_codes_push(
    checkins: Map<(Seq<char>, u64), CheckInRecord>,
    traveler: Seq<char>,
    ids: Seq<u64>,
    id: u64,
)
    ensures
        country_codes(checkins, traveler, ids.push(id)) == country_codes(checkins, traveler, ids).push(
            checkins[(traveler, id)].country_code@,
        ),
{
    assert(ids.push(id).drop_last() =~= ids);
}

/// Appending an entry adds one to the distinct count exactly when it is new.
pub proof fn lemma_distinct_count_push(s: Seq<Seq<char>>, x: Seq<char>)
    ensures
        distinct_count(s.push(x)) == distinct_count(s) + if s.contains(x) {
            0nat
        } else {
            1nat
        },
{
    assert(s.push(x).drop_last() =~= s);
}

/// There are no more distinct entries than entries.
pub proof fn lemma_distinct_count_bounded(s: Seq<Seq<char>>)
    ensures
        distinct_count(s) <= s.len(),
    decreases s.len(),
{
    if s.len() > 0 {
        lemma_distinct_count_bounded(s.drop_last());
    }
}

/// Visitor lists stay sound while they and the check-ins do not change.
pub proof fn lemma_visitors_frame(l: TravelLedger, n: TravelLedger)
    requires
        l.visitor_lists_sound(),
        n.place_visitors == l.place_visitors,
        n.checkins == l.checkins,
    ensures
        n.visitor_lists_sound(),
{
}

/// Registering a new traveler, with its payment record, keeps the invariant.
pub proof fn lemma_traveler_keeps_inv(
    l: TravelLedger,
    owner: Address,
    display_name: String,
    country_code: String,
    now: u64,
)
    requires
        l.inv(),
        l.register_traveler_error(owner) is None,
    ensures
        l.with_traveler(owner, display_name, country_code, now).inv(),
{
    let n = l.with_traveler(owner, display_name, country_code, now);
    assert(n.payment_reps.dom() =~= n.travelers.dom());
    assert(!l.traveler_checkins.contains_key(owner@));
    assert(n.countries_of(owner@) =~= Seq::<Seq<char>>::empty());
    lemma_visitors_frame(l, n);
}

/// Appending a traveler to a place's visitor list, with a check-in of that
/// traveler at that place, keeps the visitor lists sound.
pub proof fn lemma_visitors_push(
    pv: Map<Seq<char>, Seq<Address>>,
    ck: Map<(Seq<char>, u64), CheckInRecord>,
    ck2: Map<(Seq<char>, u64), CheckInRecord>,
    place: Seq<char>,
    traveler: Address,
    id: u64,
)
    requires
        visitors_sound(pv, ck),
        forall|k: (Seq<char>, u64)| #[trigger] ck.contains_key(k) ==> ck2.contains_key(k) && ck2[k] == ck[k],
        ck2.contains_key((traveler@, id)),
        ck2[(traveler@, id)].place_id@ == place,
    ensures
        visitors_sound(pv.insert(place, list_at(pv, place).push(traveler)), ck2),
{
    let pv2 = pv.insert(place, list_at(pv, place).push(traveler));
    assert forall|p: Seq<char>, i: int|
        #![trigger pv2[p][i]]
        pv2.contains_key(p) && 0 <= i < pv2[p].len() implies visited(ck2, pv2[p][i]@, p) by {
        if p == place && i == list_at(pv, place).len() {
            assert(pv2[p][i] == traveler);
            assert(ck2.contains_key((traveler@, id)));
        } else {
            assert(pv.contains_key(p));
            assert(pv2[p][i] == pv[p][i]);
            assert(visited(ck, pv[p][i]@, p));
            let cid = choose|cid: u64| ck.contains_key((pv[p][i]@, cid)) && ck[(pv[p][i]@, cid)].place_id@ == p;
            assert(ck2.contains_key((pv2[p][i]@, cid)));
        }
    }
}

/// A ledger keeps its own records.
pub proof fn lemma_keeps_refl(l: TravelLedger)
    ensures
        l.keeps_records(l),
{
    assert forall|k: Seq<char>| #[trigger] l.traveler_checkins.contains_key(k) implies l.traveler_checkins[k].is_prefix_of(
        list_at(l.traveler_checkins, k),
    ) by {
        assert(l.traveler_checkins[k] =~= l.traveler_checkins[k].subrange(0, l.traveler_checkins[k].len() as int));
    }
    assert forall|k: Seq<char>| #[trigger] l.place_visitors.contains_key(k) implies l.place_visitors[k].is_prefix_of(
        list_at(l.place_visitors, k),
    ) by {
        assert(l.place_visitors[k] =~= l.place_visitors[k].subrange(0, l.place_visitors[k].len() as int));
    }
    assert forall|k: Seq<char>| #[trigger] l.provider_reviewers.contains_key(k) implies l.provider_reviewers[k].is_prefix_of(
        list_at(l.provider_reviewers, k),
    ) by {
        assert(l.provider_reviewers[k] =~= l.provider_reviewers[k].subrange(0, l.provider_reviewers[k].len() as int));
    }
    assert forall|k: Seq<char>| #[trigger] l.owner_badges.contains_key(k) implies l.owner_badges[k].is_prefix_of(
        list_at(l.owner_badges, k),
    ) by {
        assert(l.owner_badges[k] =~= l.owner_badges[k].subrange(0, l.owner_badges[k].len() as int));
    }
}

/// Keeping records is transitive.
pub proof fn lemma_keeps_trans(a: TravelLedger, b: TravelLedger, c: TravelLedger)
    requires
        a.keeps_records(b),
        b.keeps_records(c),
    ensures
        a.keeps_records(c),
{
    assert forall|k: Seq<char>| #[trigger] a.traveler_checkins.contains_key(k) implies a.traveler_checkins[k].is_prefix_of(
        list_at(c.traveler_checkins, k),
    ) by {
        lemma_prefix_trans(a.traveler_checkins[k], list_at(b.traveler_checkins, k), list_at(c.traveler_checkins, k));
    }
    assert forall|k: Seq<char>| #[trigger] a.place_visitors.contains_key(k) implies a.place_visitors[k].is_prefix_of(
        list_at(c.place_visitors, k),
    ) by {
        lemma_prefix_trans(a.place_visitors[k], list_at(b.place_visitors, k), list_at(c.place_visitors, k));
    }
    assert forall|k: Seq<char>| #[trigger] a.provider_reviewers.contains_key(k) implies a.provider_reviewers[k].is_prefix_of(
        list_at(c.provider_reviewers, k),
    ) by {
        lemma_prefix_trans(a.provider_reviewers[k], list_at(b.provider_reviewers, k), list_at(c.provider_reviewers, k));
    }
    assert forall|k: Seq<char>| #[trigger] a.owner_badges.contains_key(k) implies a.owner_badges[k].is_prefix_of(
        list_at(c.owner_badges, k),
    ) by {
        lemma_prefix_trans(a.owner_badges[k], list_at(b.owner_badges, k), list_at(c.owner_badges, k));
    }
}

/// A prefix of a prefix is a prefix; the empty list is a prefix of any list.
pub proof fn lemma_prefix_trans<T>(x: Seq<T>, y: Seq<T>, z: Seq<T>)
    requires
        x.is_prefix_of(y) || x.len() == 0,
        y.is_prefix_of(z) || (y.len() == 0 && x.len() == 0),
    ensures
        x.is_prefix_of(z),
{
    if x.len() > 0 {
        assert forall|i: int| 0 <= i < x.len() implies x[i] == z[i] by {
            assert(x[i] == y.subrange(0, x.len() as int)[i]);
            assert(y[i] == z.subrange(0, y.len() as int)[i]);
        }
    }
    assert(x =~= z.subrange(0, x.len() as int));
}

/// Appending to a list keeps its old entries as a prefix.
pub proof fn lemma_prefix_push<T>(x: Seq<T>, v: T)
    ensures
        x.is_prefix_of(x.push(v)),
{
    assert(x =~= x.push(v).subrange(0, x.len() as int));
}

/// A map of lists keeps its own lists.
pub proof fn lemma_lists_kept_refl<T>(m: Map<Seq<char>, Seq<T>>)
    ensures
        lists_kept(m, m),
{
    assert forall|k: Seq<char>| #[trigger] m.contains_key(k) implies m[k].is_prefix_of(list_at(m, k)) by {
        assert(m[k] =~= m[k].subrange(0, m[k].len() as int));
    }
}

/// Appending to the list under one key keeps every list.
pub proof fn lemma_lists_kept_push<T>(m: Map<Seq<char>, Seq<T>>, key: Seq<char>, v: T)
    ensures
        lists_kept(m, m.insert(key, list_at(m, key).push(v))),
{
    let m2 = m.insert(key, list_at(m, key).push(v));
    assert forall|k: Seq<char>| #[trigger] m.contains_key(k) implies m[k].is_prefix_of(list_at(m2, k)) by {
        if k == key {
            lemma_prefix_push(m[k], v);
        } else {
            assert(m[k] =~= m[k].subrange(0, m[k].len() as int));
        }
    }
}

/// Minting a badge keeps every record and the admin.
pub proof fn lemma_minted_keeps(
    l: TravelLedger,
    next: TravelLedger,
    owner: Address,
    badge_type: BadgeType,
    title: Seq<char>,
    now: u64,
)
    requires
        l.inv(),
        l.badge_fits(owner@),
        l.minted(next, owner, badge_type, title, now),
    ensures
        l.keeps_records(next),
        next.admin == l.admin,
{
    let id = l.next_badge_id(owner@) as u32;
    assert(!l.badges.contains_key((owner@, id)));
    lemma_lists_kept_refl(l.traveler_checkins);
    lemma_lists_kept_refl(l.place_visitors);
    lemma_lists_kept_refl(l.provider_reviewers);
    lemma_lists_kept_push(l.owner_badges, owner@, id);
}

/// Minting a badge unless one is held keeps every record and the admin.
pub proof fn lemma_minted_unless_held_keeps(
    l: TravelLedger,
    next: TravelLedger,
    owner: Address,
    badge_type: BadgeType,
    title: Seq<char>,
    now: u64,
)
    requires
        l.inv(),
        !l.has_active_badge(owner@, badge_type) ==> l.badge_fits(owner@),
        l.minted_unless_held(next, owner, badge_type, title, now),
    ensures
        l.keeps_records(next),
        next.admin == l.admin,
{
    if l.has_active_badge(owner@, badge_type) {
        lemma_keeps_refl(l);
    } else {
        lemma_minted_keeps(l, next, owner, badge_type, title, now);
    }
}

} // verus!
