//! The TravelID contract: its ledger and the requests it answers.

use vstd::prelude::*;
use crate::ledger::{
    is_checkin_milestone, lemma_country_codes_index, lemma_distinct_count_bounded, lemma_traveler_keeps_inv, lemma_checkin_keeps_inv, lemma_mint_keeps_inv, lemma_payment_keeps_inv,
    lemma_place_keeps_inv, lemma_provider_keeps_inv, lemma_review_keeps_inv, lemma_trust_score_keeps_inv,
    lemma_verify_keeps_inv, TravelLedger,
};
use crate::score::{compute_payment_score, compute_trust_score, payment_score_within_limits};
use crate::table::{Table, TableKey};
use crate::types::{
    Address, BadgeRecord, BadgeType, CheckInRecord, PaymentReputation, PlaceInfo, ProviderProfile, ReviewRecord,
    TravelError, TravelerProfile,
};

verus! {

/// The contract's ledger: the admin, the check-in counter and every table.
pub struct TravelIDContract {
    admin: Option<Address>,
    id_count: u64,
    travelers: Table<Address, TravelerProfile>,
    providers: Table<Address, ProviderProfile>,
    checkins: Table<(Address, u64), CheckInRecord>,
    traveler_checkins: Table<Address, Vec<u64>>,
    place_visitors: Table<String, Vec<Address>>,
    reviews: Table<(Address, Address), ReviewRecord>,
    provider_reviewers: Table<Address, Vec<Address>>,
    badges: Table<(Address, u32), BadgeRecord>,
    owner_badges: Table<Address, Vec<u32>>,
    payment_reps: Table<Address, PaymentReputation>,
    places: Table<String, PlaceInfo>,
}

impl View for TravelIDContract {
    type V = TravelLedger;

    closed spec fn view(&self) -> TravelLedger {
        TravelLedger {
            admin: self.admin,
            id_count: self.id_count,
            travelers: self.travelers@,
            providers: self.providers@,
            checkins: self.checkins@,
            traveler_checkins: self.traveler_checkins@,
            place_visitors: self.place_visitors@,
            reviews: self.reviews@,
            provider_reviewers: self.provider_reviewers@,
            badges: self.badges@,
            owner_badges: self.owner_badges@,
            payment_reps: self.payment_reps@,
            places: self.places@,
        }
    }
}

impl TravelIDContract {
    /// The tables are well formed and the ledger keeps its invariant.
    pub closed spec fn wf(&self) -> bool {
        &&& self.travelers.wf()
        &&& self.providers.wf()
        &&& self.checkins.wf()
        &&& self.traveler_checkins.wf()
        &&& self.place_visitors.wf()
        &&& self.reviews.wf()
        &&& self.provider_reviewers.wf()
        &&& self.badges.wf()
        &&& self.owner_badges.wf()
        &&& self.payment_reps.wf()
        &&& self.places.wf()
        &&& self@.inv()
    }

    /// A well-formed contract's ledger keeps the invariant of `TravelLedger::inv`.
    pub proof fn lemma_wf_inv(&self)
        requires
            self.wf(),
        ensures
            self@.inv(),
    {
    }

    /// A ledger on which `initialize` has not been called.
    pub fn new() -> (c: Self)
        ensures
            c.wf(),
            c@ == TravelLedger::empty(),
    {
        let c = TravelIDContract {
            admin: None,
            id_count: 0,
            travelers: Table::new(),
            providers: Table::new(),
            checkins: Table::new(),
            traveler_checkins: Table::new(),
            place_visitors: Table::new(),
            reviews: Table::new(),
            provider_reviewers: Table::new(),
            badges: Table::new(),
            owner_badges: Table::new(),
            payment_reps: Table::new(),
            places: Table::new(),
        };
        assert(c@ == TravelLedger::empty());
        c
    }

    // ── Initialization ───────────────────────────────────────────────────

    /// Sets the admin and the check-in counter, once.
    pub fn initialize(&mut self, admin: Address) -> (r: Result<(), TravelError>)
        requires
            old(self).wf(),
        ensures
            final(self).wf(),
            match r {
                Ok(()) => old(self)@.admin is None && final(self)@ == old(self)@.initialized_with(admin),
                Err(e) => old(self)@.admin is Some && e == TravelError::AlreadyInitialized
                    && final(self)@ == old(self)@,
            },
    {
        if self.admin.is_some() {
            return Err(TravelError::AlreadyInitialized);
        }
        self.admin = Some(admin);
        self.id_count = 0;
        Ok(())
    }

    // ── Traveler ─────────────────────────────────────────────────────────

    /// Registers a traveler profile, with trust score 500, and its payment
    /// reputation, with score 100.
    pub fn register_traveler(
        &mut self,
        owner: Address,
        display_name: String,
        country_code: String,
        now: u64,
    ) -> (r: Result<(), TravelError>)
        requires
            old(self).wf(),
        ensures
            final(self).wf(),
            old(self)@.register_traveler_outcome(final(self)@, r, owner, display_name, country_code, now),
    {
        self.assert_initialized()?;
        if self.travelers.contains_key(&owner) {
            return Err(TravelError::ProfileAlreadyExists);
        }
        let profile = TravelerProfile {
            owner: owner.clone(),
            display_name,
            country_code,
            total_checkins: 0,
            total_reviews: 0,
            countries_visited: 0,
            trust_score: 500,
            registered_at: now,
        };
        let rep = PaymentReputation {
            owner: owner.clone(),
            total_deposits: 0,
            successful_refunds: 0,
            disputes: 0,
            dispute_wins: 0,
            score: 100,
            last_updated: now,
        };
        let ghost old_ledger = self@;
        self.travelers.insert(owner.clone(), profile);
        self.payment_reps.insert(owner, rep);
        proof {
            let next = old_ledger.with_traveler(owner, display_name, country_code, now);
            assert(self@ == next);
            assert(self@.payment_reps.dom() =~= self@.travelers.dom());
        }
        Ok(())
    }

    /// The traveler profile of `owner`.
    pub fn get_traveler(&self, owner: Address) -> (r: Result<TravelerProfile, TravelError>)
        requires
            self.wf(),
        ensures
            r == (if self@.travelers.contains_key(owner@) {
                Ok::<TravelerProfile, TravelError>(self@.travelers[owner@])
            } else {
                Err(TravelError::ProfileNotFound)
            }),
    {
        match self.travelers.get(&owner) {
            Some(p) => Ok(p.clone()),
            None => Err(TravelError::ProfileNotFound),
        }
    }

    // ── Provider ─────────────────────────────────────────────────────────

    /// Registers an unverified provider profile.
    pub fn register_provider(
        &mut self,
        owner: Address,
        business_name: String,
        category: String,
        country_code: String,
        license_number: String,
        now: u64,
    ) -> (r: Result<(), TravelError>)
        requires
            old(self).wf(),
        ensures
            final(self).wf(),
            old(self)@.register_provider_outcome(
                final(self)@,
                r,
                owner,
                business_name,
                category,
                country_code,
                license_number,
                now,
            ),
    {
        self.assert_initialized()?;
        if self.providers.contains_key(&owner) {
            return Err(TravelError::ProfileAlreadyExists);
        }
        let profile = ProviderProfile {
            owner: owner.clone(),
            business_name,
            category,
            country_code,
            license_number,
            avg_rating: 0,
            total_ratings: 0,
            is_verified: false,
            registered_at: now,
        };
        let ghost old_ledger = self@;
        let ghost profile_value = profile;
        self.providers.insert(owner, profile);
        proof {
            assert(self@ == old_ledger.with_provider(profile_value));
            lemma_provider_keeps_inv(old_ledger, profile_value);
        }
        Ok(())
    }

    /// The provider profile of `owner`.
    pub fn get_provider(&self, owner: Address) -> (r: Result<ProviderProfile, TravelError>)
        requires
            self.wf(),
        ensures
            r == (if self@.providers.contains_key(owner@) {
                Ok::<ProviderProfile, TravelError>(self@.providers[owner@])
            } else {
                Err(TravelError::ProfileNotFound)
            }),
    {
        match self.providers.get(&owner) {
            Some(p) => Ok(p.clone()),
            None => Err(TravelError::ProfileNotFound),
        }
    }

    /// The admin verifies a provider's license, and mints the provider a
    /// VerifiedProvider badge.
    pub fn verify_provider(&mut self, admin: Address, provider: Address, now: u64) -> (r: Result<(), TravelError>)
        requires
            old(self).wf(),
            old(self)@.verify_provider_fits(admin, provider),
        ensures
            final(self).wf(),
            old(self)@.verify_provider_outcome(final(self)@, r, admin, provider, now),
    {
        self.assert_admin(&admin)?;
        let mut profile = match self.providers.get(&provider) {
            Some(p) => p.clone(),
            None => return Err(TravelError::ProfileNotFound),
        };
        profile.is_verified = true;
        let ghost old_ledger = self@;
        self.providers.insert(provider.clone(), profile);
        proof {
            assert(self@ == old_ledger.with_verified_provider(provider@));
            lemma_verify_keeps_inv(old_ledger, provider@);
        }
        self.mint_badge(provider, BadgeType::VerifiedProvider, "Nhà cung cấp đã xác minh".to_owned(), now);
        Ok(())
    }

    // ── Place registry ───────────────────────────────────────────────────

    /// Registers a place under an id not used before.
    pub fn register_place(
        &mut self,
        registrar: Address,
        place_id: String,
        name: String,
        country_code: String,
        category: String,
        description: String,
        now: u64,
    ) -> (r: Result<(), TravelError>)
        requires
            old(self).wf(),
        ensures
            final(self).wf(),
            old(self)@.register_place_outcome(
                final(self)@,
                r,
                registrar,
                place_id,
                name,
                country_code,
                category,
                description,
                now,
            ),
    {
        self.assert_initialized()?;
        if self.places.contains_key(&place_id) {
            return Err(TravelError::InvalidInput);
        }
        let info = PlaceInfo {
            id: place_id.clone(),
            name,
            country_code,
            category,
            description,
            total_visitors: 0,
            avg_rating: 0,
            registered_by: registrar,
            registered_at: now,
        };
        let ghost old_ledger = self@;
        let ghost info_value = info;
        self.places.insert(place_id, info);
        proof {
            assert(self@ == old_ledger.with_place(info_value));
            lemma_place_keeps_inv(old_ledger, info_value);
        }
        Ok(())
    }

    /// The place registered under `place_id`.
    pub fn get_place(&self, place_id: String) -> (r: Result<PlaceInfo, TravelError>)
        requires
            self.wf(),
        ensures
            r == (if self@.places.contains_key(place_id@) {
                Ok::<PlaceInfo, TravelError>(self@.places[place_id@])
            } else {
                Err(TravelError::PlaceNotFound)
            }),
    {
        match self.places.get(&place_id) {
            Some(p) => Ok(p.clone()),
            None => Err(TravelError::PlaceNotFound),
        }
    }

    /// The travelers checked in at `place_id`, in order (empty if none).
    pub fn get_place_visitors(&self, place_id: String) -> (r: Vec<Address>)
        requires
            self.wf(),
        ensures
            r@ == self@.visitors(place_id@),
    {
        match self.place_visitors.get(&place_id) {
            Some(v) => v.clone(),
            None => Vec::new(),
        }
    }

    // ── Check-in ─────────────────────────────────────────────────────────

    /// A verified provider confirms a traveler's visit to a registered
    /// place; the check-in gets the next id. Milestone badges follow at
    /// 10, 25, 50 and 100 check-ins.
    pub fn confirm_checkin(
        &mut self,
        provider: Address,
        traveler: Address,
        place_id: String,
        note: String,
        now: u64,
    ) -> (r: Result<u64, TravelError>)
        requires
            old(self).wf(),
            old(self)@.confirm_checkin_fits(provider, traveler, place_id),
        ensures
            final(self).wf(),
            old(self)@.confirm_checkin_outcome(final(self)@, r, provider, traveler, place_id, note, now),
    {
        self.assert_initialized()?;
        let verified = match self.providers.get(&provider) {
            Some(p) => p.is_verified,
            None => return Err(TravelError::ProfileNotFound),
        };
        if !verified {
            return Err(TravelError::ProviderNotVerified);
        }
        let mut traveler_profile = match self.travelers.get(&traveler) {
            Some(t) => t.clone(),
            None => return Err(TravelError::ProfileNotFound),
        };
        let mut place = match self.places.get(&place_id) {
            Some(p) => p.clone(),
            None => return Err(TravelError::PlaceNotFound),
        };
        let ghost old_ledger = self@;
        let ghost provider_value = provider;
        let ghost place_id_value = place_id;
        let ghost note_value = note;

        // Is the place's country new among the traveler's check-ins?
        let visited_ids = match self.traveler_checkins.get(&traveler) {
            Some(v) => v.clone(),
            None => Vec::new(),
        };
        let ghost countries = old_ledger.countries_of(traveler@);
        proof {
            lemma_country_codes_index(old_ledger.checkins, traveler@, visited_ids@);
        }
        let mut seen = false;
        let mut i: usize = 0;
        while i < visited_ids.len()
            invariant
                self.wf(),
                self@ == old_ledger,
                visited_ids@ == old_ledger.checkin_ids(traveler@),
                countries == old_ledger.countries_of(traveler@),
                countries.len() == visited_ids@.len(),
                forall|j: int|
                    0 <= j < visited_ids@.len() ==> #[trigger] countries[j]
                        == old_ledger.checkins[(traveler@, visited_ids@[j])].country_code@,
                place@ == old_ledger.places[place_id_value@],
                i <= visited_ids@.len(),
                seen <==> exists|j: int| 0 <= j < i && #[trigger] countries[j] == place.country_code@,
            decreases visited_ids@.len() - i,
        {
            proof {
                if old_ledger.traveler_checkins.contains_key(traveler@) {
                    assert(old_ledger.checkins.contains_key((traveler@, old_ledger.traveler_checkins[traveler@][i as int])));
                }
            }
            if let Some(c) = self.checkins.get(&(traveler.clone(), visited_ids[i])) {
                if c.country_code == place.country_code {
                    seen = true;
                }
            }
            proof {
                assert(countries[i as int] == old_ledger.checkins[(traveler@, visited_ids@[i as int])].country_code@);
            }
            i = i + 1;
        }
        proof {
            assert(seen <==> countries.contains(place.country_code@));
            lemma_distinct_count_bounded(countries);
            assert(old_ledger.travelers.contains_key(traveler@));
        }
        if !seen {
            traveler_profile.countries_visited = traveler_profile.countries_visited + 1;
        }

        // Monotonic check-in id
        let checkin_id = self.id_count + 1;
        self.id_count = checkin_id;

        let record = CheckInRecord {
            id: checkin_id,
            traveler: traveler.clone(),
            place_id: place_id.clone(),
            place_name: place.name.clone(),
            country_code: place.country_code.clone(),
            confirmed_by: provider,
            visited_at: now,
            note,
        };
        self.checkins.insert((traveler.clone(), checkin_id), record);

        // Append to the traveler's list
        let mut clist = match self.traveler_checkins.get(&traveler) {
            Some(v) => v.clone(),
            None => Vec::new(),
        };
        clist.push(checkin_id);
        self.traveler_checkins.insert(traveler.clone(), clist);

        // Append to the place's visitors
        let mut visitors = match self.place_visitors.get(&place_id) {
            Some(v) => v.clone(),
            None => Vec::new(),
        };
        visitors.push(traveler.clone());
        self.place_visitors.insert(place_id.clone(), visitors);

        // Traveler and place stats
        traveler_profile.total_checkins = traveler_profile.total_checkins + 1;
        let total = traveler_profile.total_checkins;
        self.travelers.insert(traveler.clone(), traveler_profile);
        place.total_visitors = place.total_visitors + 1;
        self.places.insert(place_id, place);

        proof {
            assert(self@ == old_ledger.with_checkin(provider_value, traveler, place_id_value, note_value, now));
            lemma_checkin_keeps_inv(old_ledger, provider_value, traveler, place_id_value, note_value, now);
        }
        self.check_checkin_badges(&traveler, total, now);
        Ok(checkin_id)
    }

    // ── Check-in lookups ─────────────────────────────────────────────────

    /// The check-in `checkin_id` of `traveler`.
    pub fn get_checkin(&self, traveler: Address, checkin_id: u64) -> (r: Result<CheckInRecord, TravelError>)
        requires
            self.wf(),
        ensures
            r == (if self@.checkins.contains_key((traveler@, checkin_id)) {
                Ok::<CheckInRecord, TravelError>(self@.checkins[(traveler@, checkin_id)])
            } else {
                Err(TravelError::CheckInNotFound)
            }),
    {
        match self.checkins.get(&(traveler, checkin_id)) {
            Some(c) => Ok(c.clone()),
            None => Err(TravelError::CheckInNotFound),
        }
    }

    /// The check-in ids of `traveler`, in order (empty if none).
    pub fn list_checkins(&self, traveler: Address) -> (r: Vec<u64>)
        requires
            self.wf(),
        ensures
            r@ == self@.checkin_ids(traveler@),
    {
        match self.traveler_checkins.get(&traveler) {
            Some(v) => v.clone(),
            None => Vec::new(),
        }
    }

    // ── Reviews ──────────────────────────────────────────────────────────

    /// Leaves a review. It must link to a check-in of the author that this
    /// provider confirmed, and each author rates a provider once.
    /// The provider's average and the author's count are updated; the
    /// TrustedReviewer badge follows at 20 reviews.
    pub fn leave_review(
        &mut self,
        reviewer: Address,
        provider: Address,
        checkin_id: u64,
        rating: u32,
        comment: String,
        now: u64,
    ) -> (r: Result<(), TravelError>)
        requires
            old(self).wf(),
            old(self)@.leave_review_fits(reviewer, provider, checkin_id, rating),
        ensures
            final(self).wf(),
            old(self)@.leave_review_outcome(final(self)@, r, reviewer, provider, checkin_id, rating, comment, now),
    {
        self.assert_initialized()?;
        if rating < 1 || rating > 5 {
            return Err(TravelError::InvalidRating);
        }
        let mut trav = match self.travelers.get(&reviewer) {
            Some(t) => t.clone(),
            None => return Err(TravelError::ProfileNotFound),
        };
        let confirmed = match self.checkins.get(&(reviewer.clone(), checkin_id)) {
            Some(c) => c.confirmed_by.same_key(&provider),
            None => return Err(TravelError::CheckInNotFound),
        };
        if !confirmed {
            return Err(TravelError::CheckInNotConfirmed);
        }
        if self.reviews.contains_key(&(reviewer.clone(), provider.clone())) {
            return Err(TravelError::ReviewAlreadyExists);
        }
        // Every check comes before the first write, so a refused review
        // leaves the ledger as it was.
        let mut prov = match self.providers.get(&provider) {
            Some(p) => p.clone(),
            None => return Err(TravelError::ProfileNotFound),
        };
        let ghost old_ledger = self@;
        let ghost provider_value = provider;
        let ghost comment_value = comment;

        let record = ReviewRecord {
            reviewer: reviewer.clone(),
            provider: provider.clone(),
            checkin_id,
            rating,
            comment,
            reviewed_at: now,
            is_flagged: false,
        };
        self.reviews.insert((reviewer.clone(), provider.clone()), record);

        // Provider's list of authors
        let mut plist = match self.provider_reviewers.get(&provider) {
            Some(v) => v.clone(),
            None => Vec::new(),
        };
        plist.push(reviewer.clone());
        self.provider_reviewers.insert(provider.clone(), plist);

        // Provider's average rating
        let n = prov.total_ratings + 1;
        prov.avg_rating = (prov.avg_rating * prov.total_ratings + rating * 100) / n;
        prov.total_ratings = n;
        self.providers.insert(provider, prov);

        // Author's stats
        trav.total_reviews = trav.total_reviews + 1;
        let total_reviews = trav.total_reviews;
        self.travelers.insert(reviewer.clone(), trav);

        proof {
            assert(self@ == old_ledger.with_review(reviewer, provider_value, checkin_id, rating, comment_value, now));
            lemma_review_keeps_inv(old_ledger, reviewer, provider_value, checkin_id, rating, comment_value, now);
        }
        // TrustedReviewer badge at 20 reviews
        if total_reviews >= 20 {
            self.try_mint_badge(reviewer, BadgeType::TrustedReviewer, "Người đánh giá uy tín".to_owned(), now);
        }
        Ok(())
    }

    // ── Review lookups ───────────────────────────────────────────────────

    /// The review that the given author left for `provider`.
    pub fn get_review(&self, reviewer: Address, provider: Address) -> (r: Result<ReviewRecord, TravelError>)
        requires
            self.wf(),
        ensures
            r == (if self@.reviews.contains_key((reviewer@, provider@)) {
                Ok::<ReviewRecord, TravelError>(self@.reviews[(reviewer@, provider@)])
            } else {
                Err(TravelError::ReviewNotFound)
            }),
    {
        match self.reviews.get(&(reviewer, provider)) {
            Some(rv) => Ok(rv.clone()),
            None => Err(TravelError::ReviewNotFound),
        }
    }

    /// The review authors of `provider`, in order (empty if none).
    pub fn list_provider_reviewers(&self, provider: Address) -> (r: Vec<Address>)
        requires
            self.wf(),
        ensures
            r@ == self@.reviewers(provider@),
    {
        match self.provider_reviewers.get(&provider) {
            Some(v) => v.clone(),
            None => Vec::new(),
        }
    }

    /// The admin flags a suspicious review.
    pub fn flag_review(&mut self, admin: Address, reviewer: Address, provider: Address) -> (r: Result<(), TravelError>)
        requires
            old(self).wf(),
        ensures
            final(self).wf(),
            match r {
                Ok(()) => old(self)@.flag_review_error(admin, reviewer, provider) is None
                    && final(self)@ == old(self)@.with_flagged_review((reviewer@, provider@)),
                Err(e) => old(self)@.flag_review_error(admin, reviewer, provider) == Some(e)
                    && final(self)@ == old(self)@,
            },
    {
        self.assert_admin(&admin)?;
        let key = (reviewer, provider);
        let mut rv = match self.reviews.get(&key) {
            Some(rv) => rv.clone(),
            None => return Err(TravelError::ReviewNotFound),
        };
        rv.is_flagged = true;
        self.reviews.insert(key, rv);
        Ok(())
    }

    // ── Badge lookups ────────────────────────────────────────────────────

    /// The badge `badge_id` of `owner`.
    pub fn get_badge(&self, owner: Address, badge_id: u32) -> (r: Result<BadgeRecord, TravelError>)
        requires
            self.wf(),
        ensures
            r == (if self@.badges.contains_key((owner@, badge_id)) {
                Ok::<BadgeRecord, TravelError>(self@.badges[(owner@, badge_id)])
            } else {
                Err(TravelError::BadgeNotFound)
            }),
    {
        match self.badges.get(&(owner, badge_id)) {
            Some(b) => Ok(b.clone()),
            None => Err(TravelError::BadgeNotFound),
        }
    }

    /// The badge ids of `owner`, in minting order (empty if none).
    pub fn list_badges(&self, owner: Address) -> (r: Vec<u32>)
        requires
            self.wf(),
        ensures
            r@ == self@.badge_ids(owner@),
    {
        match self.owner_badges.get(&owner) {
            Some(v) => v.clone(),
            None => Vec::new(),
        }
    }

    /// The admin revokes a badge on fraud detection.
    pub fn revoke_badge(&mut self, admin: Address, owner: Address, badge_id: u32) -> (r: Result<(), TravelError>)
        requires
            old(self).wf(),
        ensures
            final(self).wf(),
            match r {
                Ok(()) => old(self)@.revoke_badge_error(admin, owner, badge_id) is None
                    && final(self)@ == old(self)@.with_revoked_badge((owner@, badge_id)),
                Err(e) => old(self)@.revoke_badge_error(admin, owner, badge_id) == Some(e)
                    && final(self)@ == old(self)@,
            },
    {
        self.assert_admin(&admin)?;
        let key = (owner, badge_id);
        let mut b = match self.badges.get(&key) {
            Some(b) => b.clone(),
            None => return Err(TravelError::BadgeNotFound),
        };
        b.is_revoked = true;
        self.badges.insert(key, b);
        Ok(())
    }

    // ── Payment reputation lookups ───────────────────────────────────────

    /// The payment reputation of `owner`.
    pub fn get_payment_rep(&self, owner: Address) -> (r: Result<PaymentReputation, TravelError>)
        requires
            self.wf(),
        ensures
            r == (if self@.payment_reps.contains_key(owner@) {
                Ok::<PaymentReputation, TravelError>(self@.payment_reps[owner@])
            } else {
                Err(TravelError::ProfileNotFound)
            }),
    {
        match self.payment_reps.get(&owner) {
            Some(p) => Ok(p.clone()),
            None => Err(TravelError::ProfileNotFound),
        }
    }

    /// The admin records a clean deposit and refund for `owner`, and the
    /// payment score is recomputed. The PaymentChampion badge follows at 10
    /// deposits without a dispute.
    pub fn record_payment_success(&mut self, admin: Address, owner: Address, now: u64) -> (r: Result<(), TravelError>)
        requires
            old(self).wf(),
            old(self)@.payment_success_fits(admin, owner),
        ensures
            final(self).wf(),
            old(self)@.payment_success_outcome(final(self)@, r, admin, owner, now),
    {
        self.assert_admin(&admin)?;
        let mut rep = match self.payment_reps.get(&owner) {
            Some(rep) => rep.clone(),
            None => return Err(TravelError::ProfileNotFound),
        };
        let ghost old_ledger = self@;
        rep.total_deposits = rep.total_deposits + 1;
        rep.successful_refunds = rep.successful_refunds + 1;
        rep.score = compute_payment_score(&rep);
        rep.last_updated = now;
        let champion = rep.disputes == 0 && rep.total_deposits >= 10;
        let ghost rep_value = rep;
        self.payment_reps.insert(owner.clone(), rep);
        proof {
            assert(self@ == old_ledger.with_payment_rep(owner@, rep_value));
            lemma_payment_keeps_inv(old_ledger, owner@, rep_value);
        }
        if champion {
            self.try_mint_badge(owner, BadgeType::PaymentChampion, "Thanh toán uy tín".to_owned(), now);
        }
        Ok(())
    }

    /// The admin records a dispute of `owner`, won or lost, and the payment
    /// score is recomputed.
    pub fn record_dispute(&mut self, admin: Address, owner: Address, won: bool, now: u64) -> (r: Result<(), TravelError>)
        requires
            old(self).wf(),
            old(self)@.dispute_fits(admin, owner, won),
        ensures
            final(self).wf(),
            old(self)@.dispute_outcome(final(self)@, r, admin, owner, won, now),
    {
        self.assert_admin(&admin)?;
        let mut rep = match self.payment_reps.get(&owner) {
            Some(rep) => rep.clone(),
            None => return Err(TravelError::ProfileNotFound),
        };
        let ghost old_ledger = self@;
        rep.disputes = rep.disputes + 1;
        if won {
            rep.dispute_wins = rep.dispute_wins + 1;
        }
        rep.score = compute_payment_score(&rep);
        rep.last_updated = now;
        let ghost rep_value = rep;
        self.payment_reps.insert(owner, rep);
        proof {
            lemma_payment_keeps_inv(old_ledger, owner@, rep_value);
        }
        Ok(())
    }

    // ── Trust score ──────────────────────────────────────────────────────

    /// Recomputes the composite trust score of `traveler` (0 to 1000):
    /// 40% check-in activity (capped at 400), 30% review count (capped at
    /// 300), 30% payment reputation (0 to 100 becomes 0 to 300).
    pub fn update_trust_score(&mut self, traveler: Address) -> (r: Result<u32, TravelError>)
        requires
            old(self).wf(),
            old(self)@.trust_score_fits(traveler@),
        ensures
            final(self).wf(),
            match r {
                Ok(score) => {
                    &&& old(self)@.travelers.contains_key(traveler@)
                    &&& score == old(self)@.trust_score_of(traveler@)
                    &&& score <= 1000
                    &&& final(self)@ == old(self)@.with_trust_score(traveler@, score)
                },
                Err(e) => !old(self)@.travelers.contains_key(traveler@) && e == TravelError::ProfileNotFound
                    && final(self)@ == old(self)@,
            },
    {
        let mut profile = match self.travelers.get(&traveler) {
            Some(p) => p.clone(),
            None => return Err(TravelError::ProfileNotFound),
        };
        // A traveler without a payment record counts as score 100.
        let payment = match self.payment_reps.get(&traveler) {
            Some(rep) => rep.score,
            None => 100,
        };
        let score = compute_trust_score(profile.total_checkins, profile.total_reviews, payment);
        profile.trust_score = score;
        let ghost old_ledger = self@;
        self.travelers.insert(traveler, profile);
        proof {
            lemma_trust_score_keeps_inv(old_ledger, traveler@, score);
        }
        Ok(score)
    }

    // ── Admin ────────────────────────────────────────────────────────────

    /// The admin address.
    pub fn get_admin(&self) -> (r: Result<Address, TravelError>)
        ensures
            r == (match self@.admin {
                Some(a) => Ok::<Address, TravelError>(a),
                None => Err(TravelError::NotInitialized),
            }),
    {
        match &self.admin {
            Some(a) => Ok(a.clone()),
            None => Err(TravelError::NotInitialized),
        }
    }

    /// Hands the admin role from `current` to `new_admin`.
    pub fn transfer_admin(&mut self, current: Address, new_admin: Address) -> (r: Result<(), TravelError>)
        requires
            old(self).wf(),
        ensures
            final(self).wf(),
            match r {
                Ok(()) => old(self)@.admin_error(current) is None
                    && final(self)@ == old(self)@.with_admin(new_admin),
                Err(e) => old(self)@.admin_error(current) == Some(e) && final(self)@ == old(self)@,
            },
    {
        self.assert_admin(&current)?;
        let ghost old_ledger = self@;
        self.admin = Some(new_admin);
        proof {
            assert(self@ == old_ledger.with_admin(new_admin));
            assert(self@.inv());
        }
        Ok(())
    }

    // ── Limits ───────────────────────────────────────────────────────────
    // Some requests raise `u32` and `u64` counters, which cannot grow past
    // their maximum. These tell a caller, before the request, whether it
    // stays within them.

    /// Whether `verify_provider` stays within `u32` badge ids.
    pub fn verify_provider_fits(&self, admin: &Address, provider: &Address) -> (b: bool)
        requires
            self.wf(),
        ensures
            b == self@.verify_provider_fits(*admin, *provider),
    {
        if self.assert_admin(admin).is_err() || !self.providers.contains_key(provider) {
            return true;
        }
        self.badge_count_fits(provider)
    }

    /// Whether `confirm_checkin` stays within its counters.
    pub fn confirm_checkin_fits(&self, provider: &Address, traveler: &Address, place_id: &String) -> (b: bool)
        requires
            self.wf(),
        ensures
            b == self@.confirm_checkin_fits(*provider, *traveler, *place_id),
    {
        if self.admin.is_none() {
            return true;
        }
        let verified = match self.providers.get(provider) {
            Some(p) => p.is_verified,
            None => return true,
        };
        if !verified {
            return true;
        }
        let total_checkins = match self.travelers.get(traveler) {
            Some(t) => t.total_checkins,
            None => return true,
        };
        let total_visitors = match self.places.get(place_id) {
            Some(p) => p.total_visitors,
            None => return true,
        };
        if self.id_count == u64::MAX || total_checkins == u32::MAX || total_visitors == u32::MAX {
            return false;
        }
        let total = total_checkins + 1;
        if (total == 10 || total == 25 || total == 50 || total == 100) && !self.holds_active_badge(
            traveler,
            BadgeType::CheckInMilestone(total),
        ) {
            return self.badge_count_fits(traveler);
        }
        true
    }

    /// Whether `leave_review` stays within its counters.
    pub fn leave_review_fits(&self, reviewer: &Address, provider: &Address, checkin_id: u64, rating: u32) -> (b: bool)
        requires
            self.wf(),
        ensures
            b == self@.leave_review_fits(*reviewer, *provider, checkin_id, rating),
    {
        if self.admin.is_none() || rating < 1 || rating > 5 {
            return true;
        }
        let total_reviews = match self.travelers.get(reviewer) {
            Some(t) => t.total_reviews,
            None => return true,
        };
        let confirmed = match self.checkins.get(&(reviewer.clone(), checkin_id)) {
            Some(c) => c.confirmed_by.same_key(provider),
            None => return true,
        };
        if !confirmed || self.reviews.contains_key(&(reviewer.clone(), provider.clone())) {
            return true;
        }
        let (avg, count) = match self.providers.get(provider) {
            Some(p) => (p.avg_rating, p.total_ratings),
            None => return true,
        };
        if count == u32::MAX || total_reviews == u32::MAX {
            return false;
        }
        let a = avg as u64;
        let c = count as u64;
        assert(a * c <= 0xffff_fffe_0000_0001) by (nonlinear_arith)
            requires
                a <= 0xffff_ffff,
                c <= 0xffff_ffff,
        ;
        if a * c + rating as u64 * 100 > u32::MAX as u64 {
            return false;
        }
        if total_reviews + 1 >= 20 && !self.holds_active_badge(reviewer, BadgeType::TrustedReviewer) {
            return self.badge_count_fits(reviewer);
        }
        true
    }

    /// Whether `record_payment_success` stays within its counters.
    pub fn payment_success_fits(&self, admin: &Address, owner: &Address) -> (b: bool)
        requires
            self.wf(),
        ensures
            b == self@.payment_success_fits(*admin, *owner),
    {
        if self.assert_admin(admin).is_err() {
            return true;
        }
        let mut raised = match self.payment_reps.get(owner) {
            Some(rep) => rep.clone(),
            None => return true,
        };
        if raised.total_deposits == u32::MAX || raised.successful_refunds == u32::MAX {
            return false;
        }
        raised.total_deposits = raised.total_deposits + 1;
        raised.successful_refunds = raised.successful_refunds + 1;
        if !payment_score_within_limits(&raised) {
            return false;
        }
        if raised.disputes == 0 && raised.total_deposits >= 10 && !self.holds_active_badge(
            owner,
            BadgeType::PaymentChampion,
        ) {
            return self.badge_count_fits(owner);
        }
        true
    }

    /// Whether `record_dispute` stays within its counters.
    pub fn dispute_fits(&self, admin: &Address, owner: &Address, won: bool) -> (b: bool)
        requires
            self.wf(),
        ensures
            b == self@.dispute_fits(*admin, *owner, won),
    {
        if self.assert_admin(admin).is_err() {
            return true;
        }
        let mut raised = match self.payment_reps.get(owner) {
            Some(rep) => rep.clone(),
            None => return true,
        };
        if raised.disputes == u32::MAX || (won && raised.dispute_wins == u32::MAX) {
            return false;
        }
        raised.disputes = raised.disputes + 1;
        if won {
            raised.dispute_wins = raised.dispute_wins + 1;
        }
        payment_score_within_limits(&raised)
    }

    /// Whether `update_trust_score` stays within `u32`.
    pub fn trust_score_fits(&self, traveler: &Address) -> (b: bool)
        requires
            self.wf(),
        ensures
            b == self@.trust_score_fits(traveler@),
    {
        match self.travelers.get(traveler) {
            Some(p) => p.total_checkins <= u32::MAX / 4 && p.total_reviews <= u32::MAX / 10,
            None => true,
        }
    }

    /// Whether `owner` can be minted one more badge within `u32` ids.
    fn badge_count_fits(&self, owner: &Address) -> (b: bool)
        requires
            self.wf(),
        ensures
            b == self@.badge_fits(owner@),
    {
        match self.owner_badges.get(owner) {
            Some(ids) => ids.len() < u32::MAX as usize,
            None => true,
        }
    }

    // ── Internal ─────────────────────────────────────────────────────────

    /// The id the next badge of `owner` gets.
    fn next_badge_id(&self, owner: &Address) -> (id: u32)
        requires
            self.wf(),
            self@.badge_fits(owner@),
        ensures
            id == self@.next_badge_id(owner@),
    {
        match self.owner_badges.get(owner) {
            Some(ids) => ids.len() as u32 + 1,
            None => 1,
        }
    }

    /// Mints a badge to `owner` under the next free id.
    fn mint_badge(&mut self, owner: Address, badge_type: BadgeType, title: String, now: u64)
        requires
            old(self).wf(),
            old(self)@.admin is Some,
            old(self)@.badge_fits(owner@),
        ensures
            final(self).wf(),
            old(self)@.minted(final(self)@, owner, badge_type, title@, now),
    {
        let ghost old_ledger = self@;
        let ghost title_value = title;
        let badge_id = self.next_badge_id(&owner);
        let badge = BadgeRecord {
            id: badge_id,
            owner: owner.clone(),
            badge_type,
            title,
            issued_at: now,
            is_revoked: false,
        };
        let mut ids = match self.owner_badges.get(&owner) {
            Some(v) => v.clone(),
            None => Vec::new(),
        };
        ids.push(badge_id);
        self.badges.insert((owner.clone(), badge_id), badge);
        self.owner_badges.insert(owner, ids);
        proof {
            let key = (owner@, badge_id);
            assert(self@ == old_ledger.with_badge(owner, badge_type, title_value, now));
            assert(self@.badges[key].title == title_value);
            lemma_mint_keeps_inv(old_ledger, owner, badge_type, title_value, now);
        }
    }

    /// Whether `owner` holds a badge of this type that is not revoked.
    fn holds_active_badge(&self, owner: &Address, badge_type: BadgeType) -> (b: bool)
        requires
            self.wf(),
        ensures
            b == self@.has_active_badge(owner@, badge_type),
    {
        let ids = match self.owner_badges.get(owner) {
            Some(v) => v.clone(),
            None => Vec::new(),
        };
        let mut i: usize = 0;
        while i < ids.len()
            invariant
                self.wf(),
                ids@ == self@.badge_ids(owner@),
                i <= ids@.len(),
                forall|j: int|
                    0 <= j < i ==> !(#[trigger] self@.badges.contains_key((owner@, ids@[j]))
                        && self@.badges[(owner@, ids@[j])].badge_type == badge_type
                        && !self@.badges[(owner@, ids@[j])].is_revoked),
            decreases ids@.len() - i,
        {
            let key = (owner.clone(), ids[i]);
            if let Some(b) = self.badges.get(&key) {
                if b.badge_type == badge_type && !b.is_revoked {
                    return true;
                }
            }
            i = i + 1;
        }
        false
    }

    /// Mints a badge to `owner` unless `owner` holds an active one of that type.
    fn try_mint_badge(&mut self, owner: Address, badge_type: BadgeType, title: String, now: u64)
        requires
            old(self).wf(),
            old(self)@.admin is Some,
            !old(self)@.has_active_badge(owner@, badge_type) ==> old(self)@.badge_fits(owner@),
        ensures
            final(self).wf(),
            old(self)@.minted_unless_held(final(self)@, owner, badge_type, title@, now),
    {
        if self.holds_active_badge(&owner, badge_type) {
            return;
        }
        self.mint_badge(owner, badge_type, title, now);
    }

    /// Mints the check-in milestone badge when `total` is a milestone.
    fn check_checkin_badges(&mut self, traveler: &Address, total: u32, now: u64)
        requires
            old(self).wf(),
            old(self)@.admin is Some,
            is_checkin_milestone(total) && !old(self)@.has_active_badge(
                traveler@,
                BadgeType::CheckInMilestone(total),
            ) ==> old(self)@.badge_fits(traveler@),
        ensures
            final(self).wf(),
            old(self)@.milestone_awarded(final(self)@, *traveler, total, now),
    {
        if total == 10 || total == 25 || total == 50 || total == 100 {
            self.try_mint_badge(traveler.clone(), BadgeType::CheckInMilestone(total), "Mốc check-in".to_owned(), now);
        }
    }

    fn assert_admin(&self, caller: &Address) -> (r: Result<(), TravelError>)
        ensures
            match r {
                Ok(()) => self@.admin_error(*caller) is None,
                Err(e) => self@.admin_error(*caller) == Some(e),
            },
    {
        match &self.admin {
            None => Err(TravelError::NotInitialized),
            Some(a) => if !a.same_key(caller) {
                Err(TravelError::Unauthorized)
            } else {
                Ok(())
            },
        }
    }

    fn assert_initialized(&self) -> (r: Result<(), TravelError>)
        ensures
            match r {
                Ok(()) => self@.init_error() is None,
                Err(e) => self@.init_error() == Some(e),
            },
    {
        if self.admin.is_none() {
            return Err(TravelError::NotInitialized);
        }
        Ok(())
    }
}

} // verus!
