//! The records that the ledger holds, and its errors.

use vstd::prelude::*;
use crate::table::TableKey;

verus! {

/// A Stellar account or contract address, held as its strkey text.
#[derive(Debug)]
pub struct Address {
    strkey: String,
}

impl View for Address {
    type V = Seq<char>;

    closed spec fn view(&self) -> Seq<char> {
        self.strkey@
    }
}

impl Clone for Address {
    fn clone(&self) -> (r: Self)
        ensures
            r == *self,
    {
        Address { strkey: self.strkey.clone() }
    }
}

impl Address {
    /// The address whose strkey text is `strkey`.
    pub fn from_strkey(strkey: String) -> (a: Address)
        ensures
            a@ == strkey@,
    {
        Address { strkey }
    }

    /// The strkey text of this address.
    pub fn strkey(&self) -> (s: &String)
        ensures
            s@ == self@,
    {
        &self.strkey
    }
}

impl TableKey for Address {
    fn same_key(&self, other: &Self) -> (b: bool) {
        self.strkey == other.strkey
    }
}

impl TableKey for String {
    fn same_key(&self, other: &Self) -> (b: bool) {
        *self == *other
    }
}

impl TableKey for (Address, u64) {
    fn same_key(&self, other: &Self) -> (b: bool) {
        self.0.same_key(&other.0) && self.1 == other.1
    }
}

impl TableKey for (Address, u32) {
    fn same_key(&self, other: &Self) -> (b: bool) {
        self.0.same_key(&other.0) && self.1 == other.1
    }
}

impl TableKey for (Address, Address) {
    fn same_key(&self, other: &Self) -> (b: bool) {
        self.0.same_key(&other.0) && self.1.same_key(&other.1)
    }
}

/// Traveler's on-chain passport.
#[derive(Debug)]
pub struct TravelerProfile {
    pub owner: Address,
    pub display_name: String,
    pub country_code: String,
    pub total_checkins: u32,
    pub total_reviews: u32,
    pub countries_visited: u32,
    /// Composite score, 0 to 1000.
    pub trust_score: u32,
    pub registered_at: u64,
}

impl Clone for TravelerProfile {
    fn clone(&self) -> (r: Self)
        ensures
            r == *self,
    {
        TravelerProfile {
            owner: self.owner.clone(),
            display_name: self.display_name.clone(),
            country_code: self.country_code.clone(),
            total_checkins: self.total_checkins,
            total_reviews: self.total_reviews,
            countries_visited: self.countries_visited,
            trust_score: self.trust_score,
            registered_at: self.registered_at,
        }
    }
}

/// Service provider identity (tour, hotel, guide, restaurant).
#[derive(Debug)]
pub struct ProviderProfile {
    pub owner: Address,
    pub business_name: String,
    /// "hotel", "tour", "guide" or "restaurant".
    pub category: String,
    pub country_code: String,
    pub license_number: String,
    /// Average rating times 100.
    pub avg_rating: u32,
    pub total_ratings: u32,
    pub is_verified: bool,
    pub registered_at: u64,
}

impl Clone for ProviderProfile {
    fn clone(&self) -> (r: Self)
        ensures
            r == *self,
    {
        ProviderProfile {
            owner: self.owner.clone(),
            business_name: self.business_name.clone(),
            category: self.category.clone(),
            country_code: self.country_code.clone(),
            license_number: self.license_number.clone(),
            avg_rating: self.avg_rating,
            total_ratings: self.total_ratings,
            is_verified: self.is_verified,
            registered_at: self.registered_at,
        }
    }
}

/// A provider-confirmed visit to a destination.
#[derive(Debug)]
pub struct CheckInRecord {
    pub id: u64,
    pub traveler: Address,
    pub place_id: String,
    pub place_name: String,
    pub country_code: String,
    /// The verified provider who stamped the visit.
    pub confirmed_by: Address,
    pub visited_at: u64,
    pub note: String,
}

impl Clone for CheckInRecord {
    fn clone(&self) -> (r: Self)
        ensures
            r == *self,
    {
        CheckInRecord {
            id: self.id,
            traveler: self.traveler.clone(),
            place_id: self.place_id.clone(),
            place_name: self.place_name.clone(),
            country_code: self.country_code.clone(),
            confirmed_by: self.confirmed_by.clone(),
            visited_at: self.visited_at,
            note: self.note.clone(),
        }
    }
}

/// A review, linked to a check-in that the rated provider confirmed.
#[derive(Debug)]
pub struct ReviewRecord {
    pub reviewer: Address,
    pub provider: Address,
    pub checkin_id: u64,
    /// 1 to 5.
    pub rating: u32,
    pub comment: String,
    pub reviewed_at: u64,
    pub is_flagged: bool,
}

impl Clone for ReviewRecord {
    fn clone(&self) -> (r: Self)
        ensures
            r == *self,
    {
        ReviewRecord {
            reviewer: self.reviewer.clone(),
            provider: self.provider.clone(),
            checkin_id: self.checkin_id,
            rating: self.rating,
            comment: self.comment.clone(),
            reviewed_at: self.reviewed_at,
            is_flagged: self.is_flagged,
        }
    }
}

/// A soulbound achievement badge.
#[derive(Debug)]
pub struct BadgeRecord {
    pub id: u32,
    pub owner: Address,
    pub badge_type: BadgeType,
    pub title: String,
    pub issued_at: u64,
    pub is_revoked: bool,
}

impl Clone for BadgeRecord {
    fn clone(&self) -> (r: Self)
        ensures
            r == *self,
    {
        BadgeRecord {
            id: self.id,
            owner: self.owner.clone(),
            badge_type: self.badge_type,
            title: self.title.clone(),
            issued_at: self.issued_at,
            is_revoked: self.is_revoked,
        }
    }
}

/// Payment reliability of an account.
#[derive(Debug)]
pub struct PaymentReputation {
    pub owner: Address,
    pub total_deposits: u32,
    pub successful_refunds: u32,
    pub disputes: u32,
    pub dispute_wins: u32,
    /// 0 to 100.
    pub score: u32,
    pub last_updated: u64,
}

impl Clone for PaymentReputation {
    fn clone(&self) -> (r: Self)
        ensures
            r == *self,
    {
        PaymentReputation {
            owner: self.owner.clone(),
            total_deposits: self.total_deposits,
            successful_refunds: self.successful_refunds,
            disputes: self.disputes,
            dispute_wins: self.dispute_wins,
            score: self.score,
            last_updated: self.last_updated,
        }
    }
}

/// A registered destination or place of interest.
#[derive(Debug)]
pub struct PlaceInfo {
    pub id: String,
    pub name: String,
    pub country_code: String,
    /// "city", "landmark", "beach" or "mountain".
    pub category: String,
    pub description: String,
    pub total_visitors: u32,
    pub avg_rating: u32,
    pub registered_by: Address,
    pub registered_at: u64,
}

impl Clone for PlaceInfo {
    fn clone(&self) -> (r: Self)
        ensures
            r == *self,
    {
        PlaceInfo {
            id: self.id.clone(),
            name: self.name.clone(),
            country_code: self.country_code.clone(),
            category: self.category.clone(),
            description: self.description.clone(),
            total_visitors: self.total_visitors,
            avg_rating: self.avg_rating,
            registered_by: self.registered_by.clone(),
            registered_at: self.registered_at,
        }
    }
}

/// Kinds of soulbound badges.
#[derive(Clone, Copy, Debug, PartialEq, Eq, Structural)]
pub enum BadgeType {
    CountriesVisited(u32),
    CheckInMilestone(u32),
    TrustedReviewer,
    VerifiedProvider,
    PaymentChampion,
    ExplorerElite,
}

/// Why a request was refused.
#[derive(Clone, Copy, Debug, PartialEq, Eq, Structural)]
pub enum TravelError {
    AlreadyInitialized,
    NotInitialized,
    Unauthorized,
    ProfileNotFound,
    ProfileAlreadyExists,
    CheckInNotFound,
    ReviewNotFound,
    ReviewAlreadyExists,
    BadgeNotFound,
    PlaceNotFound,
    InvalidRating,
    InvalidInput,
    CheckInNotConfirmed,
    BadgeRevoked,
    ProviderNotVerified,
}

impl View for TravelerProfile {
    type V = TravelerProfile;

    open spec fn view(&self) -> TravelerProfile {
        *self
    }
}

impl View for ProviderProfile {
    type V = ProviderProfile;

    open spec fn view(&self) -> ProviderProfile {
        *self
    }
}

impl View for CheckInRecord {
    type V = CheckInRecord;

    open spec fn view(&self) -> CheckInRecord {
        *self
    }
}

impl View for ReviewRecord {
    type V = ReviewRecord;

    open spec fn view(&self) -> ReviewRecord {
        *self
    }
}

impl View for BadgeRecord {
    type V = BadgeRecord;

    open spec fn view(&self) -> BadgeRecord {
        *self
    }
}

impl View for PaymentReputation {
    type V = PaymentReputation;

    open spec fn view(&self) -> PaymentReputation {
        *self
    }
}

impl View for PlaceInfo {
    type V = PlaceInfo;

    open spec fn view(&self) -> PlaceInfo {
        *self
    }
}

} // verus!
