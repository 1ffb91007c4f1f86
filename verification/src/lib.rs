//! TravelID: a ledger of traveler identities, tourism service providers,
//! provider-confirmed visits, reviews, soulbound badges and payment
//! reputation, with its rules proved.
//!
//! `TravelIDContract` holds the ledger and answers the contract's requests;
//! `ledger` models its contents as maps and states what each request does;
//! `laws` proves what holds across requests.

pub mod contract;
pub mod laws;
pub mod ledger;
pub mod score;
pub mod table;
pub mod types;

pub use contract::TravelIDContract;
pub use ledger::TravelLedger;
pub use score::{compute_payment_score, compute_trust_score, payment_score_within_limits};
pub use table::{Table, TableKey};
pub use types::{
    Address, BadgeRecord, BadgeType, CheckInRecord, PaymentReputation, PlaceInfo, ProviderProfile,
    ReviewRecord, TravelError, TravelerProfile,
};
