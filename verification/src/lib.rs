//! An escrow-based crowdfunding state machine.
//!
//! A creator opens a campaign with a funding target and a time window, donors
//! pledge funds into the campaign's pool, and at or after the end time the
//! pool is either released to the creator (target met) or returned donor by
//! donor (target missed). Every operation validates first and commits
//! afterwards: a rejected call leaves every record and balance as it was.
//!
//! - `state`, `identity`, `error`: the records, who they belong to, and the
//!   failures.
//! - `accounts`: what one operation reads and changes.
//! - `instructions`: the four operations on one campaign and one pledge.
//! - `escrow`: a campaign with all of its pledges, one record per donor.
//! - `laws`, `history`: what holds of one call, and of every run of calls.
//! - `address`: where the records are stored.

pub mod accounts;
pub mod address;
pub mod error;
pub mod escrow;
pub mod history;
pub mod identity;
pub mod instructions;
pub mod laws;
pub mod state;

pub use accounts::{Claim, CreateCampaign, Donate, Refund, Wallet};
pub use address::{derive_campaign_address, derive_donation_address};
pub use error::ErrorCode;
pub use escrow::Escrow;
pub use history::Call;
pub use identity::Identity;
pub use instructions::{claim, create_campaign, donate, refund};
pub use state::{Campaign, CampaignStatus, Donation, DonationStatus};
