//! What each operation works on: the records and balances that it may read
//! and change, as plain values.

use crate::identity::Identity;
use crate::state::{Campaign, Donation};
use vstd::prelude::*;

verus! {

/// A principal together with the funds it holds.
#[derive(Clone, Copy, Debug)]
pub struct Wallet {
    /// Who the funds belong to.
    pub key: Identity,
    /// The funds, in the smallest indivisible unit.
    pub balance: u64,
}

/// The setting of campaign creation.
#[derive(Clone, Debug)]
pub struct CreateCampaign {
    /// The slot of the campaign record: vacant before, filled after.
    pub campaign: Option<Campaign>,
    /// The caller, who becomes the campaign's creator.
    pub creator: Wallet,
}

/// The setting of a donation.
#[derive(Clone, Debug)]
pub struct Donate {
    /// The campaign record.
    pub campaign: Campaign,
    /// Where the campaign record is stored.
    pub campaign_key: Identity,
    /// The funds pooled with the campaign record.
    pub pool_balance: u64,
    /// The caller, who pays.
    pub donator: Wallet,
    /// The caller's pledge record for this campaign, if one exists yet.
    pub donation: Option<Donation>,
}

/// The setting of a claim.
#[derive(Clone, Debug)]
pub struct Claim {
    /// The campaign record.
    pub campaign: Campaign,
    /// The funds pooled with the campaign record.
    pub pool_balance: u64,
    /// The caller, who is paid.
    pub creator: Wallet,
}

/// The setting of a refund.
#[derive(Clone, Debug)]
pub struct Refund {
    /// The campaign record.
    pub campaign: Campaign,
    /// The funds pooled with the campaign record.
    pub pool_balance: u64,
    /// The caller, who is paid back.
    pub donator: Wallet,
    /// The caller's pledge record for this campaign.
    pub donation: Donation,
}

} // verus!
